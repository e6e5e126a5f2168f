//! The IPC manager: the handlers that are known for each process, and the
//! answers to IPC commands.

use crate::dispatch::texts_of;
use crate::json::{Json, JsonV, MemberV};
use crate::outside::{fresh_session_id, utc_now_rfc3339};
use crate::text::{join3, same_text};
use crate::{ErrorKind, ErrorV, TauriMcpError};
use vstd::prelude::*;

verus! {

/// The mathematical value of the handlers that are known for one process.
pub struct HandlersV {
    pub process_id: Seq<char>,
    pub handlers: Seq<Seq<char>>,
}

/// The place of the entry for `process_id` in `entries`, or `-1`.
pub open spec fn entry_position(entries: Seq<HandlersV>, process_id: Seq<char>) -> int
    decreases entries.len(),
{
    if entries.len() == 0 {
        -1
    } else if entries.last().process_id == process_id {
        entries.len() - 1
    } else {
        entry_position(entries.drop_last(), process_id)
    }
}

/// The handlers that every application has.
pub open spec fn default_handlers() -> Seq<Seq<char>> {
    seq![
        "tauri"@,
        "app_ready"@,
        "window_created"@,
        "window_destroyed"@,
        "webview_created"@,
        "webview_destroyed"@,
        "event"@,
        "invoke"@,
    ]
}

/// The handlers of `process_id`: those that were registered for it, and the
/// default handlers where none ever was.
pub open spec fn handlers_of(entries: Seq<HandlersV>, process_id: Seq<char>) -> Seq<Seq<char>> {
    if entry_position(entries, process_id) >= 0 {
        entries[entry_position(entries, process_id)].handlers
    } else {
        default_handlers()
    }
}

/// No two entries are for the same process.
pub open spec fn distinct_processes(entries: Seq<HandlersV>) -> bool {
    forall|i: int, j: int|
        0 <= i < j < entries.len() ==> entries[i].process_id != entries[j].process_id
}

/// The entries after `handler` was registered for `process_id`: a process
/// that had no entry gets one, and a handler that is there is not added
/// again.
pub open spec fn registered(entries: Seq<HandlersV>, process_id: Seq<char>, handler: Seq<char>)
    -> Seq<HandlersV> {
    let at = entry_position(entries, process_id);
    if at < 0 {
        entries.push(HandlersV { process_id, handlers: seq![handler] })
    } else if entries[at].handlers.contains(handler) {
        entries
    } else {
        entries.update(at, HandlersV { process_id, handlers: entries[at].handlers.push(handler) })
    }
}

/// `handlers` without every occurrence of `handler`.
pub open spec fn without(handlers: Seq<Seq<char>>, handler: Seq<char>) -> Seq<Seq<char>>
    decreases handlers.len(),
{
    if handlers.len() == 0 {
        Seq::empty()
    } else if handlers.last() == handler {
        without(handlers.drop_last(), handler)
    } else {
        without(handlers.drop_last(), handler).push(handlers.last())
    }
}

/// The entries after `handler` was taken from `process_id`.  The entry of
/// the process stays, also where it is left without handlers.
pub open spec fn unregistered(entries: Seq<HandlersV>, process_id: Seq<char>, handler: Seq<char>)
    -> Seq<HandlersV> {
    let at = entry_position(entries, process_id);
    if at < 0 {
        entries
    } else {
        entries.update(at, HandlersV { process_id, handlers: without(entries[at].handlers, handler) })
    }
}

/// The error of an `invoke` that names no command.
pub open spec fn missing_cmd() -> ErrorV {
    ErrorV { kind: ErrorKind::Ipc, detail: "Missing 'cmd' parameter for invoke"@ }
}

/// The member `status` of every successful answer.
pub open spec fn success() -> MemberV {
    MemberV { key: "status"@, value: JsonV::Str("success"@) }
}

/// The answer to the IPC command `command` with the arguments `args`, where
/// `now` is the present moment and `window_id` a new id.  `app_ready`
/// reports the moment and `window_created` the id; `invoke` needs the string
/// argument `cmd`; any command that is not built in is echoed.
pub open spec fn ipc_answer(
    command: Seq<char>,
    args: JsonV,
    now: Seq<char>,
    window_id: Seq<char>,
) -> Result<JsonV, ErrorV> {
    if command == "tauri"@ {
        Ok(
            JsonV::Object(
                seq![
                    success(),
                    MemberV { key: "message"@, value: JsonV::Str("Tauri command executed"@) },
                    MemberV { key: "version"@, value: JsonV::Str("2.0.0"@) },
                ],
            ),
        )
    } else if command == "app_ready"@ {
        Ok(
            JsonV::Object(
                seq![
                    success(),
                    MemberV { key: "ready"@, value: JsonV::Bool(true) },
                    MemberV { key: "timestamp"@, value: JsonV::Str(now) },
                ],
            ),
        )
    } else if command == "window_created"@ {
        Ok(
            JsonV::Object(
                seq![
                    success(),
                    MemberV { key: "window_id"@, value: JsonV::Str(window_id) },
                    MemberV {
                        key: "title"@,
                        value: JsonV::Str(
                            match args.str_field("title"@) {
                                Some(t) => t,
                                None => "Tauri Window"@,
                            },
                        ),
                    },
                ],
            ),
        )
    } else if command == "invoke"@ {
        match args.str_field("cmd"@) {
            Some(cmd) => Ok(
                JsonV::Object(
                    seq![
                        success(),
                        MemberV { key: "command"@, value: JsonV::Str(cmd) },
                        MemberV {
                            key: "result"@,
                            value: JsonV::Str("Command invoked successfully"@),
                        },
                    ],
                ),
            ),
            None => Err(missing_cmd()),
        }
    } else {
        Ok(
            JsonV::Object(
                seq![
                    success(),
                    MemberV { key: "command"@, value: JsonV::Str(command) },
                    MemberV {
                        key: "message"@,
                        value: JsonV::Str("Custom command '"@ + command + "' executed"@),
                    },
                    MemberV { key: "args"@, value: args },
                ],
            ),
        )
    }
}

/// The state that is reported for `key`: none is kept.
pub open spec fn app_state_json(key: Seq<char>) -> JsonV {
    JsonV::Object(
        seq![
            MemberV { key: "key"@, value: JsonV::Str(key) },
            MemberV { key: "value"@, value: JsonV::Null },
            MemberV { key: "exists"@, value: JsonV::Bool(false) },
        ],
    )
}

struct HandlerSet {
    process_id: String,
    handlers: Vec<String>,
}

impl HandlerSet {
    spec fn entry(self) -> HandlersV {
        HandlersV { process_id: self.process_id@, handlers: texts_of(self.handlers@) }
    }
}

spec fn entries_of(list: Seq<HandlerSet>) -> Seq<HandlersV> {
    Seq::new(list.len(), |i: int| list[i].entry())
}

/// The handlers that are known for each process.
pub struct IpcManager {
    known_handlers: Vec<HandlerSet>,
}

impl View for IpcManager {
    type V = Seq<HandlersV>;

    closed spec fn view(&self) -> Seq<HandlersV> {
        entries_of(self.known_handlers@)
    }
}

/// Where `entry_position` finds an entry, it is one for the process asked
/// for.
pub proof fn lemma_entry_position(entries: Seq<HandlersV>, process_id: Seq<char>)
    ensures
        -1 <= entry_position(entries, process_id) < entries.len(),
        entry_position(entries, process_id) >= 0 ==> entries[entry_position(
            entries,
            process_id,
        )].process_id == process_id,
        entry_position(entries, process_id) == -1 ==> forall|i: int|
            0 <= i < entries.len() ==> (#[trigger] entries[i]).process_id != process_id,
    decreases entries.len(),
{
    if entries.len() > 0 && entries.last().process_id != process_id {
        lemma_entry_position(entries.drop_last(), process_id);
        if entry_position(entries, process_id) == -1 {
            assert forall|i: int| 0 <= i < entries.len() implies (
            #[trigger] entries[i]).process_id != process_id by {
                if i < entries.len() - 1 {
                    assert(entries.drop_last()[i] == entries[i]);
                }
            }
        }
    }
}

fn find_entry(list: &Vec<HandlerSet>, process_id: &str) -> (r: Option<usize>)
    ensures
        match r {
            Some(i) => i < list@.len() && entry_position(entries_of(list@), process_id@) == i,
            None => entry_position(entries_of(list@), process_id@) == -1,
        },
{
    let ghost all = entries_of(list@);
    let mut i: usize = list.len();
    proof {
        assert(all.take(i as int) =~= all);
    }
    while i > 0
        invariant
            i <= list.len(),
            all == entries_of(list@),
            entry_position(all, process_id@) == entry_position(all.take(i as int), process_id@),
        decreases i,
    {
        i -= 1;
        proof {
            assert(all.take(i + 1).drop_last() =~= all.take(i as int));
            assert(all.take(i + 1).last() == all[i as int]);
        }
        if same_text(list[i].process_id.as_str(), process_id) {
            return Some(i);
        }
    }
    None
}

fn holds(handlers: &Vec<String>, handler: &str) -> (r: bool)
    ensures
        r == texts_of(handlers@).contains(handler@),
{
    let mut i: usize = 0;
    while i < handlers.len()
        invariant
            i <= handlers.len(),
            forall|j: int| 0 <= j < i ==> texts_of(handlers@)[j] != handler@,
        decreases handlers.len() - i,
    {
        if same_text(handlers[i].as_str(), handler) {
            assert(texts_of(handlers@)[i as int] == handler@);
            return true;
        }
        i += 1;
    }
    false
}

fn copy_texts(items: &Vec<String>) -> (r: Vec<String>)
    ensures
        texts_of(r@) == texts_of(items@),
{
    let mut out: Vec<String> = Vec::new();
    let mut i: usize = 0;
    while i < items.len()
        invariant
            i <= items.len(),
            out@.len() == i,
            forall|j: int| 0 <= j < i ==> out@[j]@ == items@[j]@,
        decreases items.len() - i,
    {
        out.push(items[i].clone());
        i += 1;
    }
    proof {
        assert(texts_of(out@) =~= texts_of(items@));
    }
    out
}

fn remove_all(handlers: Vec<String>, handler: &str) -> (r: Vec<String>)
    ensures
        texts_of(r@) == without(texts_of(handlers@), handler@),
{
    let ghost all = texts_of(handlers@);
    let mut out: Vec<String> = Vec::new();
    let mut i: usize = 0;
    proof {
        assert(texts_of(out@) =~= without(all.take(0), handler@));
    }
    while i < handlers.len()
        invariant
            i <= handlers.len(),
            all == texts_of(handlers@),
            texts_of(out@) == without(all.take(i as int), handler@),
        decreases handlers.len() - i,
    {
        proof {
            assert(all.take(i + 1).drop_last() =~= all.take(i as int));
            assert(all.take(i + 1).last() == handlers@[i as int]@);
        }
        let ghost before = texts_of(out@);
        if !same_text(handlers[i].as_str(), handler) {
            out.push(handlers[i].clone());
            proof {
                assert(texts_of(out@) =~= before.push(handlers@[i as int]@));
            }
        }
        i += 1;
    }
    proof {
        assert(all.take(i as int) =~= all);
    }
    out
}

/// The answer to an IPC command.
pub fn ipc_response(command_name: &str, args: Json, now: &str, window_id: &str) -> (r: Result<
    Json,
    TauriMcpError,
>)
    ensures
        match r {
            Ok(j) => ipc_answer(command_name@, args@, now@, window_id@) == Ok::<JsonV, ErrorV>(j@),
            Err(e) => ipc_answer(command_name@, args@, now@, window_id@) == Err::<JsonV, ErrorV>(
                e@,
            ),
        },
{
    let status = Json::object().with("status", Json::string("success"));
    proof {
        assert(status@->Object_0 =~= seq![success()]);
    }
    if same_text(command_name, "tauri") {
        let r = status.with("message", Json::string("Tauri command executed")).with(
            "version",
            Json::string("2.0.0"),
        );
        proof {
            assert(r@->Object_0 =~= ipc_answer(
                command_name@,
                args@,
                now@,
                window_id@,
            )->Ok_0->Object_0);
        }
        Ok(r)
    } else if same_text(command_name, "app_ready") {
        let r = status.with("ready", Json::Bool(true)).with("timestamp", Json::string(now));
        proof {
            assert(r@->Object_0 =~= ipc_answer(
                command_name@,
                args@,
                now@,
                window_id@,
            )->Ok_0->Object_0);
        }
        Ok(r)
    } else if same_text(command_name, "window_created") {
        let title = match args.get("title") {
            Some(t) => match t.as_str() {
                Some(s) => Json::string(s),
                None => Json::string("Tauri Window"),
            },
            None => Json::string("Tauri Window"),
        };
        let r = status.with("window_id", Json::string(window_id)).with("title", title);
        proof {
            assert(r@->Object_0 =~= ipc_answer(
                command_name@,
                args@,
                now@,
                window_id@,
            )->Ok_0->Object_0);
        }
        Ok(r)
    } else if same_text(command_name, "invoke") {
        let cmd = match args.get("cmd") {
            Some(c) => match c.as_str() {
                Some(s) => Some(Json::string(s)),
                None => None,
            },
            None => None,
        };
        match cmd {
            Some(cmd) => {
                let r = status.with("command", cmd).with(
                    "result",
                    Json::string("Command invoked successfully"),
                );
                proof {
                    assert(r@->Object_0 =~= ipc_answer(
                        command_name@,
                        args@,
                        now@,
                        window_id@,
                    )->Ok_0->Object_0);
                }
                Ok(r)
            },
            None => Err(
                TauriMcpError::IpcError("Missing 'cmd' parameter for invoke".to_owned()),
            ),
        }
    } else {
        let message = join3("Custom command '", command_name, "' executed");
        let r = status.with("command", Json::string(command_name)).with(
            "message",
            Json::Str(message),
        ).with("args", args);
        proof {
            assert(r@->Object_0 =~= ipc_answer(
                command_name@,
                args@,
                now@,
                window_id@,
            )->Ok_0->Object_0);
        }
        Ok(r)
    }
}

impl IpcManager {
    #[verifier::type_invariant]
    spec fn valid(self) -> bool {
        distinct_processes(self@)
    }

    /// The manager that knows no handler.
    pub fn new() -> (m: IpcManager)
        ensures
            m@ == Seq::<HandlersV>::empty(),
    {
        let m = IpcManager { known_handlers: Vec::new() };
        proof {
            assert(m@ =~= Seq::<HandlersV>::empty());
        }
        m
    }

    /// The number of processes for which handlers were registered.
    pub fn process_count(&self) -> (n: usize)
        ensures
            n == self@.len(),
            distinct_processes(self@),
    {
        proof {
            use_type_invariant(self);
        }
        self.known_handlers.len()
    }

    /// The handlers of `process_id`: those that were registered for it, and
    /// the default handlers where none ever was.
    pub fn list_ipc_handlers(&self, process_id: &str) -> (r: Result<Vec<String>, TauriMcpError>)
        ensures
            r is Ok,
            texts_of(r->Ok_0@) == handlers_of(self@, process_id@),
    {
        match find_entry(&self.known_handlers, process_id) {
            Some(i) => Ok(copy_texts(&self.known_handlers[i].handlers)),
            None => {
                let mut names: Vec<String> = Vec::new();
                names.push("tauri".to_owned());
                names.push("app_ready".to_owned());
                names.push("window_created".to_owned());
                names.push("window_destroyed".to_owned());
                names.push("webview_created".to_owned());
                names.push("webview_destroyed".to_owned());
                names.push("event".to_owned());
                names.push("invoke".to_owned());
                proof {
                    assert(texts_of(names@) =~= default_handlers());
                }
                Ok(names)
            },
        }
    }

    /// Answers the IPC command `command_name`.  The moment that `app_ready`
    /// reports and the id that `window_created` reports are taken when the
    /// command is answered.
    pub fn call_ipc_command(&self, process_id: &str, command_name: &str, args: Json) -> (r:
        Result<Json, TauriMcpError>)
        ensures
            exists|now: Seq<char>, window_id: Seq<char>|
                match r {
                    Ok(j) => #[trigger] ipc_answer(command_name@, args@, now, window_id) == Ok::<
                        JsonV,
                        ErrorV,
                    >(j@),
                    Err(e) => #[trigger] ipc_answer(command_name@, args@, now, window_id) == Err::<
                        JsonV,
                        ErrorV,
                    >(e@),
                },
    {
        let now = if same_text(command_name, "app_ready") {
            utc_now_rfc3339()
        } else {
            String::new()
        };
        let window_id = if same_text(command_name, "window_created") {
            fresh_session_id()
        } else {
            String::new()
        };
        let ghost given = args@;
        let r = ipc_response(command_name, args, now.as_str(), window_id.as_str());
        proof {
            if r is Ok {
                assert(ipc_answer(command_name@, given, now@, window_id@) == Ok::<JsonV, ErrorV>(
                    r->Ok_0@,
                ));
            } else {
                assert(ipc_answer(command_name@, given, now@, window_id@) == Err::<JsonV, ErrorV>(
                    r->Err_0@,
                ));
            }
        }
        r
    }

    /// Registers `handler_name` for `process_id`.
    pub fn register_handler(&mut self, process_id: &str, handler_name: &str) -> (r: Result<
        (),
        TauriMcpError,
    >)
        ensures
            r is Ok,
            final(self)@ == registered(old(self)@, process_id@, handler_name@),
            distinct_processes(old(self)@),
            distinct_processes(final(self)@),
    {
        proof {
            use_type_invariant(&*self);
            lemma_entry_position(self@, process_id@);
        }
        let ghost before = self@;
        let found = find_entry(&self.known_handlers, process_id);
        let mut list: Vec<HandlerSet> = Vec::new();
        core::mem::swap(&mut self.known_handlers, &mut list);
        proof {
            assert(entries_of(Seq::<HandlerSet>::empty()) =~= Seq::<HandlersV>::empty());
        }
        match found {
            None => {
                let mut handlers: Vec<String> = Vec::new();
                handlers.push(handler_name.to_owned());
                proof {
                    assert(texts_of(handlers@) =~= seq![handler_name@]);
                }
                list.push(HandlerSet { process_id: process_id.to_owned(), handlers });
            },
            Some(at) => {
                if !holds(&list[at].handlers, handler_name) {
                    let mut set = list.remove(at);
                    let ghost had = texts_of(set.handlers@);
                    set.handlers.push(handler_name.to_owned());
                    proof {
                        assert(texts_of(set.handlers@) =~= had.push(handler_name@));
                    }
                    list.insert(at, set);
                }
            },
        }
        proof {
            let after = registered(before, process_id@, handler_name@);
            assert(entries_of(list@) =~= after);
            assert(distinct_processes(after));
        }
        core::mem::swap(&mut self.known_handlers, &mut list);
        Ok(())
    }

    /// Takes `handler_name` from the handlers of `process_id`.
    pub fn unregister_handler(&mut self, process_id: &str, handler_name: &str) -> (r: Result<
        (),
        TauriMcpError,
    >)
        ensures
            r is Ok,
            final(self)@ == unregistered(old(self)@, process_id@, handler_name@),
            distinct_processes(old(self)@),
            distinct_processes(final(self)@),
    {
        proof {
            use_type_invariant(&*self);
            lemma_entry_position(self@, process_id@);
        }
        let ghost before = self@;
        let found = find_entry(&self.known_handlers, process_id);
        let mut list: Vec<HandlerSet> = Vec::new();
        core::mem::swap(&mut self.known_handlers, &mut list);
        proof {
            assert(entries_of(Seq::<HandlerSet>::empty()) =~= Seq::<HandlersV>::empty());
        }
        match found {
            None => {},
            Some(at) => {
                let set = list.remove(at);
                let HandlerSet { process_id: owner, handlers } = set;
                let kept = remove_all(handlers, handler_name);
                list.insert(at, HandlerSet { process_id: owner, handlers: kept });
            },
        }
        proof {
            let after = unregistered(before, process_id@, handler_name@);
            assert(entries_of(list@) =~= after);
            assert(distinct_processes(after));
        }
        core::mem::swap(&mut self.known_handlers, &mut list);
        Ok(())
    }

    /// Emits an event to the application.  Nothing is kept of it.
    pub fn emit_event(&self, process_id: &str, event_name: &str, payload: Json) -> (r: Result<
        (),
        TauriMcpError,
    >)
        ensures
            r is Ok,
    {
        Ok(())
    }

    /// Starts listening to an event.  Nothing is kept of it.
    pub fn listen_to_event(&self, process_id: &str, event_name: &str) -> (r: Result<
        (),
        TauriMcpError,
    >)
        ensures
            r is Ok,
    {
        Ok(())
    }

    /// Stops listening to an event.  Nothing is kept of it.
    pub fn unlisten_event(&self, process_id: &str, event_name: &str) -> (r: Result<
        (),
        TauriMcpError,
    >)
        ensures
            r is Ok,
    {
        Ok(())
    }

    /// The state of the application under `key`: none is kept, so none is
    /// found.
    pub fn get_app_state(&self, process_id: &str, key: &str) -> (r: Result<Json, TauriMcpError>)
        ensures
            r is Ok,
            r->Ok_0@ == app_state_json(key@),
    {
        let r = Json::object().with("key", Json::string(key)).with("value", Json::Null).with(
            "exists",
            Json::Bool(false),
        );
        proof {
            assert(r@->Object_0 =~= app_state_json(key@)->Object_0);
        }
        Ok(r)
    }

    /// Sets the state of the application under `key`.  Nothing is kept of it.
    pub fn set_app_state(&self, process_id: &str, key: &str, value: Json) -> (r: Result<
        (),
        TauriMcpError,
    >)
        ensures
            r is Ok,
    {
        Ok(())
    }
}

/// A handler that was registered is among the handlers of its process, and
/// registering it once more changes nothing.
pub proof fn lemma_registered_is_listed(
    entries: Seq<HandlersV>,
    process_id: Seq<char>,
    handler: Seq<char>,
)
    requires
        distinct_processes(entries),
    ensures
        handlers_of(registered(entries, process_id, handler), process_id).contains(handler),
        registered(registered(entries, process_id, handler), process_id, handler) == registered(
            entries,
            process_id,
            handler,
        ),
{
    let at = entry_position(entries, process_id);
    let after = registered(entries, process_id, handler);
    lemma_entry_position(entries, process_id);
    if at < 0 {
        assert(after.drop_last() =~= entries);
        assert(after.last().handlers[0] == handler);
    } else if entries[at].handlers.contains(handler) {
    } else {
        lemma_same_processes(entries, after, process_id);
        assert(after[at].handlers.last() == handler);
    }
}

/// Two sequences of entries for the same processes, place by place, hold
/// each process at the same place.
proof fn lemma_same_processes(a: Seq<HandlersV>, b: Seq<HandlersV>, process_id: Seq<char>)
    requires
        a.len() == b.len(),
        forall|i: int| 0 <= i < a.len() ==> a[i].process_id == b[i].process_id,
    ensures
        entry_position(a, process_id) == entry_position(b, process_id),
    decreases a.len(),
{
    if a.len() > 0 {
        assert(a.last().process_id == b.last().process_id);
        lemma_same_processes(a.drop_last(), b.drop_last(), process_id);
    }
}

} // verus!
