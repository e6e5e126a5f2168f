//! The process lifecycle manager: the registry of the processes that the
//! server launched or attached to, with the log of each.
//!
//! The manager decides; it does not touch the operating system.  Whoever
//! drives it spawns, kills and inspects processes and reports what happened.

use crate::dispatch::texts_of;
use crate::json::{views_of, Json, JsonV, MemberV};
use crate::outside::fresh_session_id;
use crate::text::{
    contains, contains_text, decimal, decimal_text, is_uuid_text, join, join2, join3, join_text,
    same_text,
};
use crate::tools::logs::{
    bounded_push, keep_last, last_lines, tag_line, tagged, LogQueue, Stream, LOG_CAPACITY,
};
use crate::{process_error, ErrorV, TauriMcpError};
use vstd::prelude::*;

verus! {

/// The mathematical value of one tracked process.
pub struct RecordV {
    /// The session id under which the process is tracked.
    pub id: Seq<char>,
    /// The process id that the operating system gave.
    pub pid: u32,
    /// Whether the process was started by someone else and only attached to.
    pub attached: bool,
    /// The lines that wait to be read, oldest first.
    pub logs: Seq<Seq<char>>,
}

/// The mathematical value of the registry: the tracked processes in the
/// order in which they came, and the session ids of those that were stopped.
pub struct ManagerV {
    pub records: Seq<RecordV>,
    pub retired: Seq<Seq<char>>,
}

/// The place of the record with the session id `id` in `records`, or `-1`
/// where there is none.
pub open spec fn position(records: Seq<RecordV>, id: Seq<char>) -> int
    decreases records.len(),
{
    if records.len() == 0 {
        -1
    } else if records.last().id == id {
        records.len() - 1
    } else {
        position(records.drop_last(), id)
    }
}

/// The error for a session id that the registry does not track.
pub open spec fn not_found(id: Seq<char>) -> ErrorV {
    process_error("Process not found: "@ + id)
}

/// The error for stopping a process that the server did not start.
pub open spec fn not_owned() -> ErrorV {
    process_error("Cannot stop externally launched process"@)
}

/// The error for a kill that the operating system refused.
pub open spec fn kill_failed(reason: Seq<char>) -> ErrorV {
    process_error("Failed to kill process: "@ + reason)
}

/// The error for a new session id that was given out before.
pub open spec fn id_in_use(id: Seq<char>) -> ErrorV {
    process_error("Session id already in use: "@ + id)
}

/// The error for attaching to a process that the operating system does not
/// show.
pub open spec fn pid_not_found(pid: u32) -> ErrorV {
    process_error("Process with PID "@ + decimal_text(pid as nat) + " not found"@)
}

/// The error of a resource query on a process that is gone.
pub open spec fn no_process_info() -> ErrorV {
    process_error("Failed to get process info"@)
}

impl ManagerV {
    /// No two records share a session id, no tracked id is retired, and the
    /// log of a process that was only attached to is empty: such a process
    /// has no stream that the server reads.
    pub open spec fn wf(self) -> bool {
        &&& forall|i: int, j: int|
            0 <= i < j < self.records.len() ==> self.records[i].id != self.records[j].id
        &&& forall|i: int|
            0 <= i < self.records.len() ==> !self.retired.contains(#[trigger] self.records[i].id)
        &&& forall|i: int|
            0 <= i < self.records.len() && (#[trigger] self.records[i]).attached
                ==> self.records[i].logs == Seq::<Seq<char>>::empty()
    }

    /// Whether a process is tracked under `id`.
    pub open spec fn tracks(self, id: Seq<char>) -> bool {
        position(self.records, id) >= 0
    }

    /// The record tracked under `id`.
    pub open spec fn record(self, id: Seq<char>) -> RecordV {
        self.records[position(self.records, id)]
    }

    /// Whether `id` was ever given out: it is tracked now, or it was and
    /// its process has been stopped.
    pub open spec fn issued(self, id: Seq<char>) -> bool {
        self.tracks(id) || self.retired.contains(id)
    }

    /// The registry with a new record under `id`, its log empty.
    pub open spec fn register(self, id: Seq<char>, pid: u32, attached: bool) -> ManagerV {
        ManagerV {
            records: self.records.push(RecordV { id, pid, attached, logs: Seq::empty() }),
            retired: self.retired,
        }
    }

    /// The registry without the record under `id`, and with `id` retired.
    pub open spec fn remove(self, id: Seq<char>) -> ManagerV {
        ManagerV {
            records: self.records.remove(position(self.records, id)),
            retired: self.retired.push(id),
        }
    }

    /// The registry in which the log of the record under `id` is `logs`.
    pub open spec fn with_logs(self, id: Seq<char>, logs: Seq<Seq<char>>) -> ManagerV {
        ManagerV {
            records: self.records.update(
                position(self.records, id),
                RecordV { logs, ..self.record(id) },
            ),
            retired: self.retired,
        }
    }

    /// What registering `id` answers: the id, unless it was given out before.
    pub open spec fn register_result(self, id: Seq<char>) -> Result<Seq<char>, ErrorV> {
        if self.issued(id) {
            Err(id_in_use(id))
        } else {
            Ok(id)
        }
    }

    /// The registry after `id` was offered for a new record.
    pub open spec fn after_register(self, id: Seq<char>, pid: u32, attached: bool) -> ManagerV {
        if self.issued(id) {
            self
        } else {
            self.register(id, pid, attached)
        }
    }

    /// Whether the process under `id` may be stopped, and if so its process
    /// id: an unknown session and a process that was only attached to are
    /// refused.
    pub open spec fn stop_check(self, id: Seq<char>) -> Result<u32, ErrorV> {
        if !self.tracks(id) {
            Err(not_found(id))
        } else if self.record(id).attached {
            Err(not_owned())
        } else {
            Ok(self.record(id).pid)
        }
    }

    /// What stopping `id` answers, where `kill` is what the operating system
    /// said to the kill.
    pub open spec fn stop_result(self, id: Seq<char>, kill: Result<(), Seq<char>>) -> Result<
        (),
        ErrorV,
    > {
        match self.stop_check(id) {
            Err(e) => Err(e),
            Ok(_) => match kill {
                Ok(_) => Ok(()),
                Err(reason) => Err(kill_failed(reason)),
            },
        }
    }

    /// The registry after stopping `id`: the record leaves only where the
    /// stop succeeds.
    pub open spec fn after_stop(self, id: Seq<char>, kill: Result<(), Seq<char>>) -> ManagerV {
        if self.stop_result(id, kill) is Ok {
            self.remove(id)
        } else {
            self
        }
    }

    /// What reading the log of `id` hands out.
    pub open spec fn logs_result(self, id: Seq<char>, limit: Option<usize>) -> Result<
        Seq<Seq<char>>,
        ErrorV,
    > {
        if self.tracks(id) {
            Ok(last_lines(self.record(id).logs, limit))
        } else {
            Err(not_found(id))
        }
    }

    /// The registry after the log of `id` was read: the log is empty.
    pub open spec fn after_logs(self, id: Seq<char>) -> ManagerV {
        if self.tracks(id) {
            self.with_logs(id, Seq::empty())
        } else {
            self
        }
    }

    /// Whether lines are taken in for `id`: a process is tracked under it,
    /// and the server started that process itself.
    pub open spec fn takes_lines(self, id: Seq<char>) -> bool {
        self.tracks(id) && !self.record(id).attached
    }

    /// The registry after `line` of `stream` came in for `id`.  The line
    /// goes to the log of a process that the server started; for an unknown
    /// session and for a process that was only attached to it is dropped.
    pub open spec fn after_line(self, id: Seq<char>, stream: Stream, line: Seq<char>) -> ManagerV {
        if self.takes_lines(id) {
            self.with_logs(
                id,
                bounded_push(self.record(id).logs, tagged(stream, line), LOG_CAPACITY as nat),
            )
        } else {
            self
        }
    }

    /// The process id of the process under `id`.
    pub open spec fn pid_result(self, id: Seq<char>) -> Result<u32, ErrorV> {
        if self.tracks(id) {
            Ok(self.record(id).pid)
        } else {
            Err(not_found(id))
        }
    }

    /// The session ids of the tracked processes, in the order in which they
    /// came.
    pub open spec fn session_ids(self) -> Seq<Seq<char>> {
        Seq::new(self.records.len(), |i: int| self.records[i].id)
    }
}

/// Where `position` finds a record, it is one with the id asked for.
pub proof fn lemma_position(records: Seq<RecordV>, id: Seq<char>)
    ensures
        -1 <= position(records, id) < records.len(),
        position(records, id) >= 0 ==> records[position(records, id)].id == id,
        position(records, id) == -1 ==> forall|i: int|
            0 <= i < records.len() ==> (#[trigger] records[i]).id != id,
        forall|i: int|
            position(records, id) < i < records.len() ==> (#[trigger] records[i]).id != id,
    decreases records.len(),
{
    if records.len() > 0 && records.last().id != id {
        lemma_position(records.drop_last(), id);
        assert forall|i: int| position(records, id) < i < records.len() implies (
        #[trigger] records[i]).id != id by {
            if i < records.len() - 1 {
                assert(records.drop_last()[i] == records[i]);
            }
        }
        if position(records, id) == -1 {
            assert forall|i: int| 0 <= i < records.len() implies (#[trigger] records[i]).id
                != id by {
                if i < records.len() - 1 {
                    assert(records.drop_last()[i] == records[i]);
                }
            }
        }
    }
}

/// What the caller found when it tried to start the application.
#[derive(Debug, PartialEq)]
pub enum SpawnOutcome {
    /// Nothing stands at the path.
    PathMissing,
    /// The operating system refused to start it; the text says why.
    SpawnFailed(String),
    /// It started, but its process id could not be had.
    NoPid,
    /// It started, but its standard output could not be captured.
    NoStdout,
    /// It started, but its standard error could not be captured.
    NoStderr,
    /// It runs, with both streams captured.
    Spawned { pid: u32 },
}

/// The error that a launch ends in, where the application does not run.
pub open spec fn launch_failure(app_path: Seq<char>, outcome: SpawnOutcome) -> Option<ErrorV> {
    match outcome {
        SpawnOutcome::PathMissing => Some(process_error("App path does not exist: "@ + app_path)),
        SpawnOutcome::SpawnFailed(reason) => Some(
            process_error("Failed to launch app: "@ + reason@),
        ),
        SpawnOutcome::NoPid => Some(process_error("Failed to get process ID"@)),
        SpawnOutcome::NoStdout => Some(process_error("Failed to capture stdout"@)),
        SpawnOutcome::NoStderr => Some(process_error("Failed to capture stderr"@)),
        SpawnOutcome::Spawned { pid } => None,
    }
}

/// What the operating system reports of one process at one moment.
#[derive(Debug, PartialEq)]
pub struct ProcessSnapshot {
    /// The share of processor time in percent, as a JSON number.
    pub cpu_usage: String,
    pub memory: u64,
    pub virtual_memory: u64,
    pub read_bytes: u64,
    pub written_bytes: u64,
    pub status: String,
    pub start_time: u64,
    pub run_time: u64,
}

/// The report of the resources that a process uses.
pub open spec fn resources_json(s: ProcessSnapshot) -> JsonV {
    JsonV::Object(
        seq![
            MemberV { key: "cpu_usage"@, value: JsonV::Decimal(s.cpu_usage@) },
            MemberV { key: "memory_usage"@, value: JsonV::Int(s.memory as int) },
            MemberV { key: "virtual_memory"@, value: JsonV::Int(s.virtual_memory as int) },
            MemberV {
                key: "disk_usage"@,
                value: JsonV::Object(
                    seq![
                        MemberV { key: "read_bytes"@, value: JsonV::Int(s.read_bytes as int) },
                        MemberV {
                            key: "written_bytes"@,
                            value: JsonV::Int(s.written_bytes as int),
                        },
                    ],
                ),
            },
            MemberV { key: "status"@, value: JsonV::Str(s.status@) },
            MemberV { key: "start_time"@, value: JsonV::Int(s.start_time as int) },
            MemberV { key: "run_time"@, value: JsonV::Int(s.run_time as int) },
        ],
    )
}

/// What a resource query answers: the report, unless the session is unknown
/// or the operating system no longer shows the process.
pub open spec fn resources_result(m: ManagerV, id: Seq<char>, snapshot: Option<ProcessSnapshot>)
    -> Result<JsonV, ErrorV> {
    if !m.tracks(id) {
        Err(not_found(id))
    } else {
        match snapshot {
            Some(s) => Ok(resources_json(s)),
            None => Err(no_process_info()),
        }
    }
}

/// One process of the operating system's table.
#[derive(Debug, PartialEq)]
pub struct ProcessEntry {
    pub pid: u32,
    pub name: String,
    /// The command line, argument by argument.
    pub cmd: Vec<String>,
    pub memory: u64,
    /// The share of processor time in percent, as a JSON number.
    pub cpu_usage: String,
    pub status: String,
}

/// Whether one of `args` holds `needle`.
pub open spec fn any_contains(args: Seq<Seq<char>>, needle: Seq<char>) -> bool {
    exists|i: int| 0 <= i < args.len() && contains_text(#[trigger] args[i], needle)
}

/// Whether a process looks like an application of the kind that this server
/// drives: by its name, or by a word in its command line.
pub open spec fn looks_like_app(name: Seq<char>, cmd: Seq<Seq<char>>) -> bool {
    contains_text(name, "archestra"@) || any_contains(cmd, "tauri"@) || any_contains(
        cmd,
        "archestra"@,
    )
}

/// The description of a candidate process.
pub open spec fn candidate_json(e: ProcessEntry) -> JsonV {
    JsonV::Object(
        seq![
            MemberV { key: "pid"@, value: JsonV::Int(e.pid as int) },
            MemberV { key: "name"@, value: JsonV::Str(e.name@) },
            MemberV { key: "cmd"@, value: JsonV::Str(join_text(texts_of(e.cmd@), " "@)) },
            MemberV { key: "memory"@, value: JsonV::Int(e.memory as int) },
            MemberV { key: "cpu_usage"@, value: JsonV::Decimal(e.cpu_usage@) },
            MemberV { key: "status"@, value: JsonV::Str(e.status@) },
        ],
    )
}

/// The descriptions of those of `entries` that look like an application, in
/// the order of `entries`.
pub open spec fn candidates(entries: Seq<ProcessEntry>) -> Seq<JsonV>
    decreases entries.len(),
{
    if entries.len() == 0 {
        Seq::empty()
    } else {
        let before = candidates(entries.drop_last());
        if looks_like_app(entries.last().name@, texts_of(entries.last().cmd@)) {
            before.push(candidate_json(entries.last()))
        } else {
            before
        }
    }
}

struct ProcessInfo {
    id: String,
    pid: u32,
    is_attached: bool,
    logs: LogQueue,
}

impl ProcessInfo {
    spec fn record(self) -> RecordV {
        RecordV { id: self.id@, pid: self.pid, attached: self.is_attached, logs: self.logs@ }
    }
}

spec fn records_of(list: Seq<ProcessInfo>) -> Seq<RecordV> {
    Seq::new(list.len(), |i: int| list[i].record())
}

/// The registry of tracked processes.
pub struct ProcessManager {
    processes: Vec<ProcessInfo>,
    retired: Vec<String>,
}

impl View for ProcessManager {
    type V = ManagerV;

    closed spec fn view(&self) -> ManagerV {
        ManagerV { records: records_of(self.processes@), retired: texts_of(self.retired@) }
    }
}

/// The place of the record with the session id `id`.
fn find(list: &Vec<ProcessInfo>, id: &str) -> (r: Option<usize>)
    ensures
        match r {
            Some(i) => i < list@.len() && position(records_of(list@), id@) == i,
            None => position(records_of(list@), id@) == -1,
        },
{
    let ghost all = records_of(list@);
    let mut i: usize = list.len();
    proof {
        assert(all.take(i as int) =~= all);
    }
    while i > 0
        invariant
            i <= list.len(),
            all == records_of(list@),
            position(all, id@) == position(all.take(i as int), id@),
        decreases i,
    {
        i -= 1;
        proof {
            assert(all.take(i + 1).drop_last() =~= all.take(i as int));
            assert(all.take(i + 1).last() == all[i as int]);
        }
        if same_text(list[i].id.as_str(), id) {
            return Some(i);
        }
    }
    None
}

/// Whether `id` is among `retired`.
fn is_retired(retired: &Vec<String>, id: &str) -> (r: bool)
    ensures
        r == texts_of(retired@).contains(id@),
{
    let mut i: usize = 0;
    while i < retired.len()
        invariant
            i <= retired.len(),
            forall|j: int| 0 <= j < i ==> texts_of(retired@)[j] != id@,
        decreases retired.len() - i,
    {
        if same_text(retired[i].as_str(), id) {
            assert(texts_of(retired@)[i as int] == id@);
            return true;
        }
        i += 1;
    }
    false
}

/// Whether one of `args` holds `needle`.
fn any_arg_contains(args: &Vec<String>, needle: &str) -> (r: bool)
    ensures
        r == any_contains(texts_of(args@), needle@),
{
    let mut i: usize = 0;
    while i < args.len()
        invariant
            i <= args.len(),
            forall|j: int| 0 <= j < i ==> !contains_text(#[trigger] texts_of(args@)[j], needle@),
        decreases args.len() - i,
    {
        if contains(args[i].as_str(), needle) {
            assert(contains_text(texts_of(args@)[i as int], needle@));
            return true;
        }
        i += 1;
    }
    false
}

/// The report of the resources that a process uses.
pub fn resources_report(s: &ProcessSnapshot) -> (r: Json)
    ensures
        r@ == resources_json(*s),
{
    let disk = Json::object().with("read_bytes", Json::PosInt(s.read_bytes)).with(
        "written_bytes",
        Json::PosInt(s.written_bytes),
    );
    let r = Json::object().with("cpu_usage", Json::Decimal(s.cpu_usage.clone())).with(
        "memory_usage",
        Json::PosInt(s.memory),
    ).with("virtual_memory", Json::PosInt(s.virtual_memory)).with("disk_usage", disk).with(
        "status",
        Json::Str(s.status.clone()),
    ).with("start_time", Json::PosInt(s.start_time)).with("run_time", Json::PosInt(s.run_time));
    proof {
        let wanted = resources_json(*s)->Object_0;
        assert(disk@->Object_0 =~= wanted[3].value->Object_0);
        assert(disk@ == wanted[3].value);
        assert(r@->Object_0 =~= wanted);
    }
    r
}

/// The description of a candidate process.
pub fn candidate(e: &ProcessEntry) -> (r: Json)
    ensures
        r@ == candidate_json(*e),
{
    let cmd = join(&e.cmd, " ");
    proof {
        assert(e.cmd@.map_values(|p: String| p@) =~= texts_of(e.cmd@));
    }
    let r = Json::object().with("pid", Json::PosInt(e.pid as u64)).with(
        "name",
        Json::Str(e.name.clone()),
    ).with("cmd", Json::Str(cmd)).with("memory", Json::PosInt(e.memory)).with(
        "cpu_usage",
        Json::Decimal(e.cpu_usage.clone()),
    ).with("status", Json::Str(e.status.clone()));
    proof {
        assert(r@->Object_0 =~= candidate_json(*e)->Object_0);
    }
    r
}

/// Whether a process looks like an application of the kind that this server
/// drives.
pub fn is_candidate(name: &str, cmd: &Vec<String>) -> (r: bool)
    ensures
        r == looks_like_app(name@, texts_of(cmd@)),
{
    contains(name, "archestra") || any_arg_contains(cmd, "tauri") || any_arg_contains(
        cmd,
        "archestra",
    )
}

impl ProcessManager {
    #[verifier::type_invariant]
    spec fn valid(self) -> bool {
        self@.wf()
    }

    /// The registry that tracks nothing.
    pub fn new() -> (m: ProcessManager)
        ensures
            m@ == (ManagerV { records: Seq::empty(), retired: Seq::empty() }),
            m@.wf(),
    {
        let m = ProcessManager { processes: Vec::new(), retired: Vec::new() };
        proof {
            assert(m@.records =~= Seq::<RecordV>::empty());
            assert(m@.retired =~= Seq::<Seq<char>>::empty());
        }
        m
    }

    /// Takes a process in under the session id `id`, unless that id was
    /// given out before.
    pub fn register(&mut self, id: String, pid: u32, attached: bool) -> (r: Result<
        String,
        TauriMcpError,
    >)
        ensures
            old(self)@.wf(),
            final(self)@.wf(),
            final(self)@ == old(self)@.after_register(id@, pid, attached),
            match r {
                Ok(given) => old(self)@.register_result(id@) == Ok::<Seq<char>, ErrorV>(given@),
                Err(e) => old(self)@.register_result(id@) == Err::<Seq<char>, ErrorV>(e@),
            },
            r is Ok ==> final(self)@.tracks(id@) && final(self)@.session_ids().contains(id@),
    {
        proof {
            use_type_invariant(&*self);
            lemma_position(self@.records, id@);
            if !self@.issued(id@) {
                lemma_new_session_resolves(self@, id@, pid, attached, None, id@);
            }
        }
        let ghost before = self@;
        if find(&self.processes, id.as_str()).is_some() || is_retired(&self.retired, id.as_str()) {
            return Err(TauriMcpError::ProcessError(join2("Session id already in use: ", id.as_str())));
        }
        let given = id.clone();
        let info = ProcessInfo { id, pid, is_attached: attached, logs: LogQueue::new() };
        let mut list: Vec<ProcessInfo> = Vec::new();
        core::mem::swap(&mut self.processes, &mut list);
        proof {
            assert(records_of(Seq::<ProcessInfo>::empty()) =~= Seq::<RecordV>::empty());
        }
        list.push(info);
        proof {
            let after = before.register(id@, pid, attached);
            assert(records_of(list@) =~= after.records);
            assert forall|i: int, j: int| 0 <= i < j < after.records.len() implies after.records[i].id
                != after.records[j].id by {
                if j == after.records.len() - 1 {
                    assert(before.records[i].id != id@);
                }
            }
            assert(after.wf());
        }
        core::mem::swap(&mut self.processes, &mut list);
        Ok(given)
    }

    /// Takes in the application at `app_path` after the caller tried to start
    /// it.  Where it runs, it is tracked under a new session id, which is
    /// handed back.
    pub fn launch_app(&mut self, app_path: &str, outcome: SpawnOutcome) -> (r: Result<
        String,
        TauriMcpError,
    >)
        ensures
            old(self)@.wf(),
            final(self)@.wf(),
            match launch_failure(app_path@, outcome) {
                Some(e) => r is Err && r->Err_0@ == e && final(self)@ == old(self)@,
                None => match r {
                    Ok(id) => {
                        &&& is_uuid_text(id@)
                        &&& !old(self)@.issued(id@)
                        &&& final(self)@ == old(self)@.register(id@, outcome->pid, false)
                        &&& final(self)@.tracks(id@)
                        &&& final(self)@.session_ids().contains(id@)
                    },
                    Err(e) => final(self)@ == old(self)@ && exists|id: Seq<char>|
                        is_uuid_text(id) && old(self)@.issued(id) && e@ == id_in_use(id),
                },
            },
    {
        proof {
            use_type_invariant(&*self);
        }
        match outcome {
            SpawnOutcome::PathMissing => Err(
                TauriMcpError::ProcessError(join2("App path does not exist: ", app_path)),
            ),
            SpawnOutcome::SpawnFailed(reason) => Err(
                TauriMcpError::ProcessError(join2("Failed to launch app: ", reason.as_str())),
            ),
            SpawnOutcome::NoPid => Err(
                TauriMcpError::ProcessError("Failed to get process ID".to_owned()),
            ),
            SpawnOutcome::NoStdout => Err(
                TauriMcpError::ProcessError("Failed to capture stdout".to_owned()),
            ),
            SpawnOutcome::NoStderr => Err(
                TauriMcpError::ProcessError("Failed to capture stderr".to_owned()),
            ),
            SpawnOutcome::Spawned { pid } => {
                let id = fresh_session_id();
                let ghost offered = id@;
                let r = self.register(id, pid, false);
                proof {
                    if r is Err {
                        assert(is_uuid_text(offered) && old(self)@.issued(offered));
                    }
                }
                r
            },
        }
    }

    /// Starts tracking the process `pid`, which someone else started, where
    /// the operating system shows it (`visible`).  Its log stays empty.
    pub fn attach_to_app(&mut self, pid: u32, visible: bool) -> (r: Result<String, TauriMcpError>)
        ensures
            old(self)@.wf(),
            final(self)@.wf(),
            !visible ==> r is Err && r->Err_0@ == pid_not_found(pid) && final(self)@ == old(
                self,
            )@,
            visible ==> match r {
                Ok(id) => {
                    &&& is_uuid_text(id@)
                    &&& !old(self)@.issued(id@)
                    &&& final(self)@ == old(self)@.register(id@, pid, true)
                    &&& final(self)@.tracks(id@)
                    &&& final(self)@.session_ids().contains(id@)
                    &&& final(self)@.record(id@).logs == Seq::<Seq<char>>::empty()
                },
                Err(e) => final(self)@ == old(self)@ && exists|id: Seq<char>|
                    is_uuid_text(id) && old(self)@.issued(id) && e@ == id_in_use(id),
            },
    {
        proof {
            use_type_invariant(&*self);
        }
        if !visible {
            let number = decimal(pid as u64);
            return Err(
                TauriMcpError::ProcessError(
                    join3("Process with PID ", number.as_str(), " not found"),
                ),
            );
        }
        let id = fresh_session_id();
        let ghost offered = id@;
        let r = self.register(id, pid, true);
        proof {
            if r is Err {
                assert(is_uuid_text(offered) && old(self)@.issued(offered));
            } else {
                lemma_attached_session_has_no_log(old(self)@, offered, pid, None);
                lemma_attached_log_stays_empty(self@, offered, Stream::Stdout, offered, None);
            }
        }
        r
    }

    /// Whether the process under `process_id` may be stopped, and if so the
    /// process id to kill.
    pub fn stop_target(&self, process_id: &str) -> (r: Result<u32, TauriMcpError>)
        ensures
            match r {
                Ok(pid) => self@.stop_check(process_id@) == Ok::<u32, ErrorV>(pid),
                Err(e) => self@.stop_check(process_id@) == Err::<u32, ErrorV>(e@),
            },
    {
        match find(&self.processes, process_id) {
            None => Err(TauriMcpError::ProcessError(join2("Process not found: ", process_id))),
            Some(i) => {
                if self.processes[i].is_attached {
                    Err(
                        TauriMcpError::ProcessError(
                            "Cannot stop externally launched process".to_owned(),
                        ),
                    )
                } else {
                    Ok(self.processes[i].pid)
                }
            },
        }
    }

    /// Stops tracking the process under `process_id` after the caller killed
    /// it; `kill` is what the operating system said.  An unknown session and
    /// an attached process are refused whatever `kill` says, and the record
    /// stays unless the stop succeeds.
    pub fn stop_app(&mut self, process_id: &str, kill: Result<(), String>) -> (r: Result<
        (),
        TauriMcpError,
    >)
        ensures
            old(self)@.wf(),
            final(self)@.wf(),
            final(self)@ == old(self)@.after_stop(process_id@, kill_view(kill)),
            match r {
                Ok(_) => old(self)@.stop_result(process_id@, kill_view(kill)) is Ok,
                Err(e) => old(self)@.stop_result(process_id@, kill_view(kill)) == Err::<
                    (),
                    ErrorV,
                >(e@),
            },
    {
        proof {
            use_type_invariant(&*self);
            lemma_position(self@.records, process_id@);
        }
        let ghost before = self@;
        match self.stop_target(process_id) {
            Err(e) => {
                return Err(e);
            },
            Ok(_) => {},
        }
        match kill {
            Err(reason) => {
                return Err(
                    TauriMcpError::ProcessError(join2("Failed to kill process: ", reason.as_str())),
                );
            },
            Ok(_) => {},
        }
        let found = find(&self.processes, process_id);
        let at: usize = match found {
            Some(i) => i,
            None => {
                return Ok(());
            },
        };
        let mut list: Vec<ProcessInfo> = Vec::new();
        core::mem::swap(&mut self.processes, &mut list);
        proof {
            assert(records_of(Seq::<ProcessInfo>::empty()) =~= Seq::<RecordV>::empty());
        }
        let _ = list.remove(at);
        proof {
            assert(records_of(list@) =~= before.records.remove(at as int));
        }
        core::mem::swap(&mut self.processes, &mut list);
        let ghost mid = self@;
        let mut retired: Vec<String> = Vec::new();
        core::mem::swap(&mut self.retired, &mut retired);
        proof {
            assert(texts_of(Seq::<String>::empty()) =~= Seq::<Seq<char>>::empty());
        }
        retired.push(process_id.to_owned());
        proof {
            let after = before.remove(process_id@);
            assert(texts_of(retired@) =~= after.retired);
            assert forall|i: int| 0 <= i < after.records.len() implies !after.retired.contains(
                #[trigger] after.records[i].id,
            ) by {
                let k = if i < at { i } else { i + 1 };
                assert(after.records[i] == before.records[k]);
                assert(!before.retired.contains(before.records[k].id));
                assert(before.records[k].id != before.records[at as int].id);
            }
            assert(after.wf());
        }
        core::mem::swap(&mut self.retired, &mut retired);
        Ok(())
    }

    /// Hands out the lines that wait in the log of `process_id`, oldest
    /// first, and empties the log.  With a limit, only the most recent lines
    /// are handed out; the others are dropped.
    pub fn get_app_logs(&mut self, process_id: &str, lines: Option<usize>) -> (r: Result<
        Vec<String>,
        TauriMcpError,
    >)
        ensures
            old(self)@.wf(),
            final(self)@.wf(),
            final(self)@ == old(self)@.after_logs(process_id@),
            match r {
                Ok(given) => old(self)@.logs_result(process_id@, lines) == Ok::<
                    Seq<Seq<char>>,
                    ErrorV,
                >(texts_of(given@)),
                Err(e) => old(self)@.logs_result(process_id@, lines) == Err::<
                    Seq<Seq<char>>,
                    ErrorV,
                >(e@),
            },
    {
        proof {
            use_type_invariant(&*self);
            lemma_position(self@.records, process_id@);
        }
        let ghost before = self@;
        let at: usize = match find(&self.processes, process_id) {
            Some(i) => i,
            None => {
                return Err(
                    TauriMcpError::ProcessError(join2("Process not found: ", process_id)),
                );
            },
        };
        let mut list: Vec<ProcessInfo> = Vec::new();
        core::mem::swap(&mut self.processes, &mut list);
        proof {
            assert(records_of(Seq::<ProcessInfo>::empty()) =~= Seq::<RecordV>::empty());
        }
        let mut info = list.remove(at);
        let all = info.logs.drain();
        list.insert(at, info);
        proof {
            let after = before.with_logs(process_id@, Seq::empty());
            assert(records_of(list@) =~= after.records);
            assert(after.wf());
        }
        core::mem::swap(&mut self.processes, &mut list);
        Ok(keep_last(all, lines))
    }

    /// Takes in one line that the process under `process_id` wrote to
    /// `stream`.  A full log gives up its oldest line for it.  Says whether
    /// the line was taken in: a line for an unknown session is dropped, and
    /// so is a line for a process that was only attached to, whose log stays
    /// empty.
    pub fn push_log(&mut self, process_id: &str, stream: Stream, line: &str) -> (taken: bool)
        ensures
            old(self)@.wf(),
            final(self)@.wf(),
            taken == old(self)@.takes_lines(process_id@),
            final(self)@ == old(self)@.after_line(process_id@, stream, line@),
    {
        proof {
            use_type_invariant(&*self);
            lemma_position(self@.records, process_id@);
        }
        let ghost before = self@;
        let at: usize = match find(&self.processes, process_id) {
            Some(i) => i,
            None => {
                return false;
            },
        };
        if self.processes[at].is_attached {
            return false;
        }
        let mut list: Vec<ProcessInfo> = Vec::new();
        core::mem::swap(&mut self.processes, &mut list);
        proof {
            assert(records_of(Seq::<ProcessInfo>::empty()) =~= Seq::<RecordV>::empty());
        }
        let mut info = list.remove(at);
        info.logs.push(tag_line(stream, line));
        list.insert(at, info);
        proof {
            let after = before.after_line(process_id@, stream, line@);
            assert(records_of(list@) =~= after.records);
            assert(after.wf());
        }
        core::mem::swap(&mut self.processes, &mut list);
        true
    }

    /// The process id of the process under `process_id`.
    pub fn pid_of(&self, process_id: &str) -> (r: Result<u32, TauriMcpError>)
        ensures
            match r {
                Ok(pid) => self@.pid_result(process_id@) == Ok::<u32, ErrorV>(pid),
                Err(e) => self@.pid_result(process_id@) == Err::<u32, ErrorV>(e@),
            },
    {
        match find(&self.processes, process_id) {
            None => Err(TauriMcpError::ProcessError(join2("Process not found: ", process_id))),
            Some(i) => Ok(self.processes[i].pid),
        }
    }

    /// The report of the resources that the process under `process_id`
    /// uses, from the snapshot that the caller took of it (`None` where the
    /// operating system no longer shows the process).
    pub fn monitor_resources(&self, process_id: &str, snapshot: Option<ProcessSnapshot>) -> (r:
        Result<Json, TauriMcpError>)
        ensures
            match r {
                Ok(report) => resources_result(self@, process_id@, snapshot) == Ok::<
                    JsonV,
                    ErrorV,
                >(report@),
                Err(e) => resources_result(self@, process_id@, snapshot) == Err::<JsonV, ErrorV>(
                    e@,
                ),
            },
    {
        match find(&self.processes, process_id) {
            None => Err(TauriMcpError::ProcessError(join2("Process not found: ", process_id))),
            Some(_) => match snapshot {
                Some(s) => Ok(resources_report(&s)),
                None => Err(TauriMcpError::ProcessError("Failed to get process info".to_owned())),
            },
        }
    }

    /// The number of tracked processes.
    pub fn session_count(&self) -> (n: usize)
        ensures
            n == self@.records.len(),
            self@.wf(),
    {
        proof {
            use_type_invariant(self);
        }
        self.processes.len()
    }

    /// The session ids of the tracked processes, in the order in which they
    /// came.
    pub fn get_running_processes(&self) -> (ids: Vec<String>)
        ensures
            texts_of(ids@) == self@.session_ids(),
    {
        let mut ids: Vec<String> = Vec::new();
        let mut i: usize = 0;
        while i < self.processes.len()
            invariant
                i <= self.processes.len(),
                ids@.len() == i,
                forall|j: int| 0 <= j < i ==> ids@[j]@ == self.processes@[j].id@,
            decreases self.processes.len() - i,
        {
            ids.push(self.processes[i].id.clone());
            i += 1;
        }
        proof {
            assert(texts_of(ids@) =~= self@.session_ids());
        }
        ids
    }

    /// Those of the processes in `table` that look like an application of
    /// the kind that this server drives, each with its description.
    pub fn find_running_apps(&self, table: &Vec<ProcessEntry>) -> (r: Result<
        Vec<Json>,
        TauriMcpError,
    >)
        ensures
            r is Ok,
            views_of(r->Ok_0@) == candidates(table@),
    {
        let mut found: Vec<Json> = Vec::new();
        let mut i: usize = 0;
        proof {
            assert(views_of(found@) =~= candidates(table@.take(0)));
        }
        while i < table.len()
            invariant
                i <= table.len(),
                views_of(found@) == candidates(table@.take(i as int)),
            decreases table.len() - i,
        {
            proof {
                assert(table@.take(i + 1).drop_last() =~= table@.take(i as int));
                assert(table@.take(i + 1).last() == table@[i as int]);
            }
            let ghost before = views_of(found@);
            if is_candidate(table[i].name.as_str(), &table[i].cmd) {
                let c = candidate(&table[i]);
                found.push(c);
                proof {
                    assert(views_of(found@) =~= before.push(candidate_json(table@[i as int])));
                }
            }
            i += 1;
        }
        proof {
            assert(table@.take(i as int) =~= table@);
        }
        Ok(found)
    }
}

/// What the operating system said to a kill, with the reason as a text.
pub open spec fn kill_view(kill: Result<(), String>) -> Result<(), Seq<char>> {
    match kill {
        Ok(_) => Ok(()),
        Err(reason) => Err(reason@),
    }
}

/// The records of a registry keep their ids when the log of one changes.
proof fn lemma_position_with_logs(m: ManagerV, id: Seq<char>, logs: Seq<Seq<char>>, other: Seq<char>)
    requires
        m.tracks(id),
    ensures
        position(m.with_logs(id, logs).records, other) == position(m.records, other),
{
    lemma_position(m.records, id);
    lemma_same_ids(m.records, m.with_logs(id, logs).records, other);
}

/// Two sequences of records with the same ids, place by place, hold each id
/// at the same place.
proof fn lemma_same_ids(a: Seq<RecordV>, b: Seq<RecordV>, id: Seq<char>)
    requires
        a.len() == b.len(),
        forall|i: int| 0 <= i < a.len() ==> a[i].id == b[i].id,
    ensures
        position(a, id) == position(b, id),
    decreases a.len(),
{
    if a.len() > 0 {
        assert(a.last().id == b.last().id);
        lemma_same_ids(a.drop_last(), b.drop_last(), id);
    }
}

/// An id that was never given out is taken, and the session that was just
/// registered under it resolves at once: it is tracked and listed, its log
/// can be read and is empty, its process id is the one it was registered
/// with, and the sessions that were there before are as they were.
pub proof fn lemma_new_session_resolves(
    m: ManagerV,
    id: Seq<char>,
    pid: u32,
    attached: bool,
    limit: Option<usize>,
    other: Seq<char>,
)
    requires
        m.wf(),
        !m.issued(id),
    ensures
        m.register_result(id) == Ok::<Seq<char>, ErrorV>(id),
        m.after_register(id, pid, attached) == m.register(id, pid, attached),
        m.register(id, pid, attached).wf(),
        m.register(id, pid, attached).tracks(id),
        m.register(id, pid, attached).session_ids().contains(id),
        m.register(id, pid, attached).logs_result(id, limit) == Ok::<Seq<Seq<char>>, ErrorV>(
            Seq::empty(),
        ),
        m.register(id, pid, attached).pid_result(id) == Ok::<u32, ErrorV>(pid),
        m.tracks(other) ==> m.register(id, pid, attached).tracks(other) && m.register(
            id,
            pid,
            attached,
        ).record(other) == m.record(other),
{
    let after = m.register(id, pid, attached);
    lemma_position(m.records, id);
    lemma_position(m.records, other);
    assert(after.records.drop_last() =~= m.records);
    assert forall|i: int, j: int| 0 <= i < j < after.records.len() implies after.records[i].id
        != after.records[j].id by {
        if j == after.records.len() - 1 {
            assert(m.records[i].id != id);
        }
    }
    assert(last_lines(Seq::<Seq<char>>::empty(), limit) =~= Seq::<Seq<char>>::empty());
    assert(after.session_ids()[after.records.len() - 1] == id);
}

/// A session id is never given out twice: once its process was stopped the
/// id is unknown to every query, and offering it again is refused.
pub proof fn lemma_id_never_reused(m: ManagerV, id: Seq<char>, pid: u32, attached: bool)
    requires
        m.wf(),
        m.tracks(id),
    ensures
        m.remove(id).wf(),
        !m.remove(id).tracks(id),
        m.remove(id).issued(id),
        m.remove(id).register_result(id) == Err::<Seq<char>, ErrorV>(id_in_use(id)),
        m.remove(id).after_register(id, pid, attached) == m.remove(id),
        m.remove(id).logs_result(id, None) == Err::<Seq<Seq<char>>, ErrorV>(not_found(id)),
        m.remove(id).pid_result(id) == Err::<u32, ErrorV>(not_found(id)),
{
    let after = m.remove(id);
    let at = position(m.records, id);
    lemma_position(m.records, id);
    assert forall|i: int| 0 <= i < after.records.len() implies (#[trigger] after.records[i]).id
        != id && !after.retired.contains(after.records[i].id) by {
        let k = if i < at { i } else { i + 1 };
        assert(after.records[i] == m.records[k]);
        assert(!m.retired.contains(m.records[k].id));
    }
    assert forall|i: int, j: int| 0 <= i < j < after.records.len() implies after.records[i].id
        != after.records[j].id by {
        let ki = if i < at { i } else { i + 1 };
        let kj = if j < at { j } else { j + 1 };
        assert(after.records[i] == m.records[ki]);
        assert(after.records[j] == m.records[kj]);
    }
    lemma_position(after.records, id);
    assert(after.retired.last() == id);
}

/// Stopping a session that was only attached to fails as not owned, whatever
/// the kill said, and leaves the registry as it was; so it fails in the same
/// way however often it is tried.
pub proof fn lemma_stop_attached(m: ManagerV, id: Seq<char>, kill: Result<(), Seq<char>>)
    requires
        m.tracks(id),
        m.record(id).attached,
    ensures
        m.stop_result(id, kill) == Err::<(), ErrorV>(not_owned()),
        m.after_stop(id, kill) == m,
        m.after_stop(id, kill).stop_result(id, kill) == Err::<(), ErrorV>(not_owned()),
{
}

/// Reading a log empties it: the first read hands out every line that
/// waits, and a second read with no line in between hands out none.
pub proof fn lemma_second_read_is_empty(m: ManagerV, id: Seq<char>, limit: Option<usize>)
    requires
        m.tracks(id),
    ensures
        m.logs_result(id, None) == Ok::<Seq<Seq<char>>, ErrorV>(m.record(id).logs),
        m.after_logs(id).tracks(id),
        m.after_logs(id).logs_result(id, limit) == Ok::<Seq<Seq<char>>, ErrorV>(Seq::empty()),
{
    lemma_position(m.records, id);
    lemma_position_with_logs(m, id, Seq::empty(), id);
    assert(last_lines(Seq::<Seq<char>>::empty(), limit) =~= Seq::<Seq<char>>::empty());
}

/// A line that comes in for a process that the server started is the
/// newest of its log, and the log never holds more lines than its capacity.
pub proof fn lemma_line_is_logged(m: ManagerV, id: Seq<char>, stream: Stream, line: Seq<char>)
    requires
        m.tracks(id),
        !m.record(id).attached,
        m.record(id).logs.len() <= LOG_CAPACITY,
    ensures
        m.after_line(id, stream, line).tracks(id),
        m.after_line(id, stream, line).record(id).logs.last() == tagged(stream, line),
        m.after_line(id, stream, line).record(id).logs.len() <= LOG_CAPACITY,
        m.after_line(id, stream, line).record(id).pid == m.record(id).pid,
{
    lemma_position(m.records, id);
    lemma_position_with_logs(
        m,
        id,
        bounded_push(m.record(id).logs, tagged(stream, line), LOG_CAPACITY as nat),
        id,
    );
}

/// A record that stands in a sequence of records is found by its id.
proof fn lemma_present_is_found(records: Seq<RecordV>, at: int)
    requires
        0 <= at < records.len(),
    ensures
        position(records, records[at].id) >= 0,
    decreases records.len(),
{
    if records.last().id != records[at].id {
        assert(at < records.len() - 1);
        assert(records.drop_last()[at] == records[at]);
        lemma_present_is_found(records.drop_last(), at);
    }
}

/// What was given out stays given out: no operation of the registry makes
/// a session id new again, so no id is ever handed out twice.
pub proof fn lemma_issued_for_good(
    m: ManagerV,
    id: Seq<char>,
    other: Seq<char>,
    pid: u32,
    attached: bool,
    kill: Result<(), Seq<char>>,
    stream: Stream,
    line: Seq<char>,
)
    requires
        m.wf(),
        m.issued(id),
    ensures
        m.after_register(other, pid, attached).issued(id),
        m.after_stop(other, kill).issued(id),
        m.after_logs(other).issued(id),
        m.after_line(other, stream, line).issued(id),
{
    lemma_position(m.records, id);
    lemma_position(m.records, other);
    if !m.issued(other) {
        let after = m.register(other, pid, attached);
        assert(after.records.drop_last() =~= m.records);
    }
    if m.stop_result(other, kill) is Ok {
        let after = m.remove(other);
        let gone = position(m.records, other);
        if m.tracks(id) {
            let at = position(m.records, id);
            if at == gone {
                assert(after.retired.last() == id);
            } else {
                let k = if at < gone { at } else { at - 1 };
                assert(after.records[k] == m.records[at]);
                lemma_present_is_found(after.records, k);
            }
        } else {
            let i = choose|i: int| 0 <= i < m.retired.len() && m.retired[i] == id;
            assert(after.retired[i] == id);
        }
    }
    if m.tracks(other) {
        lemma_position_with_logs(m, other, Seq::empty(), id);
        lemma_position_with_logs(
            m,
            other,
            bounded_push(m.record(other).logs, tagged(stream, line), LOG_CAPACITY as nat),
            id,
        );
    }
}

/// Every operation leaves the registry valid: the session ids stay
/// distinct, and none of them is retired.
pub proof fn lemma_registry_stays_valid(
    m: ManagerV,
    id: Seq<char>,
    pid: u32,
    attached: bool,
    kill: Result<(), Seq<char>>,
    stream: Stream,
    line: Seq<char>,
)
    requires
        m.wf(),
    ensures
        m.after_register(id, pid, attached).wf(),
        m.after_stop(id, kill).wf(),
        m.after_logs(id).wf(),
        m.after_line(id, stream, line).wf(),
{
    lemma_position(m.records, id);
    if !m.issued(id) {
        lemma_new_session_resolves(m, id, pid, attached, None, id);
    }
    if m.tracks(id) {
        lemma_id_never_reused(m, id, pid, attached);
    }
}

/// The log of a process that was only attached to stays empty for good: a
/// line that comes in for it is dropped and changes nothing, and every read
/// of its log, whatever the limit and however often, hands out no line and
/// leaves the registry as it was.
pub proof fn lemma_attached_log_stays_empty(
    m: ManagerV,
    id: Seq<char>,
    stream: Stream,
    line: Seq<char>,
    limit: Option<usize>,
)
    requires
        m.wf(),
        m.tracks(id),
        m.record(id).attached,
    ensures
        m.record(id).logs == Seq::<Seq<char>>::empty(),
        !m.takes_lines(id),
        m.after_line(id, stream, line) == m,
        m.logs_result(id, limit) == Ok::<Seq<Seq<char>>, ErrorV>(Seq::empty()),
        m.after_logs(id) == m,
        m.after_line(id, stream, line).logs_result(id, limit) == Ok::<Seq<Seq<char>>, ErrorV>(
            Seq::empty(),
        ),
{
    lemma_position(m.records, id);
    let at = position(m.records, id);
    assert(m.records[at].attached);
    assert(last_lines(Seq::<Seq<char>>::empty(), limit) =~= Seq::<Seq<char>>::empty());
    assert(m.after_logs(id).records =~= m.records);
}

/// A process that was attached to is tracked with an empty log, whatever
/// registry it was attached in.
pub proof fn lemma_attached_session_has_no_log(
    m: ManagerV,
    id: Seq<char>,
    pid: u32,
    limit: Option<usize>,
)
    requires
        m.wf(),
        !m.issued(id),
    ensures
        m.register(id, pid, true).wf(),
        m.register(id, pid, true).tracks(id),
        m.register(id, pid, true).record(id).attached,
        m.register(id, pid, true).logs_result(id, limit) == Ok::<Seq<Seq<char>>, ErrorV>(
            Seq::empty(),
        ),
{
    lemma_new_session_resolves(m, id, pid, true, limit, id);
    let after = m.register(id, pid, true);
    lemma_position(after.records, id);
    assert(after.records.drop_last() =~= m.records);
}

} // verus!
