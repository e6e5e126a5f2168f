//! The server: the state behind the tools, and what each tool does to it.
//!
//! A tool that only reads or changes the state of the server is answered at
//! once.  A tool that needs the operating system says what it needs; the
//! caller does it and hands back what happened, and the server turns that
//! into the answer.

use crate::dispatch::{
    resolve, resolve_spec, texts_of, ResolveError, ResolveErrorV, ToolCall, ToolCallV,
};
use crate::json::{lemma_array_view, parse_spec, views_of, Json, JsonV, MemberV};
use crate::text::{is_uuid_text, join2, lemma_nil_uuid, nil_uuid};
use crate::tools::input::{click_spec, keyboard_spec, InputAction, InputSimulator};
use crate::tools::ipc::{distinct_processes, handlers_of, ipc_answer, HandlersV, IpcManager};
use crate::tools::logs::Stream;
use crate::tools::process::{
    candidates, id_in_use, kill_view, launch_failure, pid_not_found, resources_result, ManagerV,
    ProcessEntry, ProcessManager, ProcessSnapshot, SpawnOutcome,
};
use crate::tools::window::{
    is_placeholder, screenshot_spec, window_json, Capture, Platform, WindowInfo, WindowManager,
};
use crate::{other_error, ErrorV, TauriMcpError};
use vstd::prelude::*;

verus! {

/// The features of the server that can be switched on and off.
#[derive(Debug, PartialEq, Eq, Clone, Copy, Structural)]
pub struct ServerConfig {
    pub auto_discover: bool,
    pub session_management: bool,
    pub event_streaming: bool,
    pub performance_profiling: bool,
    pub network_interception: bool,
}

/// The configuration of a server that was given none: applications are
/// discovered and sessions are managed, and nothing else is switched on.
pub open spec fn default_config() -> ServerConfig {
    ServerConfig {
        auto_discover: true,
        session_management: true,
        event_streaming: false,
        performance_profiling: false,
        network_interception: false,
    }
}

impl Default for ServerConfig {
    fn default() -> (config: ServerConfig)
        ensures
            config == default_config(),
    {
        ServerConfig {
            auto_discover: true,
            session_management: true,
            event_streaming: false,
            performance_profiling: false,
            network_interception: false,
        }
    }
}

/// What a tool needs from outside the server.
#[derive(Debug, PartialEq)]
pub enum Effect {
    /// Start the application at `app_path` with `args`, its output captured.
    Spawn { app_path: String, args: Vec<String> },
    /// Kill the process `pid`, which is tracked as `process_id`.
    Kill { process_id: String, pid: u32 },
    /// See whether the operating system shows the process `pid`.
    Probe { pid: u32 },
    /// Take a fresh snapshot of the process `pid`.
    Snapshot { process_id: String, pid: u32 },
    /// Read the operating system's table of processes afresh.
    ScanProcesses,
    /// Take a screenshot, and save it where a path is given.
    Screenshot { process_id: String, output_path: Option<String> },
    /// Perform the actions in order.
    Input { process_id: String, actions: Vec<InputAction> },
    /// Run the code in the webview of the application.
    ExecuteJs { process_id: String, javascript_code: String },
    /// Ask for the DevTools connection of the application.
    DevtoolsInfo { process_id: String },
}

/// The mathematical value of an [`Effect`].
pub enum EffectV {
    Spawn { app_path: Seq<char>, args: Seq<Seq<char>> },
    Kill { process_id: Seq<char>, pid: u32 },
    Probe { pid: u32 },
    Snapshot { process_id: Seq<char>, pid: u32 },
    ScanProcesses,
    Screenshot { process_id: Seq<char>, output_path: Option<Seq<char>> },
    Input { process_id: Seq<char>, actions: Seq<InputAction> },
    ExecuteJs { process_id: Seq<char>, javascript_code: Seq<char> },
    DevtoolsInfo { process_id: Seq<char> },
}

impl View for Effect {
    type V = EffectV;

    open spec fn view(&self) -> EffectV {
        match self {
            Effect::Spawn { app_path, args } => EffectV::Spawn {
                app_path: app_path@,
                args: texts_of(args@),
            },
            Effect::Kill { process_id, pid } => EffectV::Kill { process_id: process_id@, pid: *pid },
            Effect::Probe { pid } => EffectV::Probe { pid: *pid },
            Effect::Snapshot { process_id, pid } => EffectV::Snapshot {
                process_id: process_id@,
                pid: *pid,
            },
            Effect::ScanProcesses => EffectV::ScanProcesses,
            Effect::Screenshot { process_id, output_path } => EffectV::Screenshot {
                process_id: process_id@,
                output_path: match output_path {
                    Some(p) => Some(p@),
                    None => None,
                },
            },
            Effect::Input { process_id, actions } => EffectV::Input {
                process_id: process_id@,
                actions: actions@,
            },
            Effect::ExecuteJs { process_id, javascript_code } => EffectV::ExecuteJs {
                process_id: process_id@,
                javascript_code: javascript_code@,
            },
            Effect::DevtoolsInfo { process_id } => EffectV::DevtoolsInfo { process_id: process_id@ },
        }
    }
}

/// What happened when the caller did what a tool needed.
#[derive(Debug, PartialEq)]
pub enum Outcome {
    /// What came of starting the application.
    Spawned(SpawnOutcome),
    /// What the operating system said to the kill.
    Killed(Result<(), String>),
    /// Whether the operating system shows the process.
    Probed(bool),
    /// The snapshot of the process, unless it is gone.
    Snapshot(Option<ProcessSnapshot>),
    /// The table of processes.
    Scanned(Vec<ProcessEntry>),
    /// What came of the screenshot.
    Captured(Capture),
    /// Whether the input was performed.
    Performed(Result<(), TauriMcpError>),
    /// The answer of the application's webview or DevTools.
    Answered(Result<Json, TauriMcpError>),
}

/// How far a tool has come.
#[derive(Debug, PartialEq)]
pub enum Step {
    /// The tool is through, with this result.
    Done(Result<Json, TauriMcpError>),
    /// The tool needs this done.
    Need(Effect),
}

/// The mathematical value of a [`Step`].
pub enum StepV {
    Done(Result<JsonV, ErrorV>),
    Need(EffectV),
}

/// The value of a result: that of the document, or that of the error.
pub open spec fn result_view(r: Result<Json, TauriMcpError>) -> Result<JsonV, ErrorV> {
    match r {
        Ok(j) => Ok(j@),
        Err(e) => Err(e@),
    }
}

impl View for Step {
    type V = StepV;

    open spec fn view(&self) -> StepV {
        match self {
            Step::Done(r) => StepV::Done(result_view(*r)),
            Step::Need(effect) => StepV::Need(effect@),
        }
    }
}

/// How far the single-shot execution of a tool has come.
#[derive(Debug, PartialEq)]
pub enum Execution {
    /// The tool is through, with this result.
    Done(Result<Json, TauriMcpError>),
    /// The tool `call` needs `effect` done.
    Need { call: ToolCall, effect: Effect },
}

/// The mathematical value of an [`Execution`].
pub enum ExecutionV {
    Done(Result<JsonV, ErrorV>),
    Need { call: ToolCallV, effect: EffectV },
}

impl View for Execution {
    type V = ExecutionV;

    open spec fn view(&self) -> ExecutionV {
        match self {
            Execution::Done(r) => ExecutionV::Done(result_view(*r)),
            Execution::Need { call, effect } => ExecutionV::Need { call: call@, effect: effect@ },
        }
    }
}

/// The mathematical value of the server's state.
pub struct ServerV {
    pub manager: ManagerV,
    pub handlers: Seq<HandlersV>,
    pub platform: Platform,
    pub config: ServerConfig,
}

impl ServerV {
    /// The registry is valid, and no two entries of handlers are for the
    /// same process.
    pub open spec fn wf(self) -> bool {
        self.manager.wf() && distinct_processes(self.handlers)
    }
}

/// The object with the one member `key`.
pub open spec fn object1(key: Seq<char>, value: JsonV) -> JsonV {
    JsonV::Object(seq![MemberV { key, value }])
}

/// The object that reports a status.
pub open spec fn status_json(status: Seq<char>) -> JsonV {
    object1("status"@, JsonV::Str(status))
}

/// The object that reports a session and how it came to be.
pub open spec fn session_json(id: Seq<char>, status: Seq<char>) -> JsonV {
    JsonV::Object(
        seq![
            MemberV { key: "process_id"@, value: JsonV::Str(id) },
            MemberV { key: "status"@, value: JsonV::Str(status) },
        ],
    )
}

/// The array of the strings `items`.
pub open spec fn text_array(items: Seq<Seq<char>>) -> JsonV {
    JsonV::Array(Seq::new(items.len(), |i: int| JsonV::Str(items[i])))
}

/// The number of lines that a client asks for, as far as the machine can
/// count.
pub open spec fn limit_of(lines: Option<u64>) -> Option<usize> {
    match lines {
        Some(n) => Some(
            if n <= usize::MAX {
                n as usize
            } else {
                usize::MAX
            },
        ),
        None => None,
    }
}

/// The error for an outcome that is not that of what the tool needed.
pub open spec fn mismatch() -> ErrorV {
    other_error("Outcome does not belong to the tool"@)
}

/// The result with which a tool is through.
pub open spec fn done(server: ServerV, result: Result<JsonV, ErrorV>) -> (ServerV, StepV) {
    (server, StepV::Done(result))
}

/// The result of a tool that answers with `ok` unless `r` is an error.
pub open spec fn answer_with<T>(r: Result<T, ErrorV>, ok: spec_fn(T) -> JsonV) -> Result<
    JsonV,
    ErrorV,
> {
    match r {
        Ok(v) => Ok(ok(v)),
        Err(e) => Err(e),
    }
}

/// What a tool does first: the state after it, and whether the tool is
/// through or what it needs.  `now` is the moment and `fresh` a new id, for
/// the IPC commands that report one.
pub open spec fn begin_spec(pre: ServerV, call: ToolCallV, now: Seq<char>, fresh: Seq<char>) -> (
    ServerV,
    StepV,
) {
    match call {
        ToolCallV::LaunchApp { app_path, args } => (
            pre,
            StepV::Need(EffectV::Spawn { app_path, args }),
        ),
        ToolCallV::StopApp { process_id } => match pre.manager.stop_check(process_id) {
            Ok(pid) => (pre, StepV::Need(EffectV::Kill { process_id, pid })),
            Err(e) => done(pre, Err(e)),
        },
        ToolCallV::GetAppLogs { process_id, lines } => done(
            ServerV { manager: pre.manager.after_logs(process_id), ..pre },
            answer_with(
                pre.manager.logs_result(process_id, limit_of(lines)),
                |logs: Seq<Seq<char>>| object1("logs"@, text_array(logs)),
            ),
        ),
        ToolCallV::TakeScreenshot { process_id, output_path } => (
            pre,
            StepV::Need(EffectV::Screenshot { process_id, output_path }),
        ),
        ToolCallV::GetWindowInfo { process_id } => done(
            pre,
            Ok(
                window_json(
                    choose|info: WindowInfo| is_placeholder(info),
                    pre.platform,
                ),
            ),
        ),
        ToolCallV::SendKeyboardInput { process_id, keys } => match keyboard_spec(keys) {
            Ok(actions) => (pre, StepV::Need(EffectV::Input { process_id, actions })),
            Err(e) => done(pre, Err(e)),
        },
        ToolCallV::SendMouseClick { process_id, x, y, button } => match click_spec(x, y, button) {
            Ok(actions) => (pre, StepV::Need(EffectV::Input { process_id, actions })),
            Err(e) => done(pre, Err(e)),
        },
        ToolCallV::ExecuteJs { process_id, javascript_code } => (
            pre,
            StepV::Need(EffectV::ExecuteJs { process_id, javascript_code }),
        ),
        ToolCallV::GetDevtoolsInfo { process_id } => (
            pre,
            StepV::Need(EffectV::DevtoolsInfo { process_id }),
        ),
        ToolCallV::MonitorResources { process_id } => match pre.manager.pid_result(process_id) {
            Ok(pid) => (pre, StepV::Need(EffectV::Snapshot { process_id, pid })),
            Err(e) => done(pre, Err(e)),
        },
        ToolCallV::ListIpcHandlers { process_id } => done(
            pre,
            Ok(object1("handlers"@, text_array(handlers_of(pre.handlers, process_id)))),
        ),
        ToolCallV::CallIpcCommand { process_id, command_name, payload } => done(
            pre,
            ipc_answer(command_name, payload, now, fresh),
        ),
        ToolCallV::FindRunningApps => (pre, StepV::Need(EffectV::ScanProcesses)),
        ToolCallV::AttachToApp { pid } => (pre, StepV::Need(EffectV::Probe { pid })),
    }
}

/// The state and the answer after a new session was offered the id `fresh`,
/// which is refused where it was given out before.
pub open spec fn session_added(
    pre: ServerV,
    fresh: Seq<char>,
    pid: u32,
    attached: bool,
    status: Seq<char>,
) -> (ServerV, Result<JsonV, ErrorV>) {
    if pre.manager.issued(fresh) {
        (pre, Err(id_in_use(fresh)))
    } else {
        (
            ServerV { manager: pre.manager.register(fresh, pid, attached), ..pre },
            Ok(session_json(fresh, status)),
        )
    }
}

/// What a tool answers once the caller did what it needed: the state
/// after, and the result.  `fresh` is a new id, for the tools that open a
/// session.  An outcome that is not that of what the tool needed is refused
/// and changes nothing.
pub open spec fn finish_spec(pre: ServerV, call: ToolCallV, outcome: Outcome, fresh: Seq<char>) -> (
    ServerV,
    Result<JsonV, ErrorV>,
) {
    match (call, outcome) {
        (ToolCallV::LaunchApp { app_path, args }, Outcome::Spawned(spawned)) => match launch_failure(
            app_path,
            spawned,
        ) {
            Some(e) => (pre, Err(e)),
            None => session_added(pre, fresh, spawned->pid, false, "launched"@),
        },
        (ToolCallV::StopApp { process_id }, Outcome::Killed(kill)) => (
            ServerV { manager: pre.manager.after_stop(process_id, kill_view(kill)), ..pre },
            match pre.manager.stop_result(process_id, kill_view(kill)) {
                Ok(_) => Ok(status_json("stopped"@)),
                Err(e) => Err(e),
            },
        ),
        (ToolCallV::TakeScreenshot { process_id, output_path }, Outcome::Captured(capture)) => (
            pre,
            answer_with(
                screenshot_spec(capture),
                |text: Seq<char>| object1("screenshot"@, JsonV::Str(text)),
            ),
        ),
        (ToolCallV::SendKeyboardInput { process_id, keys }, Outcome::Performed(r)) => (
            pre,
            match r {
                Ok(_) => Ok(status_json("sent"@)),
                Err(e) => Err(e@),
            },
        ),
        (ToolCallV::SendMouseClick { process_id, x, y, button }, Outcome::Performed(r)) => (
            pre,
            match r {
                Ok(_) => Ok(status_json("clicked"@)),
                Err(e) => Err(e@),
            },
        ),
        (ToolCallV::ExecuteJs { process_id, javascript_code }, Outcome::Answered(r)) => (
            pre,
            match r {
                Ok(j) => Ok(object1("result"@, j@)),
                Err(e) => Err(e@),
            },
        ),
        (ToolCallV::GetDevtoolsInfo { process_id }, Outcome::Answered(r)) => (pre, result_view(r)),
        (ToolCallV::MonitorResources { process_id }, Outcome::Snapshot(snapshot)) => (
            pre,
            resources_result(pre.manager, process_id, snapshot),
        ),
        (ToolCallV::FindRunningApps, Outcome::Scanned(table)) => (
            pre,
            Ok(object1("apps"@, JsonV::Array(candidates(table@)))),
        ),
        (ToolCallV::AttachToApp { pid }, Outcome::Probed(visible)) => if visible {
            session_added(pre, fresh, pid, true, "attached"@)
        } else {
            (pre, Err(pid_not_found(pid)))
        },
        _ => (pre, Err(mismatch())),
    }
}

/// The error of the single-shot entry for a call that was not resolved.
pub open spec fn unresolved(tool_name: Seq<char>, e: ResolveErrorV) -> ErrorV {
    match e {
        ResolveErrorV::Missing(what) => other_error("Missing "@ + what),
        ResolveErrorV::UnknownTool => other_error("Unknown tool: "@ + tool_name),
    }
}

/// A result as the single-shot entry hands it out: an error is replaced by
/// one of kind `Other` that holds its message.
pub open spec fn as_other(r: Result<JsonV, ErrorV>) -> Result<JsonV, ErrorV> {
    match r {
        Ok(j) => Ok(j),
        Err(e) => Err(other_error(e.message())),
    }
}

/// What the single-shot entry makes of a tool's name and the text of its
/// arguments: the text is read, the tool is resolved and started.  Every
/// error is handed out as one of kind `Other`.
pub open spec fn execute_spec(
    pre: ServerV,
    tool_name: Seq<char>,
    args_text: Seq<char>,
    now: Seq<char>,
    fresh: Seq<char>,
) -> (ServerV, ExecutionV) {
    match parse_spec(args_text) {
        Err(message) => (
            pre,
            ExecutionV::Done(Err(other_error("Invalid JSON arguments: "@ + message))),
        ),
        Ok(args) => match resolve_spec(tool_name, args) {
            Err(reason) => (pre, ExecutionV::Done(Err(unresolved(tool_name, reason)))),
            Ok(wanted) => {
                let (after, step) = begin_spec(pre, wanted, now, fresh);
                (
                    after,
                    match step {
                        StepV::Done(result) => ExecutionV::Done(as_other(result)),
                        StepV::Need(effect) => ExecutionV::Need { call: wanted, effect },
                    },
                )
            },
        },
    }
}

/// What the single-shot entry answers once the caller did what the tool
/// needed.
pub open spec fn finish_execution_spec(
    pre: ServerV,
    call: ToolCallV,
    outcome: Outcome,
    fresh: Seq<char>,
) -> (ServerV, Result<JsonV, ErrorV>) {
    let (after, result) = finish_spec(pre, call, outcome, fresh);
    (after, as_other(result))
}

/// The array of the strings `items`.
fn texts_json(items: &Vec<String>) -> (r: Json)
    ensures
        r@ == text_array(texts_of(items@)),
{
    let mut out: Vec<Json> = Vec::new();
    let mut i: usize = 0;
    while i < items.len()
        invariant
            i <= items.len(),
            out@.len() == i,
            forall|j: int| 0 <= j < i ==> out@[j]@ == JsonV::Str(items@[j]@),
        decreases items.len() - i,
    {
        out.push(Json::Str(items[i].clone()));
        i += 1;
    }
    proof {
        lemma_array_view(out);
        assert(views_of(out@) =~= Seq::new(
            texts_of(items@).len(),
            |i: int| JsonV::Str(texts_of(items@)[i]),
        ));
    }
    Json::Array(out)
}

/// The object with the one member `key`.
fn single(key: &str, value: Json) -> (r: Json)
    ensures
        r@ == object1(key@, value@),
{
    let r = Json::object().with(key, value);
    proof {
        assert(r@->Object_0 =~= object1(key@, value@)->Object_0);
    }
    r
}

/// The object that reports a session and how it came to be.
fn session_report(id: &str, status: &str) -> (r: Json)
    ensures
        r@ == session_json(id@, status@),
{
    let r = Json::object().with("process_id", Json::string(id)).with(
        "status",
        Json::string(status),
    );
    proof {
        assert(r@->Object_0 =~= session_json(id@, status@)->Object_0);
    }
    r
}

/// The session that an answer reports as launched or attached.
pub fn reported_session(answer: &Json) -> (r: Option<String>)
    ensures
        match r {
            Some(id) => answer@.str_field("process_id"@) == Some(id@),
            None => answer@.str_field("process_id"@) is None,
        },
{
    match answer.get("process_id") {
        Some(id) => match id.as_str() {
            Some(text) => Some(text.to_owned()),
            None => None,
        },
        None => None,
    }
}

/// The number of lines that a client asks for.
fn line_limit(lines: Option<u64>) -> (r: Option<usize>)
    ensures
        r == limit_of(lines),
{
    match lines {
        Some(n) => {
            if n <= usize::MAX as u64 {
                Some(n as usize)
            } else {
                Some(usize::MAX)
            }
        },
        None => None,
    }
}

fn copy_texts(items: &Vec<String>) -> (r: Vec<String>)
    ensures
        texts_of(r@) == texts_of(items@),
{
    let mut out: Vec<String> = Vec::new();
    let mut i: usize = 0;
    while i < items.len()
        invariant
            i <= items.len(),
            out@.len() == i,
            forall|j: int| 0 <= j < i ==> out@[j]@ == items@[j]@,
        decreases items.len() - i,
    {
        out.push(items[i].clone());
        i += 1;
    }
    proof {
        assert(texts_of(out@) =~= texts_of(items@));
    }
    out
}

/// The server.
pub struct TauriMcpServer {
    process_manager: ProcessManager,
    window_manager: WindowManager,
    input_simulator: InputSimulator,
    ipc_manager: IpcManager,
    config: ServerConfig,
}

impl View for TauriMcpServer {
    type V = ServerV;

    closed spec fn view(&self) -> ServerV {
        ServerV {
            manager: self.process_manager@,
            handlers: self.ipc_manager@,
            platform: self.window_manager.platform(),
            config: self.config,
        }
    }
}

impl TauriMcpServer {
    /// The server with the configuration `config` on `platform`.  It tracks
    /// no process and knows no handler.
    pub fn new(config: ServerConfig, platform: Platform) -> (server: TauriMcpServer)
        ensures
            server@.manager == (ManagerV { records: Seq::empty(), retired: Seq::empty() }),
            server@.handlers == Seq::<HandlersV>::empty(),
            server@.platform == platform,
            server@.config == config,
            server@.wf(),
    {
        TauriMcpServer {
            process_manager: ProcessManager::new(),
            window_manager: WindowManager::new(platform),
            input_simulator: InputSimulator::new(),
            ipc_manager: IpcManager::new(),
            config,
        }
    }

    /// The configuration of the server.
    pub fn config(&self) -> (config: ServerConfig)
        ensures
            config == self@.config,
    {
        self.config
    }

    /// The session ids of the tracked processes.
    pub fn sessions(&self) -> (ids: Vec<String>)
        ensures
            texts_of(ids@) == self@.manager.session_ids(),
    {
        self.process_manager.get_running_processes()
    }

    /// Takes in one line that the process under `process_id` wrote to
    /// `stream`, and says whether it was taken in.  A line for an unknown
    /// session is dropped, and so is a line for a process that was only
    /// attached to.
    pub fn push_log(&mut self, process_id: &str, stream: Stream, line: &str) -> (taken: bool)
        ensures
            taken == old(self)@.manager.takes_lines(process_id@),
            final(self)@ == (ServerV {
                manager: old(self)@.manager.after_line(process_id@, stream, line@),
                ..old(self)@
            }),
            old(self)@.wf(),
            final(self)@.wf(),
    {
        let _ = self.ipc_manager.process_count();
        self.process_manager.push_log(process_id, stream, line)
    }

    /// Starts the tool `call`: answers it where the server can, and else
    /// says what the tool needs.
    pub fn begin(&mut self, call: &ToolCall) -> (step: Step)
        ensures
            exists|now: Seq<char>, fresh: Seq<char>|
                (final(self)@, step@) == #[trigger] begin_spec(old(self)@, call@, now, fresh),
            old(self)@.wf(),
            final(self)@.wf(),
    {
        let _ = self.process_manager.session_count();
        let _ = self.ipc_manager.process_count();
        let ghost pre = self@;
        let ghost any = Seq::<char>::empty();
        match call {
            ToolCall::LaunchApp { app_path, args } => {
                let step = Step::Need(
                    Effect::Spawn { app_path: app_path.clone(), args: copy_texts(args) },
                );
                proof {
                    assert((self@, step@) == begin_spec(pre, call@, any, any));
                }
                step
            },
            ToolCall::StopApp { process_id } => {
                let step = match self.process_manager.stop_target(process_id.as_str()) {
                    Ok(pid) => Step::Need(Effect::Kill { process_id: process_id.clone(), pid }),
                    Err(e) => Step::Done(Err(e)),
                };
                proof {
                    assert((self@, step@) == begin_spec(pre, call@, any, any));
                }
                step
            },
            ToolCall::GetAppLogs { process_id, lines } => {
                let step = match self.process_manager.get_app_logs(
                    process_id.as_str(),
                    line_limit(*lines),
                ) {
                    Ok(logs) => Step::Done(Ok(single("logs", texts_json(&logs)))),
                    Err(e) => Step::Done(Err(e)),
                };
                proof {
                    assert((self@, step@) == begin_spec(pre, call@, any, any));
                }
                step
            },
            ToolCall::TakeScreenshot { process_id, output_path } => {
                let step = Step::Need(
                    Effect::Screenshot {
                        process_id: process_id.clone(),
                        output_path: output_path.clone(),
                    },
                );
                proof {
                    assert((self@, step@) == begin_spec(pre, call@, any, any));
                }
                step
            },
            ToolCall::GetWindowInfo { process_id } => {
                let r = self.window_manager.get_window_info(process_id.as_str());
                let step = Step::Done(r);
                proof {
                    lemma_placeholder_report(pre.platform);
                    assert((self@, step@) == begin_spec(pre, call@, any, any));
                }
                step
            },
            ToolCall::SendKeyboardInput { process_id, keys } => {
                let step = match self.input_simulator.send_keyboard_input(
                    process_id.as_str(),
                    keys.as_str(),
                ) {
                    Ok(actions) => Step::Need(
                        Effect::Input { process_id: process_id.clone(), actions },
                    ),
                    Err(e) => Step::Done(Err(e)),
                };
                proof {
                    assert((self@, step@) == begin_spec(pre, call@, any, any));
                }
                step
            },
            ToolCall::SendMouseClick { process_id, x, y, button } => {
                let step = match self.input_simulator.send_mouse_click(
                    process_id.as_str(),
                    *x,
                    *y,
                    button.as_str(),
                ) {
                    Ok(actions) => Step::Need(
                        Effect::Input { process_id: process_id.clone(), actions },
                    ),
                    Err(e) => Step::Done(Err(e)),
                };
                proof {
                    assert((self@, step@) == begin_spec(pre, call@, any, any));
                }
                step
            },
            ToolCall::ExecuteJs { process_id, javascript_code } => {
                let step = Step::Need(
                    Effect::ExecuteJs {
                        process_id: process_id.clone(),
                        javascript_code: javascript_code.clone(),
                    },
                );
                proof {
                    assert((self@, step@) == begin_spec(pre, call@, any, any));
                }
                step
            },
            ToolCall::GetDevtoolsInfo { process_id } => {
                let step = Step::Need(Effect::DevtoolsInfo { process_id: process_id.clone() });
                proof {
                    assert((self@, step@) == begin_spec(pre, call@, any, any));
                }
                step
            },
            ToolCall::MonitorResources { process_id } => {
                let step = match self.process_manager.pid_of(process_id.as_str()) {
                    Ok(pid) => Step::Need(
                        Effect::Snapshot { process_id: process_id.clone(), pid },
                    ),
                    Err(e) => Step::Done(Err(e)),
                };
                proof {
                    assert((self@, step@) == begin_spec(pre, call@, any, any));
                }
                step
            },
            ToolCall::ListIpcHandlers { process_id } => {
                let step = match self.ipc_manager.list_ipc_handlers(process_id.as_str()) {
                    Ok(handlers) => Step::Done(Ok(single("handlers", texts_json(&handlers)))),
                    Err(e) => Step::Done(Err(e)),
                };
                proof {
                    assert((self@, step@) == begin_spec(pre, call@, any, any));
                }
                step
            },
            ToolCall::CallIpcCommand { process_id, command_name, payload } => {
                let r = self.ipc_manager.call_ipc_command(
                    process_id.as_str(),
                    command_name.as_str(),
                    payload.copy(),
                );
                let step = Step::Done(r);
                proof {
                    let (now, fresh) = choose|now: Seq<char>, fresh: Seq<char>|
                        match r {
                            Ok(j) => #[trigger] ipc_answer(command_name@, payload@, now, fresh)
                                == Ok::<JsonV, ErrorV>(j@),
                            Err(e) => #[trigger] ipc_answer(command_name@, payload@, now, fresh)
                                == Err::<JsonV, ErrorV>(e@),
                        };
                    assert((self@, step@) == begin_spec(pre, call@, now, fresh));
                }
                step
            },
            ToolCall::FindRunningApps => {
                let step = Step::Need(Effect::ScanProcesses);
                proof {
                    assert((self@, step@) == begin_spec(pre, call@, any, any));
                }
                step
            },
            ToolCall::AttachToApp { pid } => {
                let step = Step::Need(Effect::Probe { pid: *pid });
                proof {
                    assert((self@, step@) == begin_spec(pre, call@, any, any));
                }
                step
            },
        }
    }

    /// Ends the tool `call` after the caller did what it needed and found
    /// `outcome`.
    pub fn finish(&mut self, call: &ToolCall, outcome: Outcome) -> (r: Result<Json, TauriMcpError>)
        ensures
            exists|fresh: Seq<char>|
                is_uuid_text(fresh) && (final(self)@, result_view(r)) == #[trigger] finish_spec(
                    old(self)@,
                    call@,
                    outcome,
                    fresh,
                ),
            old(self)@.wf(),
            final(self)@.wf(),
    {
        let _ = self.process_manager.session_count();
        let _ = self.ipc_manager.process_count();
        let ghost pre = self@;
        let ghost any = nil_uuid();
        proof {
            lemma_nil_uuid();
        }
        match (call, outcome) {
            (ToolCall::LaunchApp { app_path, args }, Outcome::Spawned(spawned)) => {
                let ghost held = spawned;
                let r = match self.process_manager.launch_app(app_path.as_str(), spawned) {
                    Ok(id) => Ok(session_report(id.as_str(), "launched")),
                    Err(e) => Err(e),
                };
                proof {
                    if launch_failure(app_path@, held) is Some {
                        assert((self@, result_view(r)) == finish_spec(pre, call@, outcome, any));
                    } else if r is Ok {
                        let id = choose|id: Seq<char>|
                            is_uuid_text(id) && !pre.manager.issued(id) && self@.manager
                                == pre.manager.register(
                                id,
                                held->pid,
                                false,
                            ) && r->Ok_0@ == session_json(id, "launched"@);
                        assert((self@, result_view(r)) == finish_spec(pre, call@, outcome, id));
                    } else {
                        let id = choose|id: Seq<char>|
                            is_uuid_text(id) && pre.manager.issued(id) && r->Err_0@ == id_in_use(
                                id,
                            );
                        assert((self@, result_view(r)) == finish_spec(pre, call@, outcome, id));
                    }
                }
                r
            },
            (ToolCall::StopApp { process_id }, Outcome::Killed(kill)) => {
                let r = match self.process_manager.stop_app(process_id.as_str(), kill) {
                    Ok(_) => Ok(single("status", Json::string("stopped"))),
                    Err(e) => Err(e),
                };
                proof {
                    assert((self@, result_view(r)) == finish_spec(pre, call@, outcome, any));
                }
                r
            },
            (ToolCall::TakeScreenshot { process_id, output_path }, Outcome::Captured(capture)) => {
                let r = match self.window_manager.take_screenshot(process_id.as_str(), capture) {
                    Ok(text) => Ok(single("screenshot", Json::Str(text))),
                    Err(e) => Err(e),
                };
                proof {
                    assert((self@, result_view(r)) == finish_spec(pre, call@, outcome, any));
                }
                r
            },
            (ToolCall::SendKeyboardInput { process_id, keys }, Outcome::Performed(done)) => {
                let r = match done {
                    Ok(_) => Ok(single("status", Json::string("sent"))),
                    Err(e) => Err(e),
                };
                proof {
                    assert((self@, result_view(r)) == finish_spec(pre, call@, outcome, any));
                }
                r
            },
            (ToolCall::SendMouseClick { process_id, x, y, button }, Outcome::Performed(done)) => {
                let r = match done {
                    Ok(_) => Ok(single("status", Json::string("clicked"))),
                    Err(e) => Err(e),
                };
                proof {
                    assert((self@, result_view(r)) == finish_spec(pre, call@, outcome, any));
                }
                r
            },
            (ToolCall::ExecuteJs { process_id, javascript_code }, Outcome::Answered(answer)) => {
                let r = match answer {
                    Ok(j) => Ok(single("result", j)),
                    Err(e) => Err(e),
                };
                proof {
                    assert((self@, result_view(r)) == finish_spec(pre, call@, outcome, any));
                }
                r
            },
            (ToolCall::GetDevtoolsInfo { process_id }, Outcome::Answered(answer)) => {
                proof {
                    assert((self@, result_view(answer)) == finish_spec(pre, call@, outcome, any));
                }
                answer
            },
            (ToolCall::MonitorResources { process_id }, Outcome::Snapshot(snapshot)) => {
                let r = self.process_manager.monitor_resources(process_id.as_str(), snapshot);
                proof {
                    assert((self@, result_view(r)) == finish_spec(pre, call@, outcome, any));
                }
                r
            },
            (ToolCall::FindRunningApps, Outcome::Scanned(table)) => {
                let r = match self.process_manager.find_running_apps(&table) {
                    Ok(found) => {
                        proof {
                            lemma_array_view(found);
                        }
                        Ok(single("apps", Json::Array(found)))
                    },
                    Err(e) => Err(e),
                };
                proof {
                    assert((self@, result_view(r)) == finish_spec(pre, call@, outcome, any));
                }
                r
            },
            (ToolCall::AttachToApp { pid }, Outcome::Probed(visible)) => {
                let r = match self.process_manager.attach_to_app(*pid, visible) {
                    Ok(id) => Ok(session_report(id.as_str(), "attached")),
                    Err(e) => Err(e),
                };
                proof {
                    if !visible {
                        assert((self@, result_view(r)) == finish_spec(pre, call@, outcome, any));
                    } else if r is Ok {
                        let id = choose|id: Seq<char>|
                            is_uuid_text(id) && !pre.manager.issued(id) && self@.manager
                                == pre.manager.register(
                                id,
                                *pid,
                                true,
                            ) && r->Ok_0@ == session_json(id, "attached"@);
                        assert((self@, result_view(r)) == finish_spec(pre, call@, outcome, id));
                    } else {
                        let id = choose|id: Seq<char>|
                            is_uuid_text(id) && pre.manager.issued(id) && r->Err_0@ == id_in_use(
                                id,
                            );
                        assert((self@, result_view(r)) == finish_spec(pre, call@, outcome, id));
                    }
                }
                r
            },
            _ => {
                let r = Err(
                    TauriMcpError::Other("Outcome does not belong to the tool".to_owned()),
                );
                proof {
                    assert((self@, result_view(r)) == finish_spec(pre, call@, outcome, any));
                }
                r
            },
        }
    }

    /// The single-shot entry: resolves the tool `tool_name` with the
    /// arguments that the text `args_json` holds, and starts it.  Every
    /// error is handed out as one of kind `Other`.
    pub fn execute_tool(&mut self, tool_name: &str, args_json: &str) -> (r: Execution)
        ensures
            exists|now: Seq<char>, fresh: Seq<char>|
                (final(self)@, r@) == #[trigger] execute_spec(
                    old(self)@,
                    tool_name@,
                    args_json@,
                    now,
                    fresh,
                ),
            old(self)@.wf(),
            final(self)@.wf(),
    {
        let _ = self.process_manager.session_count();
        let _ = self.ipc_manager.process_count();
        let ghost pre = self@;
        let ghost any = Seq::<char>::empty();
        let args = match Json::parse(args_json) {
            Ok(args) => args,
            Err(message) => {
                let r = Execution::Done(
                    Err(
                        TauriMcpError::Other(
                            join2("Invalid JSON arguments: ", message.as_str()),
                        ),
                    ),
                );
                proof {
                    assert((self@, r@) == execute_spec(pre, tool_name@, args_json@, any, any));
                }
                return r;
            },
        };
        let call = match resolve(tool_name, &args) {
            Ok(call) => call,
            Err(reason) => {
                let r = match &reason {
                    ResolveError::Missing(what) => Execution::Done(
                        Err(TauriMcpError::Other(join2("Missing ", what.as_str()))),
                    ),
                    ResolveError::UnknownTool => Execution::Done(
                        Err(TauriMcpError::Other(join2("Unknown tool: ", tool_name))),
                    ),
                };
                proof {
                    assert((self@, r@) == execute_spec(pre, tool_name@, args_json@, any, any));
                }
                return r;
            },
        };
        let step = self.begin(&call);
        let ghost begun = step@;
        let r = match step {
            Step::Done(Ok(j)) => Execution::Done(Ok(j)),
            Step::Done(Err(e)) => Execution::Done(Err(TauriMcpError::Other(e.to_string()))),
            Step::Need(effect) => Execution::Need { call, effect },
        };
        proof {
            let (now, fresh) = choose|now: Seq<char>, fresh: Seq<char>|
                (self@, begun) == #[trigger] begin_spec(pre, call@, now, fresh);
            assert((self@, begun) == begin_spec(pre, call@, now, fresh));
            assert((self@, r@) == execute_spec(pre, tool_name@, args_json@, now, fresh));
        }
        r
    }

    /// Ends a tool of the single-shot entry: as `finish`, with every error
    /// handed out as one of kind `Other`.
    pub fn finish_execution(&mut self, call: &ToolCall, outcome: Outcome) -> (r: Result<
        Json,
        TauriMcpError,
    >)
        ensures
            exists|fresh: Seq<char>|
                is_uuid_text(fresh) && (final(self)@, result_view(r))
                    == #[trigger] finish_execution_spec(old(self)@, call@, outcome, fresh),
            old(self)@.wf(),
            final(self)@.wf(),
    {
        let ghost pre = self@;
        let done = self.finish(call, outcome);
        let ghost ended = result_view(done);
        let r = match done {
            Ok(j) => Ok(j),
            Err(e) => Err(TauriMcpError::Other(e.to_string())),
        };
        proof {
            let fresh = choose|fresh: Seq<char>|
                is_uuid_text(fresh) && (self@, ended) == #[trigger] finish_spec(
                    pre,
                    call@,
                    outcome,
                    fresh,
                );
            assert((self@, ended) == finish_spec(pre, call@, outcome, fresh));
            assert((self@, result_view(r)) == finish_execution_spec(pre, call@, outcome, fresh));
        }
        r
    }
}

/// Every window is reported alike: two reports of the placeholder on one
/// platform are the same.
pub proof fn lemma_placeholder_report(platform: Platform)
    ensures
        forall|a: WindowInfo, b: WindowInfo|
            is_placeholder(a) && is_placeholder(b) ==> #[trigger] window_json(a, platform)
                == #[trigger] window_json(b, platform),
{
    assert forall|a: WindowInfo, b: WindowInfo| is_placeholder(a) && is_placeholder(b) implies
        #[trigger] window_json(a, platform) == #[trigger] window_json(b, platform) by {
        assert(window_json(a, platform)->Object_0 =~= window_json(b, platform)->Object_0);
    }
}

/// A session that was just launched is served at once: its id was never
/// given out before, its log is read, and its resources are asked for under
/// the process id that it was launched with.
pub proof fn lemma_launched_session_is_served(
    pre: ServerV,
    app_path: Seq<char>,
    args: Seq<Seq<char>>,
    pid: u32,
    fresh: Seq<char>,
    lines: Option<u64>,
    now: Seq<char>,
    other: Seq<char>,
)
    requires
        pre.wf(),
        !pre.manager.issued(fresh),
    ensures
        ({
            let launch = ToolCallV::LaunchApp { app_path, args };
            let (after, result) = finish_spec(
                pre,
                launch,
                Outcome::Spawned(SpawnOutcome::Spawned { pid }),
                fresh,
            );
            &&& result == Ok::<JsonV, ErrorV>(session_json(fresh, "launched"@))
            &&& after.wf()
            &&& after.manager.tracks(fresh)
            &&& after.manager.session_ids().contains(fresh)
            &&& begin_spec(after, ToolCallV::GetAppLogs { process_id: fresh, lines }, now, other).1
                == StepV::Done(Ok(object1("logs"@, text_array(Seq::empty()))))
            &&& begin_spec(after, ToolCallV::MonitorResources { process_id: fresh }, now, other).1
                == StepV::Need(EffectV::Snapshot { process_id: fresh, pid })
        }),
{
    crate::tools::process::lemma_new_session_resolves(
        pre.manager,
        fresh,
        pid,
        false,
        limit_of(lines),
        fresh,
    );
}

/// A session that was stopped is unknown from then on: its log cannot be
/// read, it cannot be stopped again, and its id is not given out again.
pub proof fn lemma_stopped_session_is_unknown(
    pre: ServerV,
    id: Seq<char>,
    lines: Option<u64>,
    now: Seq<char>,
    other: Seq<char>,
)
    requires
        pre.wf(),
        pre.manager.tracks(id),
        !pre.manager.record(id).attached,
    ensures
        ({
            let stop = ToolCallV::StopApp { process_id: id };
            let (after, result) = finish_spec(pre, stop, Outcome::Killed(Ok(())), other);
            &&& result == Ok::<JsonV, ErrorV>(status_json("stopped"@))
            &&& after.wf()
            &&& begin_spec(after, ToolCallV::GetAppLogs { process_id: id, lines }, now, other).1
                == StepV::Done(Err(crate::tools::process::not_found(id)))
            &&& begin_spec(after, stop, now, other).1 == StepV::Done(
                Err(crate::tools::process::not_found(id)),
            )
            &&& after.manager.issued(id)
        }),
{
    crate::tools::process::lemma_id_never_reused(pre.manager, id, 0, false);
}

/// Stopping a session that was only attached to is refused without a kill
/// being asked for, and leaves the server as it was.
pub proof fn lemma_attached_session_is_not_stopped(
    pre: ServerV,
    id: Seq<char>,
    kill: Result<(), String>,
    now: Seq<char>,
    other: Seq<char>,
)
    requires
        pre.manager.tracks(id),
        pre.manager.record(id).attached,
    ensures
        begin_spec(pre, ToolCallV::StopApp { process_id: id }, now, other) == (
            pre,
            StepV::Done(Err(crate::tools::process::not_owned())),
        ),
        finish_spec(pre, ToolCallV::StopApp { process_id: id }, Outcome::Killed(kill), other) == (
            pre,
            Err::<JsonV, ErrorV>(crate::tools::process::not_owned()),
        ),
{
}

/// The single-shot entry validates a call as the session does: what
/// `tools/call` refuses, it refuses for the same reason, and what
/// `tools/call` runs, it starts.
pub proof fn lemma_same_validation(
    pre: ServerV,
    tool_name: Seq<char>,
    args_text: Seq<char>,
    args: JsonV,
    params: JsonV,
    now: Seq<char>,
    fresh: Seq<char>,
)
    requires
        parse_spec(args_text) == Ok::<JsonV, Seq<char>>(args),
        params.str_field("name"@) == Some(tool_name),
        params.field("arguments"@) == Some(args),
    ensures
        match resolve_spec(tool_name, args) {
            Err(reason) => {
                &&& crate::protocol::call_tool_spec(params)
                    == crate::protocol::MethodPlanV::Answer(
                    Err(crate::protocol::rpc_error_of(reason)),
                )
                &&& execute_spec(pre, tool_name, args_text, now, fresh) == (
                    pre,
                    ExecutionV::Done(Err(unresolved(tool_name, reason))),
                )
            },
            Ok(call) => {
                &&& crate::protocol::call_tool_spec(params) == crate::protocol::MethodPlanV::Run(
                    call,
                )
                &&& execute_spec(pre, tool_name, args_text, now, fresh).0 == begin_spec(
                    pre,
                    call,
                    now,
                    fresh,
                ).0
                &&& match begin_spec(pre, call, now, fresh).1 {
                    StepV::Need(effect) => execute_spec(pre, tool_name, args_text, now, fresh).1
                        == (ExecutionV::Need { call, effect }),
                    StepV::Done(result) => execute_spec(pre, tool_name, args_text, now, fresh).1
                        == ExecutionV::Done(as_other(result)),
                }
            },
        },
{
}

/// The answer to a launch or an attachment reports the session under the
/// id that it was given.
pub proof fn lemma_session_is_reported(id: Seq<char>, status: Seq<char>)
    ensures
        session_json(id, status).str_field("process_id"@) == Some(id),
        session_json(id, status).str_field("status"@) == Some(status),
{
    reveal_strlit("process_id");
    reveal_strlit("status");
    let members = session_json(id, status)->Object_0;
    assert("process_id"@.len() == 10);
    assert("status"@.len() == 6);
    assert(members.last() == members[1]);
    assert(members.drop_last().last() == members[0]);
    assert(crate::json::lookup(members, "status"@) == Some(JsonV::Str(status)));
    assert(crate::json::lookup(members.drop_last(), "process_id"@) == Some(JsonV::Str(id)));
}

/// A session that was attached to has no log: whatever comes in for it is
/// dropped, and its log is read as empty, whatever the limit.
pub proof fn lemma_attached_session_has_no_log(
    pre: ServerV,
    id: Seq<char>,
    stream: Stream,
    line: Seq<char>,
    lines: Option<u64>,
    now: Seq<char>,
    other: Seq<char>,
)
    requires
        pre.wf(),
        pre.manager.tracks(id),
        pre.manager.record(id).attached,
    ensures
        pre.manager.after_line(id, stream, line) == pre.manager,
        begin_spec(pre, ToolCallV::GetAppLogs { process_id: id, lines }, now, other) == (
            pre,
            StepV::Done(Ok(object1("logs"@, text_array(Seq::empty())))),
        ),
{
    crate::tools::process::lemma_attached_log_stays_empty(
        pre.manager,
        id,
        stream,
        line,
        limit_of(lines),
    );
}

/// A session that was just attached is served at once, with an empty log.
pub proof fn lemma_attached_session_is_served(
    pre: ServerV,
    pid: u32,
    fresh: Seq<char>,
    lines: Option<u64>,
    now: Seq<char>,
    other: Seq<char>,
)
    requires
        pre.wf(),
        !pre.manager.issued(fresh),
    ensures
        ({
            let attach = ToolCallV::AttachToApp { pid };
            let (after, result) = finish_spec(pre, attach, Outcome::Probed(true), fresh);
            &&& result == Ok::<JsonV, ErrorV>(session_json(fresh, "attached"@))
            &&& after.wf()
            &&& after.manager.tracks(fresh)
            &&& after.manager.record(fresh).attached
            &&& begin_spec(after, ToolCallV::GetAppLogs { process_id: fresh, lines }, now, other).1
                == StepV::Done(Ok(object1("logs"@, text_array(Seq::empty()))))
        }),
{
    crate::tools::process::lemma_attached_session_has_no_log(
        pre.manager,
        fresh,
        pid,
        limit_of(lines),
    );
}

} // verus!
