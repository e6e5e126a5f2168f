//! The tool dispatch table: from a tool's name and its argument object to a
//! validated call, or to the reason why there is none.

use crate::json::{views_of, Json, JsonV};
use crate::text::same_text;
use vstd::prelude::*;

verus! {

/// A tool invocation whose required arguments are all present.
#[derive(Debug, PartialEq)]
pub enum ToolCall {
    LaunchApp { app_path: String, args: Vec<String> },
    StopApp { process_id: String },
    GetAppLogs { process_id: String, lines: Option<u64> },
    TakeScreenshot { process_id: String, output_path: Option<String> },
    GetWindowInfo { process_id: String },
    SendKeyboardInput { process_id: String, keys: String },
    SendMouseClick { process_id: String, x: i32, y: i32, button: String },
    ExecuteJs { process_id: String, javascript_code: String },
    GetDevtoolsInfo { process_id: String },
    MonitorResources { process_id: String },
    ListIpcHandlers { process_id: String },
    CallIpcCommand { process_id: String, command_name: String, payload: Json },
    FindRunningApps,
    AttachToApp { pid: u32 },
}

/// The mathematical value of a [`ToolCall`].
pub enum ToolCallV {
    LaunchApp { app_path: Seq<char>, args: Seq<Seq<char>> },
    StopApp { process_id: Seq<char> },
    GetAppLogs { process_id: Seq<char>, lines: Option<u64> },
    TakeScreenshot { process_id: Seq<char>, output_path: Option<Seq<char>> },
    GetWindowInfo { process_id: Seq<char> },
    SendKeyboardInput { process_id: Seq<char>, keys: Seq<char> },
    SendMouseClick { process_id: Seq<char>, x: i32, y: i32, button: Seq<char> },
    ExecuteJs { process_id: Seq<char>, javascript_code: Seq<char> },
    GetDevtoolsInfo { process_id: Seq<char> },
    MonitorResources { process_id: Seq<char> },
    ListIpcHandlers { process_id: Seq<char> },
    CallIpcCommand { process_id: Seq<char>, command_name: Seq<char>, payload: JsonV },
    FindRunningApps,
    AttachToApp { pid: u32 },
}

/// The texts of `items`, in order.
pub open spec fn texts_of(items: Seq<String>) -> Seq<Seq<char>> {
    Seq::new(items.len(), |i: int| items[i]@)
}

impl View for ToolCall {
    type V = ToolCallV;

    open spec fn view(&self) -> ToolCallV {
        match self {
            ToolCall::LaunchApp { app_path, args } => ToolCallV::LaunchApp {
                app_path: app_path@,
                args: texts_of(args@),
            },
            ToolCall::StopApp { process_id } => ToolCallV::StopApp { process_id: process_id@ },
            ToolCall::GetAppLogs { process_id, lines } => ToolCallV::GetAppLogs {
                process_id: process_id@,
                lines: *lines,
            },
            ToolCall::TakeScreenshot { process_id, output_path } => ToolCallV::TakeScreenshot {
                process_id: process_id@,
                output_path: match output_path {
                    Some(p) => Some(p@),
                    None => None,
                },
            },
            ToolCall::GetWindowInfo { process_id } => ToolCallV::GetWindowInfo {
                process_id: process_id@,
            },
            ToolCall::SendKeyboardInput { process_id, keys } => ToolCallV::SendKeyboardInput {
                process_id: process_id@,
                keys: keys@,
            },
            ToolCall::SendMouseClick { process_id, x, y, button } => ToolCallV::SendMouseClick {
                process_id: process_id@,
                x: *x,
                y: *y,
                button: button@,
            },
            ToolCall::ExecuteJs { process_id, javascript_code } => ToolCallV::ExecuteJs {
                process_id: process_id@,
                javascript_code: javascript_code@,
            },
            ToolCall::GetDevtoolsInfo { process_id } => ToolCallV::GetDevtoolsInfo {
                process_id: process_id@,
            },
            ToolCall::MonitorResources { process_id } => ToolCallV::MonitorResources {
                process_id: process_id@,
            },
            ToolCall::ListIpcHandlers { process_id } => ToolCallV::ListIpcHandlers {
                process_id: process_id@,
            },
            ToolCall::CallIpcCommand { process_id, command_name, payload } => ToolCallV::CallIpcCommand {
                process_id: process_id@,
                command_name: command_name@,
                payload: payload@,
            },
            ToolCall::FindRunningApps => ToolCallV::FindRunningApps,
            ToolCall::AttachToApp { pid } => ToolCallV::AttachToApp { pid: *pid },
        }
    }
}

/// Why a tool invocation could not be resolved.
#[derive(Debug, PartialEq)]
pub enum ResolveError {
    /// A required argument is absent or has the wrong type; the text names it.
    Missing(String),
    /// No tool has the given name.
    UnknownTool,
}

/// The mathematical value of a [`ResolveError`].
pub enum ResolveErrorV {
    Missing(Seq<char>),
    UnknownTool,
}

impl View for ResolveError {
    type V = ResolveErrorV;

    open spec fn view(&self) -> ResolveErrorV {
        match self {
            ResolveError::Missing(what) => ResolveErrorV::Missing(what@),
            ResolveError::UnknownTool => ResolveErrorV::UnknownTool,
        }
    }
}

impl ResolveErrorV {
    /// The message that reports this error to a client.
    pub open spec fn message(self) -> Seq<char> {
        match self {
            ResolveErrorV::Missing(what) => "Missing "@ + what,
            ResolveErrorV::UnknownTool => "Method not found"@,
        }
    }
}

/// The value of a resolution: that of the call, or that of the error.
pub open spec fn resolution_view(r: Result<ToolCall, ResolveError>) -> Result<
    ToolCallV,
    ResolveErrorV,
> {
    match r {
        Ok(call) => Ok(call@),
        Err(e) => Err(e@),
    }
}

/// `n` reduced to 32 bits, read as an unsigned number.
pub open spec fn wrap_u32(n: u64) -> u32 {
    (n as int % 0x1_0000_0000) as u32
}

/// `n` reduced to 32 bits, read as a number in two's complement.
pub open spec fn wrap_i32(n: i64) -> i32 {
    let low = n as int % 0x1_0000_0000;
    if low >= 0x8000_0000 {
        (low - 0x1_0000_0000) as i32
    } else {
        low as i32
    }
}

/// The string items of `items`, in order; items of another type are left out.
pub open spec fn strings_in(items: Seq<JsonV>) -> Seq<Seq<char>>
    decreases items.len(),
{
    if items.len() == 0 {
        Seq::empty()
    } else {
        let before = strings_in(items.drop_last());
        match items.last() {
            JsonV::Str(s) => before.push(s),
            _ => before,
        }
    }
}

/// The launch arguments that `args` gives: the string items of its array
/// member `args`, and none where that member is absent or no array.
pub open spec fn launch_args(args: JsonV) -> Seq<Seq<char>> {
    match args.field("args"@) {
        Some(JsonV::Array(items)) => strings_in(items),
        _ => Seq::empty(),
    }
}

/// The member `key` of `args` where it is a whole number in the range of `u64`.
pub open spec fn u64_field(args: JsonV, key: Seq<char>) -> Option<u64> {
    match args.field(key) {
        Some(v) => v.as_u64(),
        None => None,
    }
}

/// The member `key` of `args` where it is a whole number in the range of `i64`.
pub open spec fn i64_field(args: JsonV, key: Seq<char>) -> Option<i64> {
    match args.field(key) {
        Some(v) => v.as_i64(),
        None => None,
    }
}

/// The call that takes only a process id, made by `make`.
pub open spec fn with_process_id(
    args: JsonV,
    make: spec_fn(Seq<char>) -> ToolCallV,
) -> Result<ToolCallV, ResolveErrorV> {
    match args.str_field("process_id"@) {
        Some(id) => Ok(make(id)),
        None => Err(ResolveErrorV::Missing("process_id"@)),
    }
}

/// The call that takes a process id and one more required string, `key`.
pub open spec fn with_process_id_and(
    args: JsonV,
    key: Seq<char>,
    make: spec_fn(Seq<char>, Seq<char>) -> ToolCallV,
) -> Result<ToolCallV, ResolveErrorV> {
    match args.str_field("process_id"@) {
        None => Err(ResolveErrorV::Missing("process_id"@)),
        Some(id) => match args.str_field(key) {
            None => Err(ResolveErrorV::Missing(key)),
            Some(second) => Ok(make(id, second)),
        },
    }
}

/// The mouse click that `args` asks for.
pub open spec fn resolve_click(args: JsonV) -> Result<ToolCallV, ResolveErrorV> {
    match args.str_field("process_id"@) {
        None => Err(ResolveErrorV::Missing("process_id"@)),
        Some(id) => match i64_field(args, "x"@) {
            None => Err(ResolveErrorV::Missing("x coordinate"@)),
            Some(x) => match i64_field(args, "y"@) {
                None => Err(ResolveErrorV::Missing("y coordinate"@)),
                Some(y) => Ok(
                    ToolCallV::SendMouseClick {
                        process_id: id,
                        x: wrap_i32(x),
                        y: wrap_i32(y),
                        button: match args.str_field("button"@) {
                            Some(b) => b,
                            None => "left"@,
                        },
                    },
                ),
            },
        },
    }
}

/// The names of the tools, in the order of the catalog.
pub open spec fn tool_names() -> Seq<Seq<char>> {
    seq![
        "launch_app"@,
        "stop_app"@,
        "get_app_logs"@,
        "take_screenshot"@,
        "get_window_info"@,
        "send_keyboard_input"@,
        "send_mouse_click"@,
        "execute_js"@,
        "get_devtools_info"@,
        "monitor_resources"@,
        "list_ipc_handlers"@,
        "call_ipc_command"@,
        "find_running_apps"@,
        "attach_to_app"@,
    ]
}

/// Whether `name` is the name of a tool.
pub open spec fn is_tool_name(name: Seq<char>) -> bool {
    tool_names().contains(name)
}

/// What the dispatch table makes of the tool `name` called with the
/// argument object `args`.
///
/// The required arguments are looked at in a fixed order, and the first one
/// that is absent, or is not of its type, is reported.  An optional argument
/// of the wrong type counts as absent.
pub open spec fn resolve_spec(name: Seq<char>, args: JsonV) -> Result<ToolCallV, ResolveErrorV> {
    if name == "launch_app"@ {
        match args.str_field("app_path"@) {
            Some(path) => Ok(ToolCallV::LaunchApp { app_path: path, args: launch_args(args) }),
            None => Err(ResolveErrorV::Missing("app_path"@)),
        }
    } else if name == "stop_app"@ {
        with_process_id(args, |id: Seq<char>| ToolCallV::StopApp { process_id: id })
    } else if name == "get_app_logs"@ {
        with_process_id(
            args,
            |id: Seq<char>| ToolCallV::GetAppLogs { process_id: id, lines: u64_field(args, "lines"@) },
        )
    } else if name == "take_screenshot"@ {
        with_process_id(
            args,
            |id: Seq<char>|
                ToolCallV::TakeScreenshot {
                    process_id: id,
                    output_path: args.str_field("output_path"@),
                },
        )
    } else if name == "get_window_info"@ {
        with_process_id(args, |id: Seq<char>| ToolCallV::GetWindowInfo { process_id: id })
    } else if name == "send_keyboard_input"@ {
        with_process_id_and(
            args,
            "keys"@,
            |id: Seq<char>, keys: Seq<char>| ToolCallV::SendKeyboardInput { process_id: id, keys },
        )
    } else if name == "send_mouse_click"@ {
        resolve_click(args)
    } else if name == "execute_js"@ {
        with_process_id_and(
            args,
            "javascript_code"@,
            |id: Seq<char>, code: Seq<char>|
                ToolCallV::ExecuteJs { process_id: id, javascript_code: code },
        )
    } else if name == "get_devtools_info"@ {
        with_process_id(args, |id: Seq<char>| ToolCallV::GetDevtoolsInfo { process_id: id })
    } else if name == "monitor_resources"@ {
        with_process_id(args, |id: Seq<char>| ToolCallV::MonitorResources { process_id: id })
    } else if name == "list_ipc_handlers"@ {
        with_process_id(args, |id: Seq<char>| ToolCallV::ListIpcHandlers { process_id: id })
    } else if name == "call_ipc_command"@ {
        with_process_id_and(
            args,
            "command_name"@,
            |id: Seq<char>, command: Seq<char>|
                ToolCallV::CallIpcCommand {
                    process_id: id,
                    command_name: command,
                    payload: match args.field("args"@) {
                        Some(v) => v,
                        None => JsonV::Null,
                    },
                },
        )
    } else if name == "find_running_apps"@ {
        Ok(ToolCallV::FindRunningApps)
    } else if name == "attach_to_app"@ {
        match u64_field(args, "pid"@) {
            Some(pid) => Ok(ToolCallV::AttachToApp { pid: wrap_u32(pid) }),
            None => Err(ResolveErrorV::Missing("pid"@)),
        }
    } else {
        Err(ResolveErrorV::UnknownTool)
    }
}

/// `n` reduced to 32 bits, read as an unsigned number.
pub fn wrapped_u32(n: u64) -> (r: u32)
    ensures
        r == wrap_u32(n),
{
    (n % 0x1_0000_0000) as u32
}

/// `n` reduced to 32 bits, read as a number in two's complement.
pub fn wrapped_i32(n: i64) -> (r: i32)
    ensures
        r == wrap_i32(n),
{
    let low: u64 = if n >= 0 {
        (n as u64) % 0x1_0000_0000
    } else {
        let k: u64 = (-(n + 1)) as u64;
        0xffff_ffff - (k % 0x1_0000_0000)
    };
    if low >= 0x8000_0000 {
        (low as i64 - 0x1_0000_0000) as i32
    } else {
        low as i32
    }
}

/// The string member `key` of `args`.
fn text_field(args: &Json, key: &str) -> (r: Option<String>)
    ensures
        match r {
            Some(s) => args@.str_field(key@) == Some(s@),
            None => args@.str_field(key@) is None,
        },
{
    match args.get(key) {
        Some(v) => match v.as_str() {
            Some(s) => Some(s.to_owned()),
            None => None,
        },
        None => None,
    }
}

/// The required string member `key` of `args`, reported as `label` where it
/// is missing.
fn required_text(args: &Json, key: &str, label: &str) -> (r: Result<String, ResolveError>)
    ensures
        match r {
            Ok(s) => args@.str_field(key@) == Some(s@),
            Err(e) => args@.str_field(key@) is None && e@ == ResolveErrorV::Missing(label@),
        },
{
    match text_field(args, key) {
        Some(s) => Ok(s),
        None => Err(ResolveError::Missing(label.to_owned())),
    }
}

/// The member `key` of `args` where it is a whole number in the range of `u64`.
fn number_field(args: &Json, key: &str) -> (r: Option<u64>)
    ensures
        r == u64_field(args@, key@),
{
    match args.get(key) {
        Some(v) => v.as_u64(),
        None => None,
    }
}

/// The member `key` of `args` where it is a whole number in the range of `i64`.
fn signed_field(args: &Json, key: &str) -> (r: Option<i64>)
    ensures
        r == i64_field(args@, key@),
{
    match args.get(key) {
        Some(v) => v.as_i64(),
        None => None,
    }
}

/// The string items of `items`, in order.
pub fn string_items(items: &Vec<Json>) -> (r: Vec<String>)
    ensures
        texts_of(r@) == strings_in(views_of(items@)),
{
    let ghost all = views_of(items@);
    let mut out: Vec<String> = Vec::new();
    let mut i: usize = 0;
    proof {
        assert(texts_of(out@) =~= strings_in(all.take(0)));
    }
    while i < items.len()
        invariant
            i <= items.len(),
            all == views_of(items@),
            texts_of(out@) == strings_in(all.take(i as int)),
        decreases items.len() - i,
    {
        proof {
            assert(all.take(i + 1).drop_last() =~= all.take(i as int));
            assert(all.take(i + 1).last() == items@[i as int]@);
        }
        let ghost before = texts_of(out@);
        match items[i].as_str() {
            Some(s) => {
                out.push(s.to_owned());
                proof {
                    assert(texts_of(out@) =~= before.push(s@));
                }
            },
            None => {},
        }
        i += 1;
    }
    proof {
        assert(all.take(i as int) =~= all);
    }
    out
}

/// The launch arguments that `args` gives.
fn launch_arguments(args: &Json) -> (r: Vec<String>)
    ensures
        texts_of(r@) == launch_args(args@),
{
    match args.get("args") {
        Some(v) => match v.as_array() {
            Some(items) => string_items(items),
            None => {
                let r: Vec<String> = Vec::new();
                proof {
                    assert(texts_of(r@) =~= Seq::<Seq<char>>::empty());
                }
                r
            },
        },
        None => {
            let r: Vec<String> = Vec::new();
            proof {
                assert(texts_of(r@) =~= Seq::<Seq<char>>::empty());
            }
            r
        },
    }
}

/// Resolves the tool `name` with the argument object `args`: checks the
/// required arguments and hands back the validated call.
pub fn resolve(name: &str, args: &Json) -> (r: Result<ToolCall, ResolveError>)
    ensures
        resolution_view(r) == resolve_spec(name@, args@),
{
    if same_text(name, "launch_app") {
        match required_text(args, "app_path", "app_path") {
            Ok(app_path) => Ok(ToolCall::LaunchApp { app_path, args: launch_arguments(args) }),
            Err(e) => Err(e),
        }
    } else if same_text(name, "stop_app") {
        match required_text(args, "process_id", "process_id") {
            Ok(process_id) => Ok(ToolCall::StopApp { process_id }),
            Err(e) => Err(e),
        }
    } else if same_text(name, "get_app_logs") {
        match required_text(args, "process_id", "process_id") {
            Ok(process_id) => Ok(
                ToolCall::GetAppLogs { process_id, lines: number_field(args, "lines") },
            ),
            Err(e) => Err(e),
        }
    } else if same_text(name, "take_screenshot") {
        match required_text(args, "process_id", "process_id") {
            Ok(process_id) => Ok(
                ToolCall::TakeScreenshot { process_id, output_path: text_field(args, "output_path") },
            ),
            Err(e) => Err(e),
        }
    } else if same_text(name, "get_window_info") {
        match required_text(args, "process_id", "process_id") {
            Ok(process_id) => Ok(ToolCall::GetWindowInfo { process_id }),
            Err(e) => Err(e),
        }
    } else if same_text(name, "send_keyboard_input") {
        match required_text(args, "process_id", "process_id") {
            Ok(process_id) => match required_text(args, "keys", "keys") {
                Ok(keys) => Ok(ToolCall::SendKeyboardInput { process_id, keys }),
                Err(e) => Err(e),
            },
            Err(e) => Err(e),
        }
    } else if same_text(name, "send_mouse_click") {
        resolve_mouse_click(args)
    } else if same_text(name, "execute_js") {
        match required_text(args, "process_id", "process_id") {
            Ok(process_id) => match required_text(args, "javascript_code", "javascript_code") {
                Ok(javascript_code) => Ok(ToolCall::ExecuteJs { process_id, javascript_code }),
                Err(e) => Err(e),
            },
            Err(e) => Err(e),
        }
    } else if same_text(name, "get_devtools_info") {
        match required_text(args, "process_id", "process_id") {
            Ok(process_id) => Ok(ToolCall::GetDevtoolsInfo { process_id }),
            Err(e) => Err(e),
        }
    } else if same_text(name, "monitor_resources") {
        match required_text(args, "process_id", "process_id") {
            Ok(process_id) => Ok(ToolCall::MonitorResources { process_id }),
            Err(e) => Err(e),
        }
    } else if same_text(name, "list_ipc_handlers") {
        match required_text(args, "process_id", "process_id") {
            Ok(process_id) => Ok(ToolCall::ListIpcHandlers { process_id }),
            Err(e) => Err(e),
        }
    } else if same_text(name, "call_ipc_command") {
        match required_text(args, "process_id", "process_id") {
            Ok(process_id) => match required_text(args, "command_name", "command_name") {
                Ok(command_name) => {
                    let passed = match args.get("args") {
                        Some(v) => v.copy(),
                        None => Json::Null,
                    };
                    Ok(ToolCall::CallIpcCommand { process_id, command_name, payload: passed })
                },
                Err(e) => Err(e),
            },
            Err(e) => Err(e),
        }
    } else if same_text(name, "find_running_apps") {
        Ok(ToolCall::FindRunningApps)
    } else if same_text(name, "attach_to_app") {
        match number_field(args, "pid") {
            Some(pid) => Ok(ToolCall::AttachToApp { pid: wrapped_u32(pid) }),
            None => Err(ResolveError::Missing("pid".to_owned())),
        }
    } else {
        Err(ResolveError::UnknownTool)
    }
}

/// Resolves a mouse click.
fn resolve_mouse_click(args: &Json) -> (r: Result<ToolCall, ResolveError>)
    ensures
        resolution_view(r) == resolve_click(args@),
{
    match required_text(args, "process_id", "process_id") {
        Err(e) => Err(e),
        Ok(process_id) => match signed_field(args, "x") {
            None => Err(ResolveError::Missing("x coordinate".to_owned())),
            Some(x) => match signed_field(args, "y") {
                None => Err(ResolveError::Missing("y coordinate".to_owned())),
                Some(y) => {
                    let button = match text_field(args, "button") {
                        Some(b) => b,
                        None => "left".to_owned(),
                    };
                    Ok(
                        ToolCall::SendMouseClick {
                            process_id,
                            x: wrapped_i32(x),
                            y: wrapped_i32(y),
                            button,
                        },
                    )
                },
            },
        },
    }
}

/// Whether `name` is the name of a tool.
pub fn is_tool(name: &str) -> (r: bool)
    ensures
        r == is_tool_name(name@),
{
    let r = same_text(name, "launch_app") || same_text(name, "stop_app") || same_text(
        name,
        "get_app_logs",
    ) || same_text(name, "take_screenshot") || same_text(name, "get_window_info") || same_text(
        name,
        "send_keyboard_input",
    ) || same_text(name, "send_mouse_click") || same_text(name, "execute_js") || same_text(
        name,
        "get_devtools_info",
    ) || same_text(name, "monitor_resources") || same_text(name, "list_ipc_handlers")
        || same_text(name, "call_ipc_command") || same_text(name, "find_running_apps")
        || same_text(name, "attach_to_app");
    proof {
        let names = tool_names();
        if r {
            let i = choose|i: int| 0 <= i < 14 && names[i] == name@;
            assert(names[i] == name@);
        } else {
            assert forall|i: int| 0 <= i < names.len() implies names[i] != name@ by {}
        }
    }
    r
}

/// The dispatch table knows exactly the tools of the catalog: a name is
/// resolved, with some arguments or with their absence reported, if and only
/// if it is the name of a tool.
pub proof fn lemma_dispatch_names(name: Seq<char>, args: JsonV)
    ensures
        (resolve_spec(name, args) != Err::<ToolCallV, ResolveErrorV>(ResolveErrorV::UnknownTool))
            <==> is_tool_name(name),
{
    let names = tool_names();
    if is_tool_name(name) {
        let i = choose|i: int| 0 <= i < names.len() && names[i] == name;
        assert(names[i] == name);
    } else {
        assert(forall|i: int| 0 <= i < names.len() ==> names[i] != name);
        assert(names[0] != name);
        assert(names[1] != name);
        assert(names[2] != name);
        assert(names[3] != name);
        assert(names[4] != name);
        assert(names[5] != name);
        assert(names[6] != name);
        assert(names[7] != name);
        assert(names[8] != name);
        assert(names[9] != name);
        assert(names[10] != name);
        assert(names[11] != name);
        assert(names[12] != name);
        assert(names[13] != name);
    }
}

/// No two tools have the same name.
pub proof fn lemma_tool_names_distinct()
    ensures
        forall|i: int, j: int| 0 <= i < j < tool_names().len() ==> tool_names()[i] != tool_names()[j],
{
    reveal_strlit("launch_app");
    reveal_strlit("stop_app");
    reveal_strlit("get_app_logs");
    reveal_strlit("take_screenshot");
    reveal_strlit("get_window_info");
    reveal_strlit("send_keyboard_input");
    reveal_strlit("send_mouse_click");
    reveal_strlit("execute_js");
    reveal_strlit("get_devtools_info");
    reveal_strlit("monitor_resources");
    reveal_strlit("list_ipc_handlers");
    reveal_strlit("call_ipc_command");
    reveal_strlit("find_running_apps");
    reveal_strlit("attach_to_app");
    let names = tool_names();
    assert(names[0].len() == 10 && names[0][0] == 'l');
    assert(names[1].len() == 8);
    assert(names[2].len() == 12);
    assert(names[3].len() == 15 && names[3][0] == 't');
    assert(names[4].len() == 15 && names[4][0] == 'g');
    assert(names[5].len() == 19);
    assert(names[6].len() == 16 && names[6][0] == 's');
    assert(names[7].len() == 10 && names[7][0] == 'e');
    assert(names[8].len() == 17 && names[8][0] == 'g');
    assert(names[9].len() == 17 && names[9][0] == 'm');
    assert(names[10].len() == 17 && names[10][0] == 'l');
    assert(names[11].len() == 16 && names[11][0] == 'c');
    assert(names[12].len() == 17 && names[12][0] == 'f');
    assert(names[13].len() == 13);
}

} // verus!
