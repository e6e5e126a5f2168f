use tauri_mcp::dispatch::ToolCall;
use tauri_mcp::json::Json;
use tauri_mcp::session::LineJob;
use tauri_mcp::TauriMcpError;

/// Serves a line with tools that all answer with their own name.
fn serve(line: &str) -> (Vec<ToolCall>, Option<String>) {
    let mut job = LineJob::open(line);
    let mut ran = Vec::new();
    let mut outcome = None;
    while let Some(call) = job.next_tool(outcome.take()) {
        outcome = Some(match &call {
            ToolCall::FindRunningApps => Ok(Json::string("found")),
            ToolCall::StopApp { process_id } => {
                Err(TauriMcpError::ProcessError(format!("Process not found: {}", process_id)))
            }
            _ => Ok(Json::Null),
        });
        ran.push(call);
    }
    (ran, job.close())
}

#[test]
fn a_line_without_a_request_goes_unanswered() {
    for line in [
        "",
        " \n",
        "{\"jsonrpc\":\"2.0\",\"method\":\"notifications/initialized\"}",
        "{\"jsonrpc\":\"2.0\",\"method\":\"find_running_apps\",\"params\":{}}",
        "{\"jsonrpc\":\"2.0\",\"method\":\"no/such/method\",\"params\":[1]}",
        "{\"method\":\"x\",\"unknown\":true}",
        "[{\"jsonrpc\":\"2.0\",\"method\":\"a\"},{\"method\":5}]",
        "[]",
    ] {
        assert_eq!(serve(line), (vec![], None));
    }
}

#[test]
fn a_request_is_answered_at_once_where_no_tool_runs() {
    assert_eq!(
        serve("{\"jsonrpc\":\"2.0\",\"id\":1,\"method\":\"shutdown\"}"),
        (
            vec![],
            Some("{\"id\":1,\"jsonrpc\":\"2.0\",\"result\":{\"status\":\"shutdown\"}}".to_string())
        )
    );
    assert_eq!(
        serve("not a request"),
        (
            vec![],
            Some("{\"error\":{\"code\":-32700,\"message\":\"Parse error\"},\"id\":null,\"jsonrpc\":\"2.0\"}".to_string())
        )
    );
    assert_eq!(LineJob::open("[]").is_batch(), true);
    assert_eq!(LineJob::open("{}").is_batch(), false);
}

#[test]
fn a_request_for_a_tool_is_answered_once_the_tool_has_run() {
    assert_eq!(
        serve("{\"jsonrpc\":\"2.0\",\"id\":7,\"method\":\"find_running_apps\",\"params\":{}}"),
        (
            vec![ToolCall::FindRunningApps],
            Some("{\"id\":7,\"jsonrpc\":\"2.0\",\"result\":\"found\"}".to_string())
        )
    );
    assert_eq!(
        serve("{\"jsonrpc\":\"2.0\",\"id\":8,\"method\":\"tools/call\",\"params\":{\"name\":\"stop_app\",\"arguments\":{\"process_id\":\"p\"}}}"),
        (
            vec![ToolCall::StopApp { process_id: "p".to_string() }],
            Some("{\"error\":{\"code\":-32602,\"message\":\"Process error: Process not found: p\"},\"id\":8,\"jsonrpc\":\"2.0\"}".to_string())
        )
    );
}

#[test]
fn a_batch_is_answered_in_the_order_of_its_calls() {
    let line = "[{\"jsonrpc\":\"2.0\",\"id\":1,\"method\":\"find_running_apps\",\"params\":{}},{\"jsonrpc\":\"2.0\",\"method\":\"find_running_apps\",\"params\":{}},{\"jsonrpc\":\"2.0\",\"id\":2,\"method\":\"shutdown\"},{\"jsonrpc\":\"2.0\",\"id\":3,\"method\":\"stop_app\",\"params\":{\"process_id\":\"q\"}},{\"id\":4}]";
    assert_eq!(
        serve(line),
        (
            vec![ToolCall::FindRunningApps, ToolCall::StopApp { process_id: "q".to_string() }],
            Some("[{\"id\":1,\"jsonrpc\":\"2.0\",\"result\":\"found\"},{\"id\":2,\"jsonrpc\":\"2.0\",\"result\":{\"status\":\"shutdown\"}},{\"error\":{\"code\":-32602,\"message\":\"Process error: Process not found: q\"},\"id\":3,\"jsonrpc\":\"2.0\"},{\"error\":{\"code\":-32600,\"message\":\"Invalid request\"},\"id\":4,\"jsonrpc\":\"2.0\"}]".to_string())
        )
    );
}

#[test]
fn each_line_is_answered_once_for_each_id_in_it() {
    let count = |line: &str| match serve(line).1 {
        None => 0,
        Some(text) => match Json::parse(&text).expect("a document") {
            Json::Array(replies) => replies.len(),
            _ => 1,
        },
    };
    assert_eq!(count("{\"jsonrpc\":\"2.0\",\"method\":\"shutdown\"}"), 0);
    assert_eq!(count("{\"jsonrpc\":\"2.0\",\"method\":\"shutdown\",\"id\":1}"), 1);
    assert_eq!(count("{\"jsonrpc\":\"2.0\",\"method\":\"shutdown\",\"id\":1.5}"), 1);
    assert_eq!(count("{\"jsonrpc\":\"2.0\",\"method\":\"nope\",\"id\":null}"), 1);
    assert_eq!(count("{}"), 1);
    assert_eq!(count("oops"), 1);
    assert_eq!(
        count("[{\"jsonrpc\":\"2.0\",\"method\":\"a\"},{\"jsonrpc\":\"2.0\",\"method\":\"b\",\"id\":1},{\"jsonrpc\":\"2.0\",\"method\":\"find_running_apps\",\"params\":{},\"id\":2},{\"method\":1}]"),
        2
    );
    for (line, id) in [
        ("{\"jsonrpc\":\"2.0\",\"method\":\"shutdown\",\"id\":41}", Json::PosInt(41)),
        ("{\"jsonrpc\":\"2.0\",\"method\":\"nope\",\"id\":\"q\"}", Json::string("q")),
        ("{\"method\":\"shutdown\",\"id\":null}", Json::Null),
        ("{\"jsonrpc\":\"2.0\",\"method\":\"find_running_apps\",\"params\":{},\"id\":7}", Json::PosInt(7)),
        ("{\"jsonrpc\":\"2.0\",\"method\":\"stop_app\",\"params\":{},\"id\":8}", Json::PosInt(8)),
        ("{\"id\":9,\"x\":1}", Json::PosInt(9)),
    ] {
        let text = serve(line).1.expect("one line");
        let reply = Json::parse(&text).expect("a document");
        assert_eq!(reply.get("id"), Some(&id));
    }
}

#[test]
fn a_tool_that_was_not_run_counts_as_failed() {
    let mut job =
        LineJob::open("{\"jsonrpc\":\"2.0\",\"id\":1,\"method\":\"find_running_apps\",\"params\":{}}");
    assert_eq!(job.next_tool(Some(Ok(Json::Null))), Some(ToolCall::FindRunningApps));
    assert_eq!(job.next_tool(None), None);
    assert_eq!(job.next_tool(Some(Ok(Json::Null))), None);
    assert_eq!(
        job.close(),
        Some("{\"error\":{\"code\":-32602,\"message\":\"Other error: Tool was not run\"},\"id\":1,\"jsonrpc\":\"2.0\"}".to_string())
    );
}
