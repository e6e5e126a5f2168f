use tauri_mcp::catalog::list_tools;
use tauri_mcp::dispatch::ToolCall;
use tauri_mcp::json::Json;
use tauri_mcp::protocol::{
    accepts_version, call_tool, calls_of, classify, classify_with, decode, has_no_id, initialize,
    is_date, malformed, needs_no_answer, plan, plan_method, render, reply_document, shutdown,
    tool_reply, Call, Incoming, MethodPlan, Plan, Reply, RequestId, RpcError,
};
use tauri_mcp::TauriMcpError;

fn json(text: &str) -> Json {
    Json::parse(text).expect("a document")
}

fn answer(line: &str) -> Option<String> {
    match decode(line) {
        Incoming::Blank => None,
        Incoming::Malformed => render(false, &vec![malformed()]),
        Incoming::Single(call) => match plan(call) {
            Plan::Answer(reply) => render(false, &vec![reply]),
            Plan::Silent => render(false, &vec![]),
            Plan::Run { .. } => panic!("the line runs a tool"),
        },
        Incoming::Batch(calls) => {
            let mut replies = Vec::new();
            for call in calls {
                match plan(call) {
                    Plan::Answer(reply) => replies.push(reply),
                    Plan::Silent => {}
                    Plan::Run { .. } => panic!("the line runs a tool"),
                }
            }
            render(true, &replies)
        }
    }
}

fn invalid_params(message: &str) -> RpcError {
    RpcError { code: -32602, message: message.to_string() }
}

#[test]
fn a_line_is_blank_malformed_or_holds_calls() {
    assert_eq!(decode(""), Incoming::Blank);
    assert_eq!(decode("  \t\r\n"), Incoming::Blank);
    assert_eq!(decode("{not json"), Incoming::Malformed);
    assert_eq!(decode("5"), Incoming::Malformed);
    assert_eq!(
        decode("{\"jsonrpc\":\"2.0\",\"id\":1,\"method\":\"shutdown\"}\n"),
        Incoming::Single(Call::Method {
            version_ok: true,
            method: "shutdown".to_string(),
            params: Json::Null,
            id: RequestId::Num(1),
        })
    );
    assert_eq!(
        decode("{\"jsonrpc\":\"2.0\",\"method\":\"notifications/initialized\"}"),
        Incoming::Single(Call::Notification {
            version_ok: true,
            method: "notifications/initialized".to_string(),
            params: Json::Null,
        })
    );
    assert_eq!(
        decode("{\"id\":\"a\",\"method\":\"m\",\"params\":[1]}"),
        Incoming::Single(Call::Method {
            version_ok: false,
            method: "m".to_string(),
            params: json("[1]"),
            id: RequestId::Str("a".to_string()),
        })
    );
    assert_eq!(
        decode("{\"jsonrpc\":\"2.0\",\"id\":null,\"method\":\"m\",\"params\":{\"k\":1}}"),
        Incoming::Single(Call::Method {
            version_ok: true,
            method: "m".to_string(),
            params: json("{\"k\":1}"),
            id: RequestId::Null,
        })
    );
    assert_eq!(
        decode("{\"jsonrpc\":\"2.0\",\"id\":7,\"extra\":true}"),
        Incoming::Single(Call::Invalid { id: RequestId::Num(7) })
    );
    assert_eq!(decode("{}"), Incoming::Single(Call::Invalid { id: RequestId::Null }));
    assert_eq!(decode("[]"), Incoming::Batch(vec![]));
    assert_eq!(
        decode("[{\"jsonrpc\":\"2.0\",\"method\":\"a\"},{\"jsonrpc\":\"2.0\",\"id\":2,\"method\":\"b\"}]"),
        Incoming::Batch(vec![
            Call::Notification {
                version_ok: true,
                method: "a".to_string(),
                params: Json::Null,
            },
            Call::Method {
                version_ok: true,
                method: "b".to_string(),
                params: Json::Null,
                id: RequestId::Num(2),
            },
        ])
    );
}

#[test]
fn classify_reads_a_call_from_a_document() {
    assert_eq!(
        classify(&json("{\"jsonrpc\":\"2.0\",\"method\":\"m\",\"id\":3}")),
        Call::Method {
            version_ok: true,
            method: "m".to_string(),
            params: Json::Null,
            id: RequestId::Num(3),
        }
    );
    assert_eq!(
        classify(&json("{\"jsonrpc\":\"1.0\",\"method\":\"m\"}")),
        Call::Notification { version_ok: false, method: "m".to_string(), params: Json::Null }
    );
    assert_eq!(classify(&json("{\"method\":5,\"id\":-1}")), Call::Invalid { id: RequestId::Null });
    assert_eq!(classify(&json("[1]")), Call::Invalid { id: RequestId::Null });
}

#[test]
fn a_notification_is_never_answered() {
    assert_eq!(answer("{\"jsonrpc\":\"2.0\",\"method\":\"notifications/initialized\"}"), None);
    assert_eq!(answer("{\"jsonrpc\":\"2.0\",\"method\":\"no/such/method\"}"), None);
    assert_eq!(answer("{\"jsonrpc\":\"2.0\",\"method\":\"launch_app\",\"params\":{}}"), None);
    assert_eq!(answer("{\"jsonrpc\":\"2.0\",\"method\":\"initialize\",\"params\":[]}"), None);
    assert_eq!(answer("{\"method\":\"shutdown\"}"), None);
    assert_eq!(
        answer("[{\"jsonrpc\":\"2.0\",\"method\":\"a\"},{\"jsonrpc\":\"2.0\",\"method\":\"b\"}]"),
        None
    );
    assert_eq!(answer("[]"), None);
    assert_eq!(answer("   "), None);
    assert_eq!(
        plan(Call::Notification {
            version_ok: true,
            method: "tools/list".to_string(),
            params: Json::Null
        }),
        Plan::Silent
    );
}

#[test]
fn a_document_with_a_method_and_no_id_is_never_answered() {
    for line in [
        "{\"jsonrpc\":\"2.0\",\"method\":\"x\",\"extra\":1}",
        "{\"method\":5}",
        "{\"method\":null}",
        "{\"jsonrpc\":\"1.0\",\"method\":\"m\"}",
        "{\"jsonrpc\":\"2.0\",\"method\":\"m\",\"params\":5}",
    ] {
        assert_eq!(decode(line), Incoming::Single(Call::Unanswered));
        assert_eq!(answer(line), None);
    }
    assert_eq!(plan(Call::Unanswered), Plan::Silent);
    assert_eq!(
        decode("[{\"jsonrpc\":\"2.0\",\"method\":\"a\",\"x\":1},{\"jsonrpc\":\"2.0\",\"id\":1,\"method\":\"shutdown\"},{\"x\":1}]"),
        Incoming::Batch(vec![
            Call::Unanswered,
            Call::Method {
                version_ok: true,
                method: "shutdown".to_string(),
                params: Json::Null,
                id: RequestId::Num(1),
            },
            Call::Invalid { id: RequestId::Null },
        ])
    );
    assert_eq!(
        answer("[{\"jsonrpc\":\"2.0\",\"method\":\"a\",\"x\":1},{\"method\":7}]"),
        None
    );
    assert_eq!(
        classify_with(&json("{\"method\":7}"), &json("{\"id\":null}")),
        Call::Unanswered
    );
    assert_eq!(
        classify_with(&json("{\"method\":\"m\",\"id\":1.5}"), &json("{\"id\":null}")),
        Call::Invalid { id: RequestId::Null }
    );
    assert!(has_no_id(&json("{\"method\":\"m\"}")));
    assert!(!has_no_id(&json("{\"method\":\"m\",\"id\":null}")));
    assert!(!has_no_id(&json("{\"id\":1}")));
    assert!(!has_no_id(&json("[\"method\"]")));
}

#[test]
fn a_line_is_a_batch_only_where_its_document_is_an_array() {
    let notification = json("{\"jsonrpc\":\"2.0\",\"method\":\"m\"}");
    let request = json("{\"jsonrpc\":\"2.0\",\"method\":\"m\",\"id\":1}");
    let read_as_batch = json("[{\"jsonrpc\":\"2.0\",\"method\":\"m\",\"params\":null,\"id\":1}]");
    assert_eq!(calls_of(&notification, &read_as_batch), Incoming::Single(Call::Unanswered));
    assert_eq!(
        calls_of(&request, &read_as_batch),
        Incoming::Single(Call::Invalid { id: RequestId::Num(1) })
    );
    let batch = json("[{\"jsonrpc\":\"2.0\",\"method\":\"a\"},{\"jsonrpc\":\"2.0\",\"method\":\"b\",\"id\":\"x\"},{\"id\":3}]");
    let by_itself = Incoming::Batch(vec![
        Call::Notification { version_ok: true, method: "a".to_string(), params: Json::Null },
        Call::Method {
            version_ok: true,
            method: "b".to_string(),
            params: Json::Null,
            id: RequestId::Str("x".to_string()),
        },
        Call::Invalid { id: RequestId::Num(3) },
    ]);
    assert_eq!(calls_of(&batch, &request), by_itself);
    assert_eq!(calls_of(&batch, &json("[]")), by_itself);
    assert_eq!(calls_of(&batch, &batch), by_itself);
    assert_eq!(calls_of(&json("[]"), &request), Incoming::Batch(vec![]));
}

#[test]
fn a_request_is_answered_under_the_id_of_its_document() {
    let read = json("{\"jsonrpc\":\"2.0\",\"method\":\"m\",\"params\":null,\"id\":9}");
    assert_eq!(
        classify_with(&json("{\"jsonrpc\":\"2.0\",\"method\":\"m\",\"id\":1}"), &read),
        Call::Method {
            version_ok: true,
            method: "m".to_string(),
            params: Json::Null,
            id: RequestId::Num(1),
        }
    );
    assert_eq!(
        classify_with(
            &json("{\"method\":\"m\",\"id\":\"a\"}"),
            &json("{\"jsonrpc\":\"2.0\",\"method\":\"m\",\"params\":null}")
        ),
        Call::Invalid { id: RequestId::Str("a".to_string()) }
    );
    assert_eq!(
        classify_with(&json("{\"id\":null}"), &json("{\"id\":4}")),
        Call::Invalid { id: RequestId::Null }
    );
    assert_eq!(classify_with(&json("7"), &json("{\"id\":4}")), Call::Invalid { id: RequestId::Null });
}

#[test]
fn what_asks_for_no_answer() {
    assert!(needs_no_answer(&json("{\"method\":\"m\"}")));
    assert!(needs_no_answer(&json("[]")));
    assert!(needs_no_answer(&json("[{\"method\":\"a\"},{\"method\":5,\"x\":1}]")));
    assert!(!needs_no_answer(&json("[{\"method\":\"a\"},{\"method\":\"b\",\"id\":1}]")));
    assert!(!needs_no_answer(&json("[{\"method\":\"a\"},5]")));
    assert!(!needs_no_answer(&json("{\"method\":\"m\",\"id\":null}")));
    assert!(!needs_no_answer(&json("{}")));
    assert!(!needs_no_answer(&json("5")));
}

#[test]
fn a_request_with_an_id_that_is_none_is_answered_as_unreadable() {
    assert_eq!(decode("{\"jsonrpc\":\"2.0\",\"method\":\"m\",\"id\":1.5}"), Incoming::Malformed);
    assert_eq!(decode("{\"jsonrpc\":\"2.0\",\"method\":\"m\",\"id\":[1]}"), Incoming::Malformed);
    assert_eq!(decode("[1]"), Incoming::Malformed);
    assert_eq!(
        answer("{\"jsonrpc\":\"2.0\",\"method\":\"m\",\"id\":-1}"),
        Some("{\"error\":{\"code\":-32700,\"message\":\"Parse error\"},\"id\":null,\"jsonrpc\":\"2.0\"}".to_string())
    );
}

#[test]
fn every_request_gets_one_response() {
    assert_eq!(
        answer("{\"jsonrpc\":\"2.0\",\"id\":1,\"method\":\"shutdown\"}"),
        Some("{\"id\":1,\"jsonrpc\":\"2.0\",\"result\":{\"status\":\"shutdown\"}}".to_string())
    );
    assert_eq!(
        answer("{\"jsonrpc\":\"2.0\",\"id\":\"x\",\"method\":\"no/such\"}"),
        Some("{\"error\":{\"code\":-32601,\"message\":\"Method not found\"},\"id\":\"x\",\"jsonrpc\":\"2.0\"}".to_string())
    );
    assert_eq!(
        answer("{\"jsonrpc\":\"2.0\",\"id\":1,\"method\":\"notifications/initialized\"}"),
        Some("{\"error\":{\"code\":-32601,\"message\":\"Method not found\"},\"id\":1,\"jsonrpc\":\"2.0\"}".to_string())
    );
    assert_eq!(
        answer("this is not json"),
        Some("{\"error\":{\"code\":-32700,\"message\":\"Parse error\"},\"id\":null,\"jsonrpc\":\"2.0\"}".to_string())
    );
    assert_eq!(
        answer("{\"id\":4}"),
        Some("{\"error\":{\"code\":-32600,\"message\":\"Invalid request\"},\"id\":4,\"jsonrpc\":\"2.0\"}".to_string())
    );
    assert_eq!(
        answer("{\"id\":4,\"method\":\"shutdown\"}"),
        Some("{\"error\":{\"code\":-32600,\"message\":\"Unsupported JSON-RPC protocol version\"},\"id\":4}".to_string())
    );
    assert_eq!(
        answer("[{\"jsonrpc\":\"2.0\",\"id\":1,\"method\":\"shutdown\"},{\"jsonrpc\":\"2.0\",\"method\":\"shutdown\"},{\"jsonrpc\":\"2.0\",\"id\":2,\"method\":\"nope\"}]"),
        Some("[{\"id\":1,\"jsonrpc\":\"2.0\",\"result\":{\"status\":\"shutdown\"}},{\"error\":{\"code\":-32601,\"message\":\"Method not found\"},\"id\":2,\"jsonrpc\":\"2.0\"}]".to_string())
    );
}

#[test]
fn initialize_accepts_known_and_dated_versions() {
    for version in ["1.0", "2024-11-05", "2025-06-18", "0000-00-00", "9999-99-99"] {
        assert!(accepts_version(version));
        let answered = initialize(version, &Json::Null).expect("accepted");
        assert_eq!(answered.get("protocolVersion"), Some(&Json::string(version)));
    }
    assert_eq!(
        initialize("2024-11-05", &Json::Null).map(|j| j.to_text()),
        Ok("{\"capabilities\":{\"logging\":{},\"prompts\":{},\"resources\":{},\"tools\":{\"listTools\":true}},\"protocolVersion\":\"2024-11-05\",\"serverInfo\":{\"description\":\"MCP server for testing and interacting with Tauri v2 applications\",\"name\":\"tauri-mcp\",\"version\":\"0.1.0\"}}".to_string())
    );
}

#[test]
fn initialize_refuses_other_versions() {
    assert_eq!(
        initialize("abc", &Json::Null),
        Err(invalid_params(
            "Unsupported protocol version: abc. Supported versions: [\"1.0\", \"2024-11-05\"]. Date-based versions (YYYY-MM-DD) are also accepted."
        ))
    );
    for version in ["", "2.0", "1.0 ", "2024-11-5", "2024/11/05", "20241105", "abcd-ef-gh",
        "2024-11-050", "٢٠٢٤-11-05"]
    {
        assert!(!accepts_version(version));
        assert!(initialize(version, &Json::Null).is_err());
    }
    assert!(is_date("1999-12-31"));
    assert!(!is_date("1999-12-3a"));
}

#[test]
fn initialize_through_the_method_table() {
    assert_eq!(
        plan_method("initialize", &json("{\"protocolVersion\":\"2024-11-05\",\"capabilities\":{}}")),
        MethodPlan::Answer(initialize("2024-11-05", &Json::Null))
    );
    assert_eq!(
        plan_method("initialize", &json("{}")),
        MethodPlan::Answer(initialize("1.0", &Json::Null))
    );
    assert_eq!(
        plan_method("initialize", &json("{\"protocolVersion\":7}")),
        MethodPlan::Answer(initialize("1.0", &Json::Null))
    );
    assert!(matches!(
        plan_method("initialize", &json("{\"protocolVersion\":\"abc\"}")),
        MethodPlan::Answer(Err(RpcError { code: -32602, .. }))
    ));
    assert_eq!(
        plan_method("initialize", &Json::Null),
        MethodPlan::Answer(Err(invalid_params("Expected object parameters")))
    );
    assert_eq!(
        plan_method("initialize", &json("[\"1.0\"]")),
        MethodPlan::Answer(Err(invalid_params("Expected object parameters")))
    );
}

#[test]
fn the_method_table() {
    assert_eq!(plan_method("shutdown", &Json::Null), MethodPlan::Answer(Ok(shutdown())));
    assert_eq!(plan_method("shutdown", &json("[1]")), MethodPlan::Answer(Ok(shutdown())));
    assert_eq!(plan_method("tools/list", &Json::Null), MethodPlan::Answer(Ok(list_tools())));
    assert_eq!(
        plan_method("tools/call", &Json::Null),
        MethodPlan::Answer(Err(invalid_params("Expected object parameters")))
    );
    assert_eq!(
        plan_method("stop_app", &json("{\"process_id\":\"p\"}")),
        MethodPlan::Run(ToolCall::StopApp { process_id: "p".to_string() })
    );
    assert_eq!(
        plan_method("stop_app", &json("{}")),
        MethodPlan::Answer(Err(invalid_params("Missing process_id")))
    );
    assert_eq!(
        plan_method("find_running_apps", &Json::Null),
        MethodPlan::Answer(Err(invalid_params("Expected object parameters")))
    );
    assert_eq!(
        plan_method("find_running_apps", &json("{}")),
        MethodPlan::Run(ToolCall::FindRunningApps)
    );
    assert_eq!(
        plan_method("nope", &json("{}")),
        MethodPlan::Answer(Err(RpcError { code: -32601, message: "Method not found".to_string() }))
    );
}

#[test]
fn tools_call_resolves_the_named_tool() {
    assert_eq!(
        call_tool(&json("{\"name\":\"stop_app\",\"arguments\":{\"process_id\":\"p\"}}")),
        MethodPlan::Run(ToolCall::StopApp { process_id: "p".to_string() })
    );
    assert_eq!(
        call_tool(&json("{\"name\":\"find_running_apps\"}")),
        MethodPlan::Run(ToolCall::FindRunningApps)
    );
    assert_eq!(
        call_tool(&json("{\"name\":\"stop_app\"}")),
        MethodPlan::Answer(Err(invalid_params("Missing process_id")))
    );
    assert_eq!(
        call_tool(&json("{\"name\":\"stop_app\",\"arguments\":\"p\"}")),
        MethodPlan::Answer(Err(invalid_params("Missing process_id")))
    );
    assert_eq!(
        call_tool(&json("{\"arguments\":{}}")),
        MethodPlan::Answer(Err(invalid_params("Missing tool name")))
    );
    assert_eq!(
        call_tool(&json("{\"name\":5}")),
        MethodPlan::Answer(Err(invalid_params("Missing tool name")))
    );
    assert_eq!(
        call_tool(&json("{\"name\":\"tools/list\"}")),
        MethodPlan::Answer(Err(RpcError { code: -32601, message: "Method not found".to_string() }))
    );
    assert_eq!(
        plan_method("tools/call", &json("{\"name\":\"attach_to_app\",\"arguments\":{\"pid\":9}}")),
        plan_method("attach_to_app", &json("{\"pid\":9}"))
    );
}

#[test]
fn a_request_for_a_tool_is_run_under_its_id() {
    assert_eq!(
        plan(Call::Method {
            version_ok: true,
            method: "get_app_logs".to_string(),
            params: json("{\"process_id\":\"p\",\"lines\":3}"),
            id: RequestId::Str("r1".to_string()),
        }),
        Plan::Run {
            id: RequestId::Str("r1".to_string()),
            call: ToolCall::GetAppLogs { process_id: "p".to_string(), lines: Some(3) },
        }
    );
}

#[test]
fn the_outcome_of_a_tool_becomes_the_reply() {
    assert_eq!(
        tool_reply(RequestId::Num(1), Ok(shutdown())),
        Reply { versioned: true, id: RequestId::Num(1), outcome: Ok(shutdown()) }
    );
    assert_eq!(
        tool_reply(
            RequestId::Num(1),
            Err(TauriMcpError::ProcessError("Process not found: p".to_string()))
        ),
        Reply {
            versioned: true,
            id: RequestId::Num(1),
            outcome: Err(invalid_params("Process error: Process not found: p")),
        }
    );
}

#[test]
fn a_reply_as_a_response_object() {
    assert_eq!(
        reply_document(&Reply {
            versioned: true,
            id: RequestId::Null,
            outcome: Ok(Json::PosInt(1)),
        })
        .to_text(),
        "{\"id\":null,\"jsonrpc\":\"2.0\",\"result\":1}"
    );
    assert_eq!(
        reply_document(&Reply {
            versioned: false,
            id: RequestId::Str("a".to_string()),
            outcome: Err(RpcError { code: 5, message: "m".to_string() }),
        })
        .to_text(),
        "{\"error\":{\"code\":5,\"message\":\"m\"},\"id\":\"a\"}"
    );
    assert_eq!(render(false, &vec![]), None);
    assert_eq!(render(true, &vec![]), None);
    assert_eq!(
        render(true, &vec![malformed()]),
        Some("[{\"error\":{\"code\":-32700,\"message\":\"Parse error\"},\"id\":null,\"jsonrpc\":\"2.0\"}]".to_string())
    );
}
