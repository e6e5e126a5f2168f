use tauri_mcp::dispatch::{
    is_tool, resolve, string_items, wrapped_i32, wrapped_u32, ResolveError, ToolCall,
};
use tauri_mcp::json::Json;

fn args(text: &str) -> Json {
    Json::parse(text).expect("a document")
}

fn missing(what: &str) -> Result<ToolCall, ResolveError> {
    Err(ResolveError::Missing(what.to_string()))
}

const TOOLS: [&str; 14] = [
    "launch_app",
    "stop_app",
    "get_app_logs",
    "take_screenshot",
    "get_window_info",
    "send_keyboard_input",
    "send_mouse_click",
    "execute_js",
    "get_devtools_info",
    "monitor_resources",
    "list_ipc_handlers",
    "call_ipc_command",
    "find_running_apps",
    "attach_to_app",
];

#[test]
fn launch_app_takes_a_path_and_string_arguments() {
    assert_eq!(
        resolve("launch_app", &args("{\"app_path\":\"/bin/true\"}")),
        Ok(ToolCall::LaunchApp { app_path: "/bin/true".to_string(), args: vec![] })
    );
    assert_eq!(
        resolve("launch_app", &args("{\"app_path\":\"/a\",\"args\":[\"-v\",1,\"x\",null]}")),
        Ok(ToolCall::LaunchApp {
            app_path: "/a".to_string(),
            args: vec!["-v".to_string(), "x".to_string()]
        })
    );
    assert_eq!(
        resolve("launch_app", &args("{\"app_path\":\"/a\",\"args\":\"-v\"}")),
        Ok(ToolCall::LaunchApp { app_path: "/a".to_string(), args: vec![] })
    );
    assert_eq!(resolve("launch_app", &args("{}")), missing("app_path"));
    assert_eq!(resolve("launch_app", &args("{\"app_path\":5}")), missing("app_path"));
    assert_eq!(resolve("launch_app", &args("[]")), missing("app_path"));
}

#[test]
fn tools_that_take_only_a_process_id() {
    let with_id = args("{\"process_id\":\"p1\"}");
    let id = || "p1".to_string();
    assert_eq!(resolve("stop_app", &with_id), Ok(ToolCall::StopApp { process_id: id() }));
    assert_eq!(
        resolve("get_window_info", &with_id),
        Ok(ToolCall::GetWindowInfo { process_id: id() })
    );
    assert_eq!(
        resolve("get_devtools_info", &with_id),
        Ok(ToolCall::GetDevtoolsInfo { process_id: id() })
    );
    assert_eq!(
        resolve("monitor_resources", &with_id),
        Ok(ToolCall::MonitorResources { process_id: id() })
    );
    assert_eq!(
        resolve("list_ipc_handlers", &with_id),
        Ok(ToolCall::ListIpcHandlers { process_id: id() })
    );
    for tool in ["stop_app", "get_window_info", "get_devtools_info", "monitor_resources",
        "list_ipc_handlers", "get_app_logs", "take_screenshot", "send_keyboard_input",
        "send_mouse_click", "execute_js", "call_ipc_command"]
    {
        assert_eq!(resolve(tool, &args("{}")), missing("process_id"));
        assert_eq!(resolve(tool, &args("{\"process_id\":17}")), missing("process_id"));
    }
}

#[test]
fn optional_arguments_of_the_wrong_type_count_as_absent() {
    assert_eq!(
        resolve("get_app_logs", &args("{\"process_id\":\"p\",\"lines\":20}")),
        Ok(ToolCall::GetAppLogs { process_id: "p".to_string(), lines: Some(20) })
    );
    assert_eq!(
        resolve("get_app_logs", &args("{\"process_id\":\"p\",\"lines\":-1}")),
        Ok(ToolCall::GetAppLogs { process_id: "p".to_string(), lines: None })
    );
    assert_eq!(
        resolve("get_app_logs", &args("{\"process_id\":\"p\",\"lines\":2.5}")),
        Ok(ToolCall::GetAppLogs { process_id: "p".to_string(), lines: None })
    );
    assert_eq!(
        resolve("get_app_logs", &args("{\"process_id\":\"p\"}")),
        Ok(ToolCall::GetAppLogs { process_id: "p".to_string(), lines: None })
    );
    assert_eq!(
        resolve("take_screenshot", &args("{\"process_id\":\"p\",\"output_path\":\"/tmp/s.png\"}")),
        Ok(ToolCall::TakeScreenshot {
            process_id: "p".to_string(),
            output_path: Some("/tmp/s.png".to_string())
        })
    );
    assert_eq!(
        resolve("take_screenshot", &args("{\"process_id\":\"p\",\"output_path\":1}")),
        Ok(ToolCall::TakeScreenshot { process_id: "p".to_string(), output_path: None })
    );
}

#[test]
fn tools_with_a_second_required_string() {
    assert_eq!(
        resolve("send_keyboard_input", &args("{\"process_id\":\"p\",\"keys\":\"hi\"}")),
        Ok(ToolCall::SendKeyboardInput { process_id: "p".to_string(), keys: "hi".to_string() })
    );
    assert_eq!(
        resolve("send_keyboard_input", &args("{\"process_id\":\"p\"}")),
        missing("keys")
    );
    assert_eq!(
        resolve("execute_js", &args("{\"process_id\":\"p\",\"javascript_code\":\"1+1\"}")),
        Ok(ToolCall::ExecuteJs {
            process_id: "p".to_string(),
            javascript_code: "1+1".to_string()
        })
    );
    assert_eq!(resolve("execute_js", &args("{\"process_id\":\"p\"}")), missing("javascript_code"));
    assert_eq!(
        resolve("call_ipc_command", &args("{\"process_id\":\"p\",\"command_name\":\"greet\"}")),
        Ok(ToolCall::CallIpcCommand {
            process_id: "p".to_string(),
            command_name: "greet".to_string(),
            payload: Json::Null
        })
    );
    assert_eq!(
        resolve(
            "call_ipc_command",
            &args("{\"process_id\":\"p\",\"command_name\":\"greet\",\"args\":{\"n\":1}}")
        ),
        Ok(ToolCall::CallIpcCommand {
            process_id: "p".to_string(),
            command_name: "greet".to_string(),
            payload: args("{\"n\":1}")
        })
    );
    assert_eq!(
        resolve("call_ipc_command", &args("{\"process_id\":\"p\"}")),
        missing("command_name")
    );
}

#[test]
fn mouse_click_checks_its_arguments_in_order() {
    assert_eq!(
        resolve("send_mouse_click", &args("{\"process_id\":\"p\",\"x\":10,\"y\":-20}")),
        Ok(ToolCall::SendMouseClick {
            process_id: "p".to_string(),
            x: 10,
            y: -20,
            button: "left".to_string()
        })
    );
    assert_eq!(
        resolve(
            "send_mouse_click",
            &args("{\"process_id\":\"p\",\"x\":1,\"y\":2,\"button\":\"Right\"}")
        ),
        Ok(ToolCall::SendMouseClick {
            process_id: "p".to_string(),
            x: 1,
            y: 2,
            button: "Right".to_string()
        })
    );
    assert_eq!(
        resolve("send_mouse_click", &args("{\"process_id\":\"p\",\"y\":2}")),
        missing("x coordinate")
    );
    assert_eq!(
        resolve("send_mouse_click", &args("{\"process_id\":\"p\",\"x\":1.5,\"y\":2}")),
        missing("x coordinate")
    );
    assert_eq!(
        resolve("send_mouse_click", &args("{\"process_id\":\"p\",\"x\":1}")),
        missing("y coordinate")
    );
    assert_eq!(resolve("send_mouse_click", &args("{\"x\":1,\"y\":2}")), missing("process_id"));
    assert_eq!(
        resolve("send_mouse_click", &args("{\"process_id\":\"p\",\"x\":4294967297,\"y\":2147483648}")),
        Ok(ToolCall::SendMouseClick {
            process_id: "p".to_string(),
            x: 1,
            y: -2147483648,
            button: "left".to_string()
        })
    );
}

#[test]
fn tools_without_a_process_id() {
    assert_eq!(resolve("find_running_apps", &args("{}")), Ok(ToolCall::FindRunningApps));
    assert_eq!(resolve("find_running_apps", &Json::Null), Ok(ToolCall::FindRunningApps));
    assert_eq!(
        resolve("attach_to_app", &args("{\"pid\":4242}")),
        Ok(ToolCall::AttachToApp { pid: 4242 })
    );
    assert_eq!(
        resolve("attach_to_app", &args("{\"pid\":4294967296}")),
        Ok(ToolCall::AttachToApp { pid: 0 })
    );
    assert_eq!(resolve("attach_to_app", &args("{\"pid\":\"4242\"}")), missing("pid"));
    assert_eq!(resolve("attach_to_app", &args("{\"pid\":-1}")), missing("pid"));
    assert_eq!(resolve("attach_to_app", &args("{}")), missing("pid"));
}

#[test]
fn an_unknown_name_is_no_tool() {
    assert_eq!(resolve("launch", &args("{}")), Err(ResolveError::UnknownTool));
    assert_eq!(resolve("", &args("{}")), Err(ResolveError::UnknownTool));
    assert_eq!(resolve("tools/list", &args("{}")), Err(ResolveError::UnknownTool));
    assert_eq!(resolve("Launch_App", &args("{\"app_path\":\"/a\"}")), Err(ResolveError::UnknownTool));
    assert!(!is_tool("launch"));
    assert!(!is_tool("tools/call"));
    for tool in TOOLS {
        assert!(is_tool(tool));
        assert_ne!(resolve(tool, &args("{}")), Err(ResolveError::UnknownTool));
    }
}

#[test]
fn numbers_are_reduced_to_32_bits() {
    assert_eq!(wrapped_u32(0), 0);
    assert_eq!(wrapped_u32(4294967295), 4294967295);
    assert_eq!(wrapped_u32(4294967296), 0);
    assert_eq!(wrapped_u32(u64::MAX), 4294967295);
    assert_eq!(wrapped_i32(0), 0);
    assert_eq!(wrapped_i32(-1), -1);
    assert_eq!(wrapped_i32(2147483647), 2147483647);
    assert_eq!(wrapped_i32(2147483648), -2147483648);
    assert_eq!(wrapped_i32(-2147483648), -2147483648);
    assert_eq!(wrapped_i32(-2147483649), 2147483647);
    assert_eq!(wrapped_i32(i64::MAX), -1);
    assert_eq!(wrapped_i32(i64::MIN), 0);
    for n in [5i64, -5, 1 << 40, -(1 << 40), 123456789012345, -123456789012345] {
        assert_eq!(wrapped_i32(n), n as i32);
    }
    for n in [5u64, 1 << 40, 123456789012345] {
        assert_eq!(wrapped_u32(n), n as u32);
    }
}

#[test]
fn string_items_leaves_out_what_is_no_string() {
    assert_eq!(
        string_items(&vec![Json::string("a"), Json::Null, Json::string("b"), Json::PosInt(1)]),
        vec!["a".to_string(), "b".to_string()]
    );
    assert_eq!(string_items(&vec![]), Vec::<String>::new());
}
