use tauri_mcp::dispatch::ToolCall;
use tauri_mcp::json::Json;
use tauri_mcp::protocol::{decode, plan, render, tool_reply, Incoming, Plan};
use tauri_mcp::server::{
    reported_session, Effect, Execution, Outcome, ServerConfig, Step, TauriMcpServer,
};
use tauri_mcp::tools::input::{Direction, InputAction, MouseButton};
use tauri_mcp::tools::logs::Stream;
use tauri_mcp::tools::process::{ProcessEntry, ProcessSnapshot, SpawnOutcome};
use tauri_mcp::tools::window::{Capture, Platform};
use tauri_mcp::TauriMcpError;

fn server() -> TauriMcpServer {
    TauriMcpServer::new(ServerConfig::default(), Platform::Linux)
}

fn text(r: Result<Json, TauriMcpError>) -> Result<String, TauriMcpError> {
    r.map(|j| j.to_text())
}

fn launch(server: &mut TauriMcpServer, pid: u32) -> String {
    let call = ToolCall::LaunchApp { app_path: "/bin/true".to_string(), args: vec![] };
    let answer = server
        .finish(&call, Outcome::Spawned(SpawnOutcome::Spawned { pid }))
        .expect("launched");
    reported_session(&answer).expect("an id")
}

#[test]
fn the_session_that_an_answer_reports() {
    assert_eq!(
        reported_session(&Json::object().with("process_id", Json::string("abc"))),
        Some("abc".to_string())
    );
    assert_eq!(reported_session(&Json::object().with("process_id", Json::PosInt(1))), None);
    assert_eq!(reported_session(&Json::object().with("status", Json::string("stopped"))), None);
    assert_eq!(reported_session(&Json::Null), None);
}

/// Serves one line the way a caller does that can start and kill nothing:
/// every spawn succeeds with the process id 4242 and every kill succeeds.
fn serve(server: &mut TauriMcpServer, line: &str) -> Option<String> {
    let call = match decode(line) {
        Incoming::Single(call) => call,
        _ => panic!("one call is expected"),
    };
    let reply = match plan(call) {
        Plan::Silent => return render(false, &vec![]),
        Plan::Answer(reply) => reply,
        Plan::Run { id, call } => {
            let outcome = match server.begin(&call) {
                Step::Done(outcome) => outcome,
                Step::Need(Effect::Spawn { .. }) => {
                    server.finish(&call, Outcome::Spawned(SpawnOutcome::Spawned { pid: 4242 }))
                }
                Step::Need(Effect::Kill { pid, .. }) => {
                    assert_eq!(pid, 4242);
                    server.finish(&call, Outcome::Killed(Ok(())))
                }
                Step::Need(effect) => panic!("unexpected effect {:?}", effect),
            };
            tool_reply(id, outcome)
        }
    };
    render(false, &vec![reply])
}

#[test]
fn test_server_creation() {
    let server = TauriMcpServer::new(ServerConfig::default(), Platform::Linux);
    assert_eq!(server.sessions().len(), 0);
}

#[test]
fn default_configuration() {
    let config = ServerConfig::default();
    assert!(config.auto_discover);
    assert!(config.session_management);
    assert!(!config.event_streaming);
    assert!(!config.performance_profiling);
    assert!(!config.network_interception);
    assert_eq!(server().config(), config);
    assert_eq!(server().sessions().len(), 0);
}

#[test]
fn launch_then_stop_then_logs_of_an_unknown_session() {
    let mut server = server();
    let launched = serve(
        &mut server,
        "{\"jsonrpc\":\"2.0\",\"id\":1,\"method\":\"launch_app\",\"params\":{\"app_path\":\"/bin/true\"}}",
    )
    .expect("one line");
    let answer = Json::parse(&launched).expect("a document");
    assert_eq!(answer.get("jsonrpc"), Some(&Json::string("2.0")));
    assert_eq!(answer.get("id"), Some(&Json::PosInt(1)));
    let result = answer.get("result").expect("a result");
    assert_eq!(result.get("status"), Some(&Json::string("launched")));
    let id = result.get("process_id").and_then(|id| id.as_str()).expect("an id").to_string();
    assert_eq!(id.len(), 36);
    assert_eq!(id.split('-').map(|part| part.len()).collect::<Vec<_>>(), vec![8, 4, 4, 4, 12]);
    assert_eq!(
        launched,
        format!(
            "{{\"id\":1,\"jsonrpc\":\"2.0\",\"result\":{{\"process_id\":\"{}\",\"status\":\"launched\"}}}}",
            id
        )
    );
    assert_eq!(server.sessions(), vec![id.clone()]);

    let stopped = serve(
        &mut server,
        &format!(
            "{{\"jsonrpc\":\"2.0\",\"id\":2,\"method\":\"stop_app\",\"params\":{{\"process_id\":\"{}\"}}}}",
            id
        ),
    );
    assert_eq!(
        stopped,
        Some("{\"id\":2,\"jsonrpc\":\"2.0\",\"result\":{\"status\":\"stopped\"}}".to_string())
    );
    assert_eq!(server.sessions().len(), 0);

    let logs = serve(
        &mut server,
        &format!(
            "{{\"jsonrpc\":\"2.0\",\"id\":3,\"method\":\"get_app_logs\",\"params\":{{\"process_id\":\"{}\"}}}}",
            id
        ),
    );
    assert_eq!(
        logs,
        Some(format!(
            "{{\"error\":{{\"code\":-32602,\"message\":\"Process error: Process not found: {}\"}},\"id\":3,\"jsonrpc\":\"2.0\"}}",
            id
        ))
    );
}

#[test]
fn a_launched_session_resolves_at_once() {
    let mut server = server();
    let first = launch(&mut server, 10);
    let second = launch(&mut server, 11);
    assert_ne!(first, second);
    assert_eq!(
        text(match server.begin(&ToolCall::GetAppLogs { process_id: first.clone(), lines: None }) {
            Step::Done(r) => r,
            Step::Need(_) => panic!("nothing is needed"),
        }),
        Ok("{\"logs\":[]}".to_string())
    );
    assert_eq!(
        server.begin(&ToolCall::MonitorResources { process_id: second.clone() }),
        Step::Need(Effect::Snapshot { process_id: second, pid: 11 })
    );
}

#[test]
fn the_log_is_read_through_the_tool() {
    let mut server = server();
    let id = launch(&mut server, 10);
    assert!(server.push_log(&id, Stream::Stdout, "one"));
    assert!(server.push_log(&id, Stream::Stderr, "two"));
    assert!(server.push_log(&id, Stream::Stdout, "three"));
    assert!(!server.push_log("nobody", Stream::Stdout, "lost"));
    let read = |server: &mut TauriMcpServer, lines: Option<u64>| match server
        .begin(&ToolCall::GetAppLogs { process_id: id.clone(), lines })
    {
        Step::Done(r) => text(r),
        Step::Need(_) => panic!("nothing is needed"),
    };
    assert_eq!(
        read(&mut server, Some(2)),
        Ok("{\"logs\":[\"[stderr] two\",\"[stdout] three\"]}".to_string())
    );
    assert_eq!(read(&mut server, None), Ok("{\"logs\":[]}".to_string()));
    server.push_log(&id, Stream::Stdout, "four");
    assert_eq!(
        read(&mut server, Some(u64::MAX)),
        Ok("{\"logs\":[\"[stdout] four\"]}".to_string())
    );
}

#[test]
fn stop_asks_for_the_kill_of_what_the_server_started() {
    let mut server = server();
    let id = launch(&mut server, 10);
    let call = ToolCall::StopApp { process_id: id.clone() };
    assert_eq!(
        server.begin(&call),
        Step::Need(Effect::Kill { process_id: id.clone(), pid: 10 })
    );
    assert_eq!(
        server.finish(&call, Outcome::Killed(Err("busy".to_string()))),
        Err(TauriMcpError::ProcessError("Failed to kill process: busy".to_string()))
    );
    assert_eq!(server.sessions(), vec![id.clone()]);
    assert_eq!(
        text(server.finish(&call, Outcome::Killed(Ok(())))),
        Ok("{\"status\":\"stopped\"}".to_string())
    );
    assert_eq!(
        server.begin(&call),
        Step::Done(Err(TauriMcpError::ProcessError(format!("Process not found: {}", id))))
    );
}

#[test]
fn attach_then_stop_is_refused_and_keeps_the_session() {
    let mut server = server();
    let attach = ToolCall::AttachToApp { pid: 77 };
    assert_eq!(server.begin(&attach), Step::Need(Effect::Probe { pid: 77 }));
    assert_eq!(
        server.finish(&attach, Outcome::Probed(false)),
        Err(TauriMcpError::ProcessError("Process with PID 77 not found".to_string()))
    );
    let attached = server.finish(&attach, Outcome::Probed(true)).expect("attached");
    assert_eq!(attached.get("status"), Some(&Json::string("attached")));
    let id = attached.get("process_id").and_then(|id| id.as_str()).expect("an id").to_string();
    let stop = ToolCall::StopApp { process_id: id.clone() };
    let not_owned = || {
        TauriMcpError::ProcessError("Cannot stop externally launched process".to_string())
    };
    assert_eq!(server.begin(&stop), Step::Done(Err(not_owned())));
    assert_eq!(server.finish(&stop, Outcome::Killed(Ok(()))), Err(not_owned()));
    assert_eq!(server.begin(&stop), Step::Done(Err(not_owned())));
    assert_eq!(server.sessions(), vec![id.clone()]);
    assert!(!server.push_log(&id, Stream::Stdout, "not ours"));
    assert_eq!(
        text(match server.begin(&ToolCall::GetAppLogs { process_id: id, lines: None }) {
            Step::Done(r) => r,
            Step::Need(_) => panic!("nothing is needed"),
        }),
        Ok("{\"logs\":[]}".to_string())
    );
}

#[test]
fn launch_reports_what_went_wrong() {
    let mut server = server();
    let call = ToolCall::LaunchApp {
        app_path: "/no/such".to_string(),
        args: vec!["-v".to_string()],
    };
    assert_eq!(
        server.begin(&call),
        Step::Need(Effect::Spawn { app_path: "/no/such".to_string(), args: vec!["-v".to_string()] })
    );
    assert_eq!(
        server.finish(&call, Outcome::Spawned(SpawnOutcome::PathMissing)),
        Err(TauriMcpError::ProcessError("App path does not exist: /no/such".to_string()))
    );
    assert_eq!(server.sessions().len(), 0);
}

#[test]
fn tools_that_the_server_answers_itself() {
    let mut server = server();
    assert_eq!(
        text(match server.begin(&ToolCall::GetWindowInfo { process_id: "p".to_string() }) {
            Step::Done(r) => r,
            Step::Need(_) => panic!("nothing is needed"),
        }),
        Ok("{\"height\":600,\"is_focused\":false,\"is_visible\":true,\"platform\":\"linux\",\"title\":\"Tauri App\",\"width\":800,\"x\":100,\"y\":100}".to_string())
    );
    assert_eq!(
        text(match server.begin(&ToolCall::ListIpcHandlers { process_id: "p".to_string() }) {
            Step::Done(r) => r,
            Step::Need(_) => panic!("nothing is needed"),
        }),
        Ok("{\"handlers\":[\"tauri\",\"app_ready\",\"window_created\",\"window_destroyed\",\"webview_created\",\"webview_destroyed\",\"event\",\"invoke\"]}".to_string())
    );
    assert_eq!(
        text(match server.begin(&ToolCall::CallIpcCommand {
            process_id: "p".to_string(),
            command_name: "tauri".to_string(),
            payload: Json::Null,
        }) {
            Step::Done(r) => r,
            Step::Need(_) => panic!("nothing is needed"),
        }),
        Ok("{\"message\":\"Tauri command executed\",\"status\":\"success\",\"version\":\"2.0.0\"}".to_string())
    );
    assert_eq!(
        server.begin(&ToolCall::MonitorResources { process_id: "p".to_string() }),
        Step::Done(Err(TauriMcpError::ProcessError("Process not found: p".to_string())))
    );
}

#[test]
fn input_is_planned_before_it_is_performed() {
    let mut server = server();
    let keys = ToolCall::SendKeyboardInput { process_id: "p".to_string(), keys: "ok".to_string() };
    assert_eq!(
        server.begin(&keys),
        Step::Need(Effect::Input {
            process_id: "p".to_string(),
            actions: vec![
                InputAction::Text { character: 'o' },
                InputAction::Pause { millis: 10 },
                InputAction::Text { character: 'k' },
                InputAction::Pause { millis: 10 },
            ],
        })
    );
    assert_eq!(
        text(server.finish(&keys, Outcome::Performed(Ok(())))),
        Ok("{\"status\":\"sent\"}".to_string())
    );
    assert_eq!(
        server.finish(
            &keys,
            Outcome::Performed(Err(TauriMcpError::InputError("no display".to_string())))
        ),
        Err(TauriMcpError::InputError("no display".to_string()))
    );
    let click = ToolCall::SendMouseClick {
        process_id: "p".to_string(),
        x: 1,
        y: 2,
        button: "left".to_string(),
    };
    assert_eq!(
        server.begin(&click),
        Step::Need(Effect::Input {
            process_id: "p".to_string(),
            actions: vec![
                InputAction::MoveMouse { x: 1, y: 2 },
                InputAction::Pause { millis: 50 },
                InputAction::Button { button: MouseButton::Left, direction: Direction::Click },
            ],
        })
    );
    assert_eq!(
        text(server.finish(&click, Outcome::Performed(Ok(())))),
        Ok("{\"status\":\"clicked\"}".to_string())
    );
    let bad = ToolCall::SendMouseClick {
        process_id: "p".to_string(),
        x: 1,
        y: 2,
        button: "thumb".to_string(),
    };
    assert_eq!(
        server.begin(&bad),
        Step::Done(Err(TauriMcpError::InputError("Invalid mouse button: thumb".to_string())))
    );
}

#[test]
fn tools_that_are_forwarded() {
    let mut server = server();
    let shot = ToolCall::TakeScreenshot {
        process_id: "p".to_string(),
        output_path: Some("/tmp/s.png".to_string()),
    };
    assert_eq!(
        server.begin(&shot),
        Step::Need(Effect::Screenshot {
            process_id: "p".to_string(),
            output_path: Some("/tmp/s.png".to_string()),
        })
    );
    assert_eq!(
        text(server.finish(&shot, Outcome::Captured(Capture::Saved("/tmp/s.png".to_string())))),
        Ok("{\"screenshot\":\"/tmp/s.png\"}".to_string())
    );
    assert_eq!(
        text(server.finish(&shot, Outcome::Captured(Capture::Png(vec![1, 2, 3])))),
        Ok("{\"screenshot\":\"data:image/png;base64,AQID\"}".to_string())
    );
    assert_eq!(
        server.finish(&shot, Outcome::Captured(Capture::NoScreens)),
        Err(TauriMcpError::ScreenshotError("No screens found".to_string()))
    );
    let js = ToolCall::ExecuteJs {
        process_id: "p".to_string(),
        javascript_code: "1+1".to_string(),
    };
    assert_eq!(
        server.begin(&js),
        Step::Need(Effect::ExecuteJs {
            process_id: "p".to_string(),
            javascript_code: "1+1".to_string(),
        })
    );
    assert_eq!(
        text(server.finish(&js, Outcome::Answered(Ok(Json::PosInt(2))))),
        Ok("{\"result\":2}".to_string())
    );
    let info = ToolCall::GetDevtoolsInfo { process_id: "p".to_string() };
    assert_eq!(
        server.begin(&info),
        Step::Need(Effect::DevtoolsInfo { process_id: "p".to_string() })
    );
    assert_eq!(
        text(server.finish(&info, Outcome::Answered(Ok(Json::object())))),
        Ok("{}".to_string())
    );
    assert_eq!(
        server.finish(
            &info,
            Outcome::Answered(Err(TauriMcpError::WebDriverError("No debug port found".to_string())))
        ),
        Err(TauriMcpError::WebDriverError("No debug port found".to_string()))
    );
}

#[test]
fn resources_and_running_apps() {
    let mut server = server();
    let id = launch(&mut server, 10);
    let monitor = ToolCall::MonitorResources { process_id: id };
    assert_eq!(
        server.finish(&monitor, Outcome::Snapshot(None)),
        Err(TauriMcpError::ProcessError("Failed to get process info".to_string()))
    );
    let snapshot = ProcessSnapshot {
        cpu_usage: "0.0".to_string(),
        memory: 1,
        virtual_memory: 2,
        read_bytes: 3,
        written_bytes: 4,
        status: "Run".to_string(),
        start_time: 5,
        run_time: 6,
    };
    assert_eq!(
        text(server.finish(&monitor, Outcome::Snapshot(Some(snapshot)))),
        Ok("{\"cpu_usage\":0.0,\"disk_usage\":{\"read_bytes\":3,\"written_bytes\":4},\"memory_usage\":1,\"run_time\":6,\"start_time\":5,\"status\":\"Run\",\"virtual_memory\":2}".to_string())
    );
    assert_eq!(server.begin(&ToolCall::FindRunningApps), Step::Need(Effect::ScanProcesses));
    let table = vec![
        ProcessEntry {
            pid: 1,
            name: "init".to_string(),
            cmd: vec![],
            memory: 0,
            cpu_usage: "0.0".to_string(),
            status: "Run".to_string(),
        },
        ProcessEntry {
            pid: 2,
            name: "app".to_string(),
            cmd: vec!["/opt/tauri/app".to_string()],
            memory: 9,
            cpu_usage: "1.5".to_string(),
            status: "Sleep".to_string(),
        },
    ];
    assert_eq!(
        text(server.finish(&ToolCall::FindRunningApps, Outcome::Scanned(table))),
        Ok("{\"apps\":[{\"cmd\":\"/opt/tauri/app\",\"cpu_usage\":1.5,\"memory\":9,\"name\":\"app\",\"pid\":2,\"status\":\"Sleep\"}]}".to_string())
    );
}

#[test]
fn an_outcome_of_another_tool_is_refused() {
    let mut server = server();
    let mismatch = || Err(TauriMcpError::Other("Outcome does not belong to the tool".to_string()));
    assert_eq!(server.finish(&ToolCall::FindRunningApps, Outcome::Probed(true)), mismatch());
    assert_eq!(
        server.finish(&ToolCall::AttachToApp { pid: 1 }, Outcome::Killed(Ok(()))),
        mismatch()
    );
    assert_eq!(
        server.finish(
            &ToolCall::GetAppLogs { process_id: "p".to_string(), lines: None },
            Outcome::Probed(true)
        ),
        mismatch()
    );
    assert_eq!(server.sessions().len(), 0);
}

#[test]
fn the_single_shot_entry_validates_like_the_session() {
    let mut server = server();
    let other = |message: &str| Execution::Done(Err(TauriMcpError::Other(message.to_string())));
    assert_eq!(server.execute_tool("launch_app", "{}"), other("Missing app_path"));
    assert_eq!(server.execute_tool("stop_app", "{}"), other("Missing process_id"));
    assert_eq!(
        server.execute_tool("send_mouse_click", "{\"process_id\":\"p\",\"x\":1}"),
        other("Missing y coordinate")
    );
    assert_eq!(server.execute_tool("attach_to_app", "{}"), other("Missing pid"));
    assert_eq!(server.execute_tool("frobnicate", "{}"), other("Unknown tool: frobnicate"));
    match server.execute_tool("launch_app", "{oops") {
        Execution::Done(Err(TauriMcpError::Other(message))) => {
            assert!(message.starts_with("Invalid JSON arguments: "));
            assert!(message.len() > "Invalid JSON arguments: ".len());
        }
        other => panic!("unexpected {:?}", other),
    }
    assert_eq!(
        server.execute_tool("stop_app", "{\"process_id\":\"p\"}"),
        other("Process error: Process not found: p")
    );
    assert_eq!(
        server.execute_tool("get_app_logs", "{\"process_id\":\"p\"}"),
        other("Process error: Process not found: p")
    );
    let call = ToolCall::LaunchApp { app_path: "/bin/true".to_string(), args: vec![] };
    assert_eq!(
        server.execute_tool("launch_app", "{\"app_path\":\"/bin/true\"}"),
        Execution::Need {
            call: ToolCall::LaunchApp { app_path: "/bin/true".to_string(), args: vec![] },
            effect: Effect::Spawn { app_path: "/bin/true".to_string(), args: vec![] },
        }
    );
    assert_eq!(
        server.finish_execution(&call, Outcome::Spawned(SpawnOutcome::NoPid)),
        Err(TauriMcpError::Other("Process error: Failed to get process ID".to_string()))
    );
    let launched = server
        .finish_execution(&call, Outcome::Spawned(SpawnOutcome::Spawned { pid: 3 }))
        .expect("launched");
    assert_eq!(launched.get("status"), Some(&Json::string("launched")));
    match server.execute_tool("list_ipc_handlers", "{\"process_id\":\"p\"}") {
        Execution::Done(Ok(answer)) => {
            assert_eq!(answer.get("handlers").and_then(|h| h.as_array()).map(|h| h.len()), Some(8))
        }
        other => panic!("unexpected {:?}", other),
    }
}
