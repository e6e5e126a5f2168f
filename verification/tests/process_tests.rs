use tauri_mcp::tools::logs::Stream;
use tauri_mcp::tools::process::{ProcessEntry, ProcessManager, ProcessSnapshot, SpawnOutcome};
use tauri_mcp::TauriMcpError;

fn launched(manager: &mut ProcessManager, pid: u32) -> String {
    manager
        .launch_app("/bin/true", SpawnOutcome::Spawned { pid })
        .expect("a new session")
}

#[test]
fn test_process_manager_creation() {
    let manager = ProcessManager::new();
    let processes = manager.get_running_processes();
    assert_eq!(processes.len(), 0);
}

#[test]
fn launch_gives_distinct_ids_that_resolve_at_once() {
    let mut manager = ProcessManager::new();
    let first = launched(&mut manager, 10);
    let second = launched(&mut manager, 11);
    assert_ne!(first, second);
    assert_eq!(first.len(), 36);
    for id in [&first, &second] {
        for (at, c) in id.chars().enumerate() {
            if at == 8 || at == 13 || at == 18 || at == 23 {
                assert_eq!(c, '-');
            } else {
                assert!(matches!(c, '0'..='9' | 'a'..='f'));
            }
        }
    }
    assert_eq!(manager.get_running_processes(), vec![first.clone(), second.clone()]);
    assert_eq!(manager.get_app_logs(&first, None), Ok(vec![]));
    assert_eq!(manager.pid_of(&first), Ok(10));
    assert_eq!(manager.pid_of(&second), Ok(11));
}

#[test]
fn launch_reports_each_failure() {
    let mut manager = ProcessManager::new();
    assert_eq!(
        manager.launch_app("/no/such/app", SpawnOutcome::PathMissing),
        Err(TauriMcpError::ProcessError("App path does not exist: /no/such/app".to_string()))
    );
    assert_eq!(
        manager.launch_app("/bin/true", SpawnOutcome::SpawnFailed("permission denied".to_string())),
        Err(TauriMcpError::ProcessError("Failed to launch app: permission denied".to_string()))
    );
    assert_eq!(
        manager.launch_app("/bin/true", SpawnOutcome::NoPid),
        Err(TauriMcpError::ProcessError("Failed to get process ID".to_string()))
    );
    assert_eq!(
        manager.launch_app("/bin/true", SpawnOutcome::NoStdout),
        Err(TauriMcpError::ProcessError("Failed to capture stdout".to_string()))
    );
    assert_eq!(
        manager.launch_app("/bin/true", SpawnOutcome::NoStderr),
        Err(TauriMcpError::ProcessError("Failed to capture stderr".to_string()))
    );
    assert_eq!(manager.get_running_processes().len(), 0);
}

#[test]
fn register_refuses_an_id_that_was_given_out() {
    let mut manager = ProcessManager::new();
    assert_eq!(manager.register("a".to_string(), 1, false), Ok("a".to_string()));
    assert_eq!(
        manager.register("a".to_string(), 2, false),
        Err(TauriMcpError::ProcessError("Session id already in use: a".to_string()))
    );
    assert_eq!(manager.pid_of("a"), Ok(1));
    assert_eq!(manager.stop_app("a", Ok(())), Ok(()));
    assert_eq!(
        manager.register("a".to_string(), 3, true),
        Err(TauriMcpError::ProcessError("Session id already in use: a".to_string()))
    );
    assert_eq!(manager.get_running_processes().len(), 0);
}

#[test]
fn stop_on_attached_session_fails_and_keeps_the_record() {
    let mut manager = ProcessManager::new();
    let id = manager.attach_to_app(4242, true).expect("attached");
    let not_owned =
        Err(TauriMcpError::ProcessError("Cannot stop externally launched process".to_string()));
    assert_eq!(manager.stop_target(&id), Err(TauriMcpError::ProcessError(
        "Cannot stop externally launched process".to_string()
    )));
    assert_eq!(manager.stop_app(&id, Ok(())), not_owned);
    assert_eq!(manager.stop_app(&id, Err("no".to_string())), not_owned);
    assert_eq!(manager.stop_app(&id, Ok(())), not_owned);
    assert_eq!(manager.get_running_processes(), vec![id.clone()]);
    assert_eq!(manager.pid_of(&id), Ok(4242));
    assert_eq!(manager.get_app_logs(&id, None), Ok(vec![]));
}

#[test]
fn the_log_of_an_attached_session_stays_empty() {
    let mut manager = ProcessManager::new();
    let launched_id = launched(&mut manager, 5);
    let id = manager.attach_to_app(4242, true).expect("attached");
    assert_eq!(manager.get_app_logs(&id, None), Ok(vec![]));
    assert!(!manager.push_log(&id, Stream::Stdout, "not ours"));
    assert!(!manager.push_log(&id, Stream::Stderr, "not ours either"));
    assert!(manager.push_log(&launched_id, Stream::Stdout, "ours"));
    assert_eq!(manager.get_app_logs(&id, None), Ok(vec![]));
    assert_eq!(manager.get_app_logs(&id, Some(0)), Ok(vec![]));
    assert_eq!(manager.get_app_logs(&id, Some(10)), Ok(vec![]));
    assert!(!manager.push_log(&id, Stream::Stdout, "again"));
    assert_eq!(manager.get_app_logs(&id, None), Ok(vec![]));
    assert_eq!(manager.get_app_logs(&launched_id, None), Ok(vec!["[stdout] ours".to_string()]));
    assert_eq!(manager.get_running_processes(), vec![launched_id, id]);
}

#[test]
fn attach_fails_for_a_process_that_is_not_there() {
    let mut manager = ProcessManager::new();
    assert_eq!(
        manager.attach_to_app(4294967295, false),
        Err(TauriMcpError::ProcessError("Process with PID 4294967295 not found".to_string()))
    );
    assert_eq!(
        manager.attach_to_app(0, false),
        Err(TauriMcpError::ProcessError("Process with PID 0 not found".to_string()))
    );
    assert_eq!(manager.get_running_processes().len(), 0);
}

#[test]
fn stop_removes_only_after_a_successful_kill() {
    let mut manager = ProcessManager::new();
    let id = launched(&mut manager, 77);
    assert_eq!(manager.stop_target(&id), Ok(77));
    assert_eq!(
        manager.stop_app(&id, Err("operation not permitted".to_string())),
        Err(TauriMcpError::ProcessError(
            "Failed to kill process: operation not permitted".to_string()
        ))
    );
    assert_eq!(manager.get_running_processes(), vec![id.clone()]);
    assert_eq!(manager.stop_app(&id, Ok(())), Ok(()));
    assert_eq!(manager.get_running_processes().len(), 0);
    let unknown = Err(TauriMcpError::ProcessError(format!("Process not found: {}", id)));
    assert_eq!(manager.get_app_logs(&id, None), unknown);
    assert_eq!(manager.stop_app(&id, Ok(())), Err(TauriMcpError::ProcessError(format!(
        "Process not found: {}",
        id
    ))));
    assert_eq!(manager.pid_of(&id), Err(TauriMcpError::ProcessError(format!(
        "Process not found: {}",
        id
    ))));
}

#[test]
fn reading_the_log_drains_it() {
    let mut manager = ProcessManager::new();
    let id = launched(&mut manager, 5);
    assert!(manager.push_log(&id, Stream::Stdout, "ready"));
    assert!(manager.push_log(&id, Stream::Stderr, "warning: slow"));
    assert!(manager.push_log(&id, Stream::Stdout, "done"));
    assert_eq!(
        manager.get_app_logs(&id, None),
        Ok(vec![
            "[stdout] ready".to_string(),
            "[stderr] warning: slow".to_string(),
            "[stdout] done".to_string(),
        ])
    );
    assert_eq!(manager.get_app_logs(&id, None), Ok(vec![]));
    assert_eq!(manager.get_app_logs(&id, Some(5)), Ok(vec![]));
}

#[test]
fn a_limited_read_hands_out_the_most_recent_lines() {
    let mut manager = ProcessManager::new();
    let id = launched(&mut manager, 5);
    for line in ["one", "two", "three", "four"] {
        manager.push_log(&id, Stream::Stdout, line);
    }
    assert_eq!(
        manager.get_app_logs(&id, Some(2)),
        Ok(vec!["[stdout] three".to_string(), "[stdout] four".to_string()])
    );
    assert_eq!(manager.get_app_logs(&id, Some(2)), Ok(vec![]));
    manager.push_log(&id, Stream::Stderr, "five");
    assert_eq!(manager.get_app_logs(&id, Some(0)), Ok(vec![]));
    manager.push_log(&id, Stream::Stderr, "six");
    assert_eq!(manager.get_app_logs(&id, Some(9)), Ok(vec!["[stderr] six".to_string()]));
}

#[test]
fn a_full_log_drops_its_oldest_lines() {
    let mut manager = ProcessManager::new();
    let id = launched(&mut manager, 5);
    for n in 0..1003 {
        manager.push_log(&id, Stream::Stdout, &n.to_string());
    }
    let lines = manager.get_app_logs(&id, None).expect("the log");
    assert_eq!(lines.len(), 1000);
    assert_eq!(lines[0], "[stdout] 3");
    assert_eq!(lines[999], "[stdout] 1002");
}

#[test]
fn a_line_for_an_unknown_session_is_dropped() {
    let mut manager = ProcessManager::new();
    assert!(!manager.push_log("nobody", Stream::Stdout, "lost"));
    assert_eq!(
        manager.get_app_logs("nobody", None),
        Err(TauriMcpError::ProcessError("Process not found: nobody".to_string()))
    );
}

fn snapshot() -> ProcessSnapshot {
    ProcessSnapshot {
        cpu_usage: "12.5".to_string(),
        memory: 1024,
        virtual_memory: 4096,
        read_bytes: 7,
        written_bytes: 9,
        status: "Run".to_string(),
        start_time: 1700000000,
        run_time: 42,
    }
}

#[test]
fn monitor_resources_reports_the_snapshot() {
    let mut manager = ProcessManager::new();
    let id = launched(&mut manager, 5);
    let report = manager.monitor_resources(&id, Some(snapshot())).expect("a report");
    assert_eq!(
        report.to_text(),
        "{\"cpu_usage\":12.5,\"disk_usage\":{\"read_bytes\":7,\"written_bytes\":9},\"memory_usage\":1024,\"run_time\":42,\"start_time\":1700000000,\"status\":\"Run\",\"virtual_memory\":4096}"
    );
    assert_eq!(
        manager.monitor_resources(&id, None),
        Err(TauriMcpError::ProcessError("Failed to get process info".to_string()))
    );
    assert_eq!(
        manager.monitor_resources("gone", Some(snapshot())),
        Err(TauriMcpError::ProcessError("Process not found: gone".to_string()))
    );
}

fn entry(pid: u32, name: &str, cmd: &[&str]) -> ProcessEntry {
    ProcessEntry {
        pid,
        name: name.to_string(),
        cmd: cmd.iter().map(|s| s.to_string()).collect(),
        memory: 100,
        cpu_usage: "0.5".to_string(),
        status: "Sleep".to_string(),
    }
}

#[test]
fn find_running_apps_keeps_what_looks_like_an_app() {
    let manager = ProcessManager::new();
    let table = vec![
        entry(1, "init", &["/sbin/init"]),
        entry(2, "archestra-desktop", &[]),
        entry(3, "node", &["node", "/work/src-tauri/run.js"]),
        entry(4, "bash", &["bash", "-c", "echo archestra"]),
        entry(5, "tauri", &["/usr/bin/app"]),
    ];
    let found = manager.find_running_apps(&table).expect("always");
    assert_eq!(found.len(), 3);
    assert_eq!(
        found[0].to_text(),
        "{\"cmd\":\"\",\"cpu_usage\":0.5,\"memory\":100,\"name\":\"archestra-desktop\",\"pid\":2,\"status\":\"Sleep\"}"
    );
    assert_eq!(
        found[1].to_text(),
        "{\"cmd\":\"node /work/src-tauri/run.js\",\"cpu_usage\":0.5,\"memory\":100,\"name\":\"node\",\"pid\":3,\"status\":\"Sleep\"}"
    );
    assert_eq!(
        found[2].to_text(),
        "{\"cmd\":\"bash -c echo archestra\",\"cpu_usage\":0.5,\"memory\":100,\"name\":\"bash\",\"pid\":4,\"status\":\"Sleep\"}"
    );
}
