use superterminals::registry::{elapsed_seconds, ProcessError, ProcessManager};

#[test]
fn spawn_then_duplicate_is_refused() {
    let mut mgr = ProcessManager::new();
    assert!(mgr.spawn_check("t1", "sleep 100").is_ok());
    mgr.register_spawn(String::from("t1"), 4242);

    // A second spawn of the same identifier is refused before anything runs,
    // and the existing record is untouched.
    let second = mgr.spawn_check("t1", "sleep 100");
    assert!(matches!(second, Err(ProcessError::DuplicateId)));
    assert!(mgr.is_running("t1"));
    let logs = mgr.get_logs("t1").unwrap();
    assert_eq!(logs.len(), 0);
}

#[test]
fn blank_commands_are_refused_and_leave_no_record() {
    let mgr = ProcessManager::new();
    let empty = mgr.spawn_check("t1", "");
    assert!(matches!(empty, Err(ProcessError::InvalidCommand)));
    let spaces = mgr.spawn_check("t1", "   ");
    assert!(matches!(spaces, Err(ProcessError::InvalidCommand)));
    let mixed = mgr.spawn_check("t1", " \t\r\n ");
    assert!(matches!(mixed, Err(ProcessError::InvalidCommand)));
    assert!(!mgr.is_running("t1"));
}

#[test]
fn duplicate_is_reported_ahead_of_blank_command() {
    let mut mgr = ProcessManager::new();
    mgr.register_spawn(String::from("t1"), 7);
    let r = mgr.spawn_check("t1", "   ");
    assert!(matches!(r, Err(ProcessError::DuplicateId)));
}

#[test]
fn running_until_killed_then_kill_is_noop() {
    let mut mgr = ProcessManager::new();
    assert!(!mgr.is_running("t1"));
    mgr.register_spawn(String::from("t1"), 31337);
    assert!(mgr.is_running("t1"));

    let victim = mgr.kill("t1");
    assert_eq!(victim, Some(31337));
    assert!(!mgr.is_running("t1"));

    let again = mgr.kill("t1");
    assert_eq!(again, None);
    assert!(!mgr.is_running("t1"));
}

#[test]
fn kill_without_record_succeeds_without_victim() {
    let mut mgr = ProcessManager::new();
    assert_eq!(mgr.kill("nobody"), None);
}

#[test]
fn kill_leaves_other_records_alone() {
    let mut mgr = ProcessManager::new();
    mgr.register_spawn(String::from("a"), 1);
    mgr.register_spawn(String::from("b"), 2);
    mgr.register_spawn(String::from("c"), 3);
    assert_eq!(mgr.kill("b"), Some(2));
    assert!(mgr.is_running("a"));
    assert!(!mgr.is_running("b"));
    assert!(mgr.is_running("c"));
}

#[test]
fn running_time_present_only_while_live() {
    let mut mgr = ProcessManager::new();
    assert!(mgr.get_running_time("t1").is_none());
    mgr.register_spawn(String::from("t1"), 5);
    let t = mgr.get_running_time("t1");
    assert!(t.is_some());
    mgr.kill("t1");
    assert!(mgr.get_running_time("t1").is_none());
}

#[test]
fn elapsed_seconds_thresholds() {
    let start: u64 = 1_700_000_000_000;
    assert_eq!(elapsed_seconds(start, start), 0);
    assert_eq!(elapsed_seconds(start, start + 100), 0);
    assert_eq!(elapsed_seconds(start, start + 1999), 1);
    assert_eq!(elapsed_seconds(start, start + 2000), 2);
    assert_eq!(elapsed_seconds(start, start + 2001), 2);
    // A clock that moved backwards reads as zero, not as an underflow.
    assert_eq!(elapsed_seconds(start, start - 1), 0);
}

#[test]
fn end_to_end_echo_session() {
    let mut mgr = ProcessManager::new();
    assert!(mgr.spawn_check("t1", "echo hello").is_ok());
    mgr.register_spawn(String::from("t1"), 99);

    // The collector drains the child's single output line.
    assert!(mgr.append_log("t1", false, "hello"));

    let logs = mgr.get_logs("t1").unwrap();
    assert!(logs.iter().any(|l| l == "[OUT] hello"));
    assert!(mgr.is_running("t1"));

    assert_eq!(mgr.kill("t1"), Some(99));
    assert!(!mgr.is_running("t1"));
    assert!(matches!(mgr.get_logs("t1"), Err(ProcessError::NotFound)));
}
