use superterminals::catalog::{
    add_terminal, delete_terminal, find_terminal, mark_started, mark_stopped, reconcile_statuses,
    status_label, update_terminal, CatalogError,
};
use superterminals::models::{Config, ProcessStatus, Terminal, TerminalData};
use superterminals::registry::ProcessManager;

fn data(name: &str, path: &str, command: &str) -> TerminalData {
    TerminalData { name: name.to_string(), path: path.to_string(), command: command.to_string() }
}

#[test]
fn add_appends_a_stopped_definition() {
    let mut terminals: Vec<Terminal> = Vec::new();
    let t = add_terminal(
        &mut terminals,
        data("build", "/tmp", "make all"),
        String::from("id-1"),
        String::from("2024-01-01T00:00:00Z"),
    )
    .unwrap();
    assert_eq!(t.id, "id-1");
    assert_eq!(t.name, "build");
    assert_eq!(t.path, "/tmp");
    assert_eq!(t.command, "make all");
    assert_eq!(t.status, ProcessStatus::Stopped);
    assert_eq!(t.created_at, "2024-01-01T00:00:00Z");
    assert!(t.last_run.is_none());
    assert_eq!(t.running_time, 0);
    assert_eq!(terminals.len(), 1);
    assert_eq!(terminals[0].id, "id-1");
}

#[test]
fn add_refuses_blank_command_and_duplicate_name() {
    let mut terminals: Vec<Terminal> = Vec::new();
    let blank = add_terminal(
        &mut terminals,
        data("build", "/tmp", "   "),
        String::from("id-1"),
        String::from("ts"),
    );
    assert_eq!(blank.unwrap_err(), CatalogError::InvalidCommand);
    assert!(terminals.is_empty());

    add_terminal(&mut terminals, data("build", "/tmp", "make"), String::from("id-1"), String::from("ts"))
        .unwrap();
    let dup = add_terminal(
        &mut terminals,
        data("build", "/elsewhere", "make test"),
        String::from("id-2"),
        String::from("ts"),
    );
    assert_eq!(dup.unwrap_err(), CatalogError::DuplicateName);
    assert_eq!(terminals.len(), 1);
}

#[test]
fn update_rewrites_editable_fields_only() {
    let mut terminals: Vec<Terminal> = Vec::new();
    let mgr = ProcessManager::new();
    add_terminal(&mut terminals, data("build", "/tmp", "make"), String::from("id-1"), String::from("ts"))
        .unwrap();

    let missing = update_terminal(&mut terminals, &mgr, "id-9", data("x", "/x", "x"));
    assert_eq!(missing.unwrap_err(), CatalogError::NotFound);

    let t = update_terminal(&mut terminals, &mgr, "id-1", data("deploy", "/srv", "make deploy"))
        .unwrap();
    assert_eq!(t.id, "id-1");
    assert_eq!(t.name, "deploy");
    assert_eq!(t.path, "/srv");
    assert_eq!(t.command, "make deploy");
    assert_eq!(t.created_at, "ts");
    assert_eq!(terminals[0].name, "deploy");
}

#[test]
fn update_refuses_a_running_terminal() {
    let mut terminals: Vec<Terminal> = Vec::new();
    let mut mgr = ProcessManager::new();
    add_terminal(&mut terminals, data("build", "/tmp", "make"), String::from("id-1"), String::from("ts"))
        .unwrap();
    mgr.register_spawn(String::from("id-1"), 10);
    let r = update_terminal(&mut terminals, &mgr, "id-1", data("x", "/x", "x"));
    assert_eq!(r.unwrap_err(), CatalogError::TerminalRunning);
    assert_eq!(terminals[0].name, "build");
}

#[test]
fn delete_removes_in_place() {
    let mut terminals: Vec<Terminal> = Vec::new();
    add_terminal(&mut terminals, data("a", "/a", "a"), String::from("id-a"), String::from("ts")).unwrap();
    add_terminal(&mut terminals, data("b", "/b", "b"), String::from("id-b"), String::from("ts")).unwrap();
    add_terminal(&mut terminals, data("c", "/c", "c"), String::from("id-c"), String::from("ts")).unwrap();

    assert_eq!(delete_terminal(&mut terminals, "id-x").unwrap_err(), CatalogError::NotFound);
    delete_terminal(&mut terminals, "id-b").unwrap();
    assert_eq!(terminals.len(), 2);
    assert_eq!(terminals[0].id, "id-a");
    assert_eq!(terminals[1].id, "id-c");
    assert!(find_terminal(&terminals, "id-b").is_none());
}

#[test]
fn start_and_stop_update_the_definition() {
    let mut terminals: Vec<Terminal> = Vec::new();
    add_terminal(&mut terminals, data("build", "/tmp", "make"), String::from("id-1"), String::from("ts"))
        .unwrap();

    mark_started(&mut terminals, "id-1", String::from("2024-02-02T00:00:00Z")).unwrap();
    assert_eq!(terminals[0].status, ProcessStatus::Running);
    assert_eq!(terminals[0].last_run.as_deref(), Some("2024-02-02T00:00:00Z"));

    mark_stopped(&mut terminals, "id-1", Some(42)).unwrap();
    assert_eq!(terminals[0].status, ProcessStatus::Stopped);
    assert_eq!(terminals[0].running_time, 42);

    mark_stopped(&mut terminals, "id-1", None).unwrap();
    assert_eq!(terminals[0].running_time, 42);

    assert_eq!(
        mark_started(&mut terminals, "id-9", String::from("ts")).unwrap_err(),
        CatalogError::NotFound
    );
}

#[test]
fn reconcile_stops_definitions_whose_process_died() {
    let mut terminals: Vec<Terminal> = Vec::new();
    let mut mgr = ProcessManager::new();
    add_terminal(&mut terminals, data("a", "/a", "a"), String::from("id-a"), String::from("ts")).unwrap();
    add_terminal(&mut terminals, data("b", "/b", "b"), String::from("id-b"), String::from("ts")).unwrap();
    mark_started(&mut terminals, "id-a", String::from("ts")).unwrap();
    mark_started(&mut terminals, "id-b", String::from("ts")).unwrap();
    // Only id-b is still live in the registry.
    mgr.register_spawn(String::from("id-b"), 2);

    let changed = reconcile_statuses(&mut terminals, &mgr);
    assert!(changed);
    assert_eq!(terminals[0].status, ProcessStatus::Stopped);
    assert_eq!(terminals[1].status, ProcessStatus::Running);

    let unchanged = reconcile_statuses(&mut terminals, &mgr);
    assert!(!unchanged);
}

#[test]
fn status_labels() {
    assert_eq!(status_label(true), "running");
    assert_eq!(status_label(false), "stopped");
}

#[test]
fn default_config_is_empty_at_current_version() {
    let c = Config::default();
    assert_eq!(c.version, "1.0.0");
    assert!(c.terminals.is_empty());
}

#[test]
fn duplicate_copies_every_field() {
    let t = Terminal {
        id: String::from("id-1"),
        name: String::from("build"),
        path: String::from("/tmp"),
        command: String::from("make"),
        status: ProcessStatus::Error,
        created_at: String::from("ts"),
        last_run: Some(String::from("ts2")),
        running_time: 7,
    };
    let c = t.duplicate();
    assert_eq!(c.id, t.id);
    assert_eq!(c.name, t.name);
    assert_eq!(c.path, t.path);
    assert_eq!(c.command, t.command);
    assert_eq!(c.status, t.status);
    assert_eq!(c.created_at, t.created_at);
    assert_eq!(c.last_run, t.last_run);
    assert_eq!(c.running_time, t.running_time);
}
