use pinokio::registry::{get_processes, ProcessInfo, ProcessManagerState};

fn record(pid: u32, name: &str, status: &str) -> ProcessInfo {
    ProcessInfo {
        pid,
        name: name.to_string(),
        status: status.to_string(),
        cpu_usage_hundredths: 0,
        mem_usage: 0,
    }
}

#[test]
fn inserted_record_is_listed() {
    let mut state = ProcessManagerState::new();
    state.insert(record(1, "init", "sleeping"));
    assert!(state.contains(1));
    let snap = get_processes(&state);
    assert_eq!(snap.len(), 1);
    assert_eq!(snap[0].pid, 1);
    assert_eq!(snap[0].name, "init");
    assert_eq!(snap[0].status, "sleeping");
}

#[test]
fn same_id_keeps_one_record_last_writer_wins() {
    let mut state = ProcessManagerState::new();
    state.insert(record(42, "old", "Running"));
    state.insert(record(42, "new", "Sleeping"));
    state.insert(record(7, "other", "Running"));
    let snap = get_processes(&state);
    assert_eq!(snap.len(), 2);
    let hits: Vec<&ProcessInfo> = snap.iter().filter(|p| p.pid == 42).collect();
    assert_eq!(hits.len(), 1);
    assert_eq!(hits[0].name, "new");
    assert_eq!(hits[0].status, "Sleeping");
}

#[test]
fn removing_twice_is_a_no_op() {
    let mut state = ProcessManagerState::new();
    state.insert(record(5, "a", "Running"));
    state.insert(record(6, "b", "Running"));
    state.remove(5);
    state.remove(5);
    assert!(!state.contains(5));
    assert!(state.contains(6));
    assert_eq!(get_processes(&state).len(), 1);
    state.remove(99);
    assert_eq!(get_processes(&state).len(), 1);
}

#[test]
fn snapshot_holds_whole_records() {
    let mut state = ProcessManagerState::new();
    state.insert(ProcessInfo {
        pid: 1234,
        name: "test_process".to_string(),
        status: "running".to_string(),
        cpu_usage_hundredths: 150,
        mem_usage: 1024,
    });
    let snap = get_processes(&state);
    assert_eq!(snap.len(), 1);
    assert_eq!(snap[0].pid, 1234);
    assert_eq!(snap[0].name, "test_process");
    assert_eq!(snap[0].status, "running");
    assert_eq!(snap[0].cpu_usage_hundredths, 150);
    assert_eq!(snap[0].mem_usage, 1024);
}

#[test]
fn empty_table_gives_empty_snapshot() {
    let state = ProcessManagerState::new();
    assert!(get_processes(&state).is_empty());
    assert!(!state.contains(0));
}

#[test]
fn duplicate_copies_every_field() {
    let a = ProcessInfo {
        pid: 3,
        name: "x".to_string(),
        status: "Running".to_string(),
        cpu_usage_hundredths: 9,
        mem_usage: 77,
    };
    let b = a.duplicate();
    assert_eq!(b.pid, 3);
    assert_eq!(b.name, "x");
    assert_eq!(b.status, "Running");
    assert_eq!(b.cpu_usage_hundredths, 9);
    assert_eq!(b.mem_usage, 77);
}
