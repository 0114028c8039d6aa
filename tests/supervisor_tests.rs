use pinokio::streamer::StreamKind;
use pinokio::supervisor::{
    backend_environment, contains_bytes, BackendSupervisor, Phase, SupervisorAction, SupervisorEvent, BACKEND_URL,
    GRACE_MILLIS, READY_NOTICE,
};

fn streaming() -> BackendSupervisor {
    let mut s = BackendSupervisor::new();
    let a = s.step(SupervisorEvent::Start);
    assert_eq!(a.len(), 1);
    assert!(matches!(a[0], SupervisorAction::Spawn));
    assert_eq!(s.phase, Phase::Spawning);
    assert!(s.step(SupervisorEvent::Spawned).is_empty());
    assert_eq!(s.phase, Phase::Streaming);
    s
}

fn navigations(actions: &[SupervisorAction]) -> usize {
    actions.iter().filter(|a| matches!(a, SupervisorAction::Navigate(_))).count()
}

fn ready_notices(actions: &[SupervisorAction]) -> usize {
    actions
        .iter()
        .filter(|a| matches!(a, SupervisorAction::Emit(e) if e.text == READY_NOTICE))
        .count()
}

#[test]
fn readiness_marker_navigates_once() {
    let mut s = streaming();
    let mut all: Vec<SupervisorAction> = Vec::new();
    let first = s.step(SupervisorEvent::Output(
        StreamKind::Stdout,
        b"Server listening on port 42000\n".to_vec(),
    ));
    assert_eq!(first.len(), 5);
    match &first[0] {
        SupervisorAction::Log(t) => assert_eq!(t, "[NODE STDOUT] Server listening on port 42000"),
        _ => panic!("expected a log line"),
    }
    match &first[1] {
        SupervisorAction::Emit(e) => {
            assert_eq!(e.kind, StreamKind::Stdout);
            assert_eq!(e.text, "Server listening on port 42000");
        }
        _ => panic!("expected the echoed line"),
    }
    match &first[2] {
        SupervisorAction::Emit(e) => assert_eq!(e.text, "Server ready, launching..."),
        _ => panic!("expected the ready notice"),
    }
    match &first[3] {
        SupervisorAction::Pause(ms) => assert_eq!(*ms, 1000),
        _ => panic!("expected the grace period"),
    }
    match &first[4] {
        SupervisorAction::Navigate(u) => assert_eq!(u, "http://localhost:42000"),
        _ => panic!("expected navigation"),
    }
    assert_eq!(s.phase, Phase::Ready);
    all.extend(first);
    all.extend(s.step(SupervisorEvent::Output(
        StreamKind::Stdout,
        b"Server listening on port 42000 again\n".to_vec(),
    )));
    all.extend(s.step(SupervisorEvent::Output(StreamKind::Stdout, b"hello\n".to_vec())));
    assert_eq!(navigations(&all), 1);
    assert_eq!(ready_notices(&all), 1);
    assert_eq!(s.phase, Phase::Ready);
}

#[test]
fn no_marker_no_navigation() {
    let mut s = streaming();
    let a = s.step(SupervisorEvent::Output(StreamKind::Stdout, b"booting\n".to_vec()));
    assert_eq!(a.len(), 2);
    assert_eq!(navigations(&a), 0);
    assert_eq!(s.phase, Phase::Streaming);
}

#[test]
fn marker_on_stderr_does_not_navigate() {
    let mut s = streaming();
    let a = s.step(SupervisorEvent::Output(
        StreamKind::Stderr,
        b"Server listening on port 42000\n".to_vec(),
    ));
    assert_eq!(a.len(), 2);
    match &a[0] {
        SupervisorAction::Log(t) => assert_eq!(t, "[NODE STDERR] Server listening on port 42000"),
        _ => panic!("expected a log line"),
    }
    assert_eq!(navigations(&a), 0);
    assert_eq!(s.phase, Phase::Streaming);
}

#[test]
fn spawn_failure_is_surfaced_on_stderr() {
    let mut s = BackendSupervisor::new();
    s.step(SupervisorEvent::Start);
    let a = s.step(SupervisorEvent::SpawnFailed("not found".to_string()));
    assert_eq!(s.phase, Phase::Failed);
    assert_eq!(a.len(), 1);
    match &a[0] {
        SupervisorAction::Emit(e) => {
            assert_eq!(e.kind, StreamKind::Stderr);
            assert_eq!(e.text, "Failed to spawn backend: not found");
        }
        _ => panic!("expected an error event"),
    }
    assert!(s.step(SupervisorEvent::Start).is_empty());
    assert_eq!(s.phase, Phase::Failed);
}

#[test]
fn both_pipes_closing_terminates() {
    let mut s = streaming();
    s.step(SupervisorEvent::Closed(StreamKind::Stdout));
    assert_eq!(s.phase, Phase::Streaming);
    assert!(s
        .step(SupervisorEvent::Output(StreamKind::Stdout, b"late\n".to_vec()))
        .is_empty());
    let a = s.step(SupervisorEvent::Output(StreamKind::Stderr, b"err\n".to_vec()));
    assert_eq!(a.len(), 2);
    s.step(SupervisorEvent::Closed(StreamKind::Stderr));
    assert_eq!(s.phase, Phase::Terminated);
}

#[test]
fn start_fires_once() {
    let mut s = BackendSupervisor::new();
    assert_eq!(s.step(SupervisorEvent::Start).len(), 1);
    assert!(s.step(SupervisorEvent::Start).is_empty());
}

#[test]
fn byte_search_finds_infixes() {
    assert!(contains_bytes(b"xx Server listening on port 1", b"Server listening on port"));
    assert!(!contains_bytes(b"Server listening", b"Server listening on port"));
    assert!(contains_bytes(b"abc", b""));
    assert!(contains_bytes(b"abc", b"abc"));
    assert!(!contains_bytes(b"", b"a"));
    assert!(contains_bytes(b"aab", b"ab"));
}

#[test]
fn constants_match_the_backend() {
    assert_eq!(BACKEND_URL, "http://localhost:42000");
    assert_eq!(GRACE_MILLIS, 1000);
}

#[test]
fn backend_environment_settings() {
    let env = backend_environment(Some("/app/node_modules_vendor".to_string()));
    assert_eq!(
        env,
        vec![
            ("UV_THREADPOOL_SIZE".to_string(), "128".to_string()),
            ("NODE_OPTIONS".to_string(), "--max-old-space-size=4096".to_string()),
            ("NODE_PATH".to_string(), "/app/node_modules_vendor".to_string()),
        ]
    );
    assert_eq!(backend_environment(None).len(), 2);
}
