use keyvox_supervisor::preflight::make_preflight;
use keyvox_supervisor::supervisor::{plan_spawn, spawn_failure_message, BackendState};

#[test]
fn status_starts_idle() {
    let mut st = BackendState::new();
    let s = st.backend_status(false);
    assert!(!s.running);
    assert_eq!(s.port, None);
    assert!(!s.managed);
}

#[test]
fn start_twice_while_alive_returns_identical_status_and_spawns_once() {
    let mut st = BackendState::new();
    let mut spawns = 0;

    // First start: idle, preflight passes, spawn confirmed once.
    assert!(!st.backend_status(false).running);
    let pf = make_preflight(8080, "keyvox".to_string(), true);
    let req = plan_spawn(8080, pf).unwrap();
    spawns += 1;
    let first = st.commit_spawn(req.port, req.command);

    // Second start: the child is alive, so the current status is returned
    // and the spawn step is never reached.
    let second = st.backend_status(true);
    assert!(second.running);
    assert_eq!(
        (first.running, first.port, first.managed),
        (second.running, second.port, second.managed)
    );
    assert_eq!(spawns, 1);
    assert_eq!(second.port, Some(8080));
}

#[test]
fn stop_after_start_leaves_not_running_and_status_keeps_working() {
    let mut st = BackendState::new();
    let pf = make_preflight(9000, "keyvox".to_string(), true);
    let req = plan_spawn(9000, pf).unwrap();
    st.commit_spawn(req.port, req.command);
    assert!(st.backend_status(true).running);

    let stopped = st.stop_backend();
    assert!(!stopped.running);

    let after = st.backend_status(false);
    assert!(!after.running);
    assert_eq!(after.port, None);
    assert!(!after.managed);
}

#[test]
fn stop_when_idle_is_a_no_op_reporting_idle() {
    let mut st = BackendState::new();
    let s = st.stop_backend();
    assert!(!s.running);
    assert_eq!(s.port, None);
    assert!(!s.managed);
}

#[test]
fn dead_child_clears_the_triple_lazily() {
    let mut st = BackendState::new();
    let pf = make_preflight(8080, "keyvox".to_string(), true);
    let req = plan_spawn(8080, pf).unwrap();
    st.commit_spawn(req.port, req.command);

    // The next observation finds the child dead: the triple is cleared.
    let s = st.backend_status(false);
    assert!(!s.running);
    assert_eq!(s.port, None);
    assert!(!s.managed);
    assert!(!st.child_tracked);
    assert_eq!(st.port, None);
    assert_eq!(st.command, None);
}

#[test]
fn low_port_start_is_rejected_before_any_spawn() {
    let mut st = BackendState::new();
    assert!(!st.backend_status(false).running);
    let pf = make_preflight(80, "keyvox".to_string(), true);
    assert!(!pf.ok);
    let planned = plan_spawn(80, pf);
    match planned {
        Ok(_) => panic!("a rejected preflight must not yield a spawn request"),
        Err(message) => assert_eq!(message, "Preferred port must be >= 1024."),
    }
    // No spawn was requested, so nothing was committed: still idle.
    assert!(!st.child_tracked);
    assert!(!st.backend_status(false).running);
}

#[test]
fn preflight_failure_message_becomes_the_start_error() {
    let pf = make_preflight(8080, "ghost".to_string(), false);
    let planned = plan_spawn(8080, pf);
    assert_eq!(
        planned.err().unwrap(),
        "Backend command not found. Add keyvox to PATH or set a full executable path in 'Backend Command'."
    );
}

#[test]
fn spawn_failure_names_command_and_error() {
    let m = spawn_failure_message("kv", "No such file or directory (os error 2)");
    assert_eq!(
        m,
        "Failed to spawn backend 'kv': No such file or directory (os error 2). Set 'Backend Command' to a valid executable path if needed."
    );
}
