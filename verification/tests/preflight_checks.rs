use keyvox_supervisor::preflight::make_preflight;

#[test]
fn missing_command_reported_before_invalid_port() {
    // Even with an invalid port, a missing executable decides the verdict.
    let pf = make_preflight(80, "ghost".to_string(), false);
    assert!(!pf.ok);
    assert_eq!(pf.backend_command, "ghost");
    assert!(!pf.executable_found);
    assert!(!pf.port_valid);
    assert_eq!(pf.issue_code.as_deref(), Some("backend_command_not_found"));
    assert_eq!(
        pf.message,
        "Backend command not found. Add keyvox to PATH or set a full executable path in 'Backend Command'."
    );
}

#[test]
fn nonexistent_command_with_valid_port() {
    let pf = make_preflight(8080, "nonexistent-cmd".to_string(), false);
    assert!(!pf.ok);
    assert!(!pf.executable_found);
    assert!(pf.port_valid);
    assert_eq!(pf.issue_code.as_deref(), Some("backend_command_not_found"));
}

#[test]
fn low_port_with_existing_command() {
    let pf = make_preflight(1023, "keyvox".to_string(), true);
    assert!(!pf.ok);
    assert!(pf.executable_found);
    assert!(!pf.port_valid);
    assert_eq!(pf.issue_code.as_deref(), Some("invalid_port"));
    assert_eq!(pf.message, "Preferred port must be >= 1024.");
}

#[test]
fn passing_preflight() {
    let pf = make_preflight(1024, "keyvox".to_string(), true);
    assert!(pf.ok);
    assert!(pf.executable_found);
    assert!(pf.port_valid);
    assert_eq!(pf.issue_code, None);
    assert_eq!(pf.message, "Backend preflight passed.");
}
