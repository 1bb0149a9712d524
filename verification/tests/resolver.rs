use keyvox_supervisor::resolve::{
    default_venv_keyvox_exe, resolve_backend_command, saved_install_keyvox_exe,
};
use keyvox_supervisor::text::{join_under, trim_str};

#[test]
fn override_wins_regardless_of_install_locations() {
    let r = resolve_backend_command(
        Some("  /usr/local/bin/keyvox  ".to_string()),
        Some("/opt/kv/env/bin/keyvox".to_string()),
        Some("/home/u/.local/share/keyvox/env/bin/keyvox".to_string()),
    );
    assert_eq!(r, "/usr/local/bin/keyvox");
}

#[test]
fn blank_override_falls_through() {
    let r = resolve_backend_command(
        Some("   \t ".to_string()),
        None,
        Some("/data/env/bin/keyvox".to_string()),
    );
    assert_eq!(r, "/data/env/bin/keyvox");
}

#[test]
fn nothing_resolves_to_bare_command() {
    let r = resolve_backend_command(None, None, None);
    assert_eq!(r, "keyvox");
}

#[test]
fn saved_install_beats_default_venv() {
    let saved = saved_install_keyvox_exe(Some("/opt/kv"), false);
    assert_eq!(saved.as_deref(), Some("/opt/kv/env/bin/keyvox"));
    let dflt = default_venv_keyvox_exe(Some("/home/u/.local/share/keyvox"), false);
    assert_eq!(
        dflt.as_deref(),
        Some("/home/u/.local/share/keyvox/env/bin/keyvox")
    );
    let r = resolve_backend_command(None, saved.clone(), dflt);
    assert_eq!(r, saved.unwrap());
}

#[test]
fn saved_install_trims_file_contents_windows() {
    let saved = saved_install_keyvox_exe(Some("  C:\\kv \r\n"), true);
    assert_eq!(saved.as_deref(), Some("C:\\kv\\env\\Scripts\\keyvox.exe"));
}

#[test]
fn unreadable_install_file_resolves_to_none() {
    assert_eq!(saved_install_keyvox_exe(None, false), None);
    assert_eq!(default_venv_keyvox_exe(None, true), None);
}

#[test]
fn trim_removes_whitespace_on_both_ends() {
    assert_eq!(trim_str("  a b\t"), "a b");
    assert_eq!(trim_str(" \t\r\n "), "");
    assert_eq!(trim_str("plain"), "plain");
    assert_eq!(trim_str("\u{00A0}nbsp\u{00A0}"), "nbsp");
}

#[test]
fn join_inserts_separator_only_when_needed() {
    assert_eq!(join_under("/opt/kv", "env", false), "/opt/kv/env");
    assert_eq!(join_under("/opt/kv/", "env", false), "/opt/kv/env");
    assert_eq!(join_under("", "env", false), "env");
    assert_eq!(join_under("C:\\kv", "env", true), "C:\\kv\\env");
    assert_eq!(join_under("C:\\kv\\", "env", true), "C:\\kv\\env");
}
