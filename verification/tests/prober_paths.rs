use keyvox_supervisor::prober::{command_probe_paths, executable_candidates, has_path_components};

fn owned(items: &[&str]) -> Vec<String> {
    items.iter().map(|s| s.to_string()).collect()
}

#[test]
fn path_components_detection() {
    assert!(has_path_components("a/b", false));
    assert!(has_path_components("/abs", false));
    assert!(!has_path_components("foo", false));
    assert!(!has_path_components("a\\b", false));
    assert!(has_path_components("a\\b", true));
    assert!(has_path_components("C:tool", true));
    assert!(!has_path_components("tool", true));
}

#[test]
fn candidates_on_unix_are_the_command_alone() {
    assert_eq!(executable_candidates("foo", false, None), owned(&["foo"]));
}

#[test]
fn candidates_on_windows_use_default_suffixes() {
    assert_eq!(
        executable_candidates("foo", true, None),
        owned(&["foo", "foo.COM", "foo.EXE", "foo.BAT", "foo.CMD"])
    );
}

#[test]
fn candidates_on_windows_respect_suffix_list() {
    assert_eq!(
        executable_candidates("foo", true, Some("EXE; .bat ;;")),
        owned(&["foo", "foo.EXE", "foo.bat"])
    );
}

#[test]
fn candidates_keep_an_explicit_suffix_as_is() {
    assert_eq!(
        executable_candidates("foo.exe", true, None),
        owned(&["foo.exe"])
    );
}

#[test]
fn probe_paths_search_every_directory_in_order() {
    let dirs = owned(&["/usr/bin", "/opt/tools"]);
    assert_eq!(
        command_probe_paths("  app  ", false, None, &dirs),
        owned(&["app", "/usr/bin/app", "/opt/tools/app"])
    );
}

#[test]
fn probe_paths_for_a_pathlike_command_skip_the_search_path() {
    let dirs = owned(&["/usr/bin"]);
    assert_eq!(
        command_probe_paths("/x/y", false, None, &dirs),
        owned(&["/x/y"])
    );
}

#[test]
fn probe_paths_for_a_blank_command_are_empty() {
    let dirs = owned(&["/usr/bin"]);
    assert_eq!(command_probe_paths(" \t ", false, None, &dirs), owned(&[]));
}

#[test]
fn probe_paths_on_windows_interleave_candidates_per_directory() {
    let dirs = owned(&["C:\\bin"]);
    assert_eq!(
        command_probe_paths("tool", true, Some(".EXE"), &dirs),
        owned(&["tool", "tool.EXE", "C:\\bin\\tool", "C:\\bin\\tool.EXE"])
    );
}
