use lunu::paths::{
    is_bare_name, is_safe_path, local_candidate, path_verdict, resolve_cwd_path,
    resolve_exec_path, resolve_log_path, resolve_modules_dir,
};

#[test]
fn a_target_inside_the_base_is_safe() {
    assert!(is_safe_path("/srv/modules/demo", "/srv/modules/demo/worker.py"));
    assert!(is_safe_path("/srv/modules/demo", "/srv/modules/demo"));
    assert!(is_safe_path("/srv/modules/demo", "bin/worker"));
    assert!(is_safe_path("/srv/modules/demo", "./bin/../worker"));
    assert!(is_safe_path("modules/demo", "sub/run.sh"));
}

#[test]
fn a_bare_command_name_is_safe() {
    assert!(is_safe_path("/srv/modules/demo", "python"));
    assert!(is_safe_path("/srv/modules/demo", "node"));
    assert!(is_safe_path("modules/demo", "cargo"));
}

#[test]
fn an_absolute_target_is_safe() {
    assert!(is_safe_path("/srv/modules/demo", "/usr/bin/python3"));
    assert!(is_safe_path("/srv/modules/demo", "/srv/modules/other/run"));
}

#[test]
fn a_relative_target_that_leaves_the_base_is_denied() {
    assert!(!is_safe_path("/srv/modules/demo", "../other/run.sh"));
    assert!(!is_safe_path("/srv/modules/demo", "sub/../../escape"));
    assert!(!is_safe_path("modules/demo", "../../etc/passwd"));
    assert!(!is_safe_path("modules/demo", "modules/demo/../../../x"));
}

#[test]
fn the_base_matches_whole_components_only() {
    assert!(is_safe_path("/srv/modules/demo", "/srv/modules/demo2/run"));
    assert!(!is_safe_path("modules/demo", "../demo2/run"));
}

#[test]
fn bare_names_have_no_separator() {
    assert!(is_bare_name("python"));
    assert!(is_bare_name(""));
    assert!(is_bare_name("my tool.exe"));
    assert!(!is_bare_name("bin/python"));
    assert!(!is_bare_name("bin\\python"));
    assert!(!is_bare_name("/"));
    assert!(!is_bare_name("trailing/"));
}

#[test]
fn the_verdict_needs_one_reason() {
    assert!(!path_verdict(false, false, false));
    assert!(path_verdict(true, false, false));
    assert!(path_verdict(false, true, false));
    assert!(path_verdict(false, false, true));
}

#[test]
fn an_executable_resolves_to_the_local_file_where_it_exists() {
    assert_eq!(local_candidate("/m/demo", "worker"), "/m/demo/worker");
    assert_eq!(resolve_exec_path("/m/demo", "worker", true), "/m/demo/worker");
    assert_eq!(resolve_exec_path("/m/demo", "worker", false), "worker");
    assert_eq!(resolve_exec_path("/m/demo", "/usr/bin/node", true), "/usr/bin/node");
    assert_eq!(resolve_exec_path("/m/demo", "/usr/bin/node", false), "/usr/bin/node");
    assert_eq!(resolve_exec_path("/m/demo", "bin/run", true), "/m/demo/bin/run");
}

#[test]
fn directories_resolve_against_their_base() {
    assert_eq!(resolve_cwd_path("/m/demo", "work"), "/m/demo/work");
    assert_eq!(resolve_cwd_path("/m/demo", "/tmp/work"), "/tmp/work");
    assert_eq!(resolve_log_path("/srv/lunu", "logs/bridge.log"), "/srv/lunu/logs/bridge.log");
    assert_eq!(resolve_log_path("/srv/lunu", "/var/log/bridge.log"), "/var/log/bridge.log");
}

#[test]
fn the_modules_directory_defaults_to_modules() {
    assert_eq!(resolve_modules_dir("/srv/lunu", None), "/srv/lunu/modules");
    assert_eq!(resolve_modules_dir("/srv/lunu", Some("mods")), "/srv/lunu/mods");
    assert_eq!(resolve_modules_dir("/srv/lunu", Some("/opt/mods")), "/opt/mods");
}
