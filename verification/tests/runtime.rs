use lunu::config::Luaurc;
use lunu::project::ProjectConfig;
use lunu::runtime::{
    build_config_for, builder_bin_filename, executable_extension, lock_path, lunu_bin_filename,
    main_template, platform_arch_keys, platform_os_keys, project_config_path,
    project_name_from_root, record_update_check, resolve_lunu_root, resolve_runtime,
    runtime_bin_filename, runtime_config_for, runtime_from_env, runtime_from_text,
    runtime_from_word, runtime_kind_from_config, runtime_name, runtime_repo,
    runtime_target_from_kind, scan_modules, scanned_dependency, should_check_update,
    with_defaults, RuntimeKind, RuntimeTarget, ToolchainDetection, UpdateCheckCache,
    UPDATE_CHECK_INTERVAL_SECS,
};
use lunu::strmap::StrMap;

#[test]
fn project_name_from_root_works() {
    let name = project_name_from_root("/tmp/lunu_project_dir");
    assert!(!name.is_empty());
}

#[test]
fn the_project_is_named_after_its_directory() {
    assert_eq!(project_name_from_root("/home/user/my-app"), "my-app");
    assert_eq!(project_name_from_root("relative/dir/"), "dir");
    assert_eq!(project_name_from_root("/"), "lunu-project");
    assert_eq!(project_name_from_root(""), "lunu-project");
    assert_eq!(project_name_from_root("/home/user/.."), "lunu-project");
}

#[test]
fn the_project_s_files_lie_in_its_root() {
    assert_eq!(project_config_path("/p"), "/p/lunu.toml");
    assert_eq!(lock_path("/p"), "/p/lunu.lock");
}

#[test]
fn runtimes_have_names_and_repositories() {
    assert_eq!(runtime_name(RuntimeTarget::Lute), "lute");
    assert_eq!(runtime_name(RuntimeTarget::Lune), "lune");
    assert_eq!(runtime_repo(RuntimeTarget::Lute), "luau-lang/lute");
    assert_eq!(runtime_repo(RuntimeTarget::Lune), "lune-org/lune");
    assert_eq!(runtime_target_from_kind(RuntimeKind::Lute), RuntimeTarget::Lute);
    assert_eq!(runtime_target_from_kind(RuntimeKind::Lune), RuntimeTarget::Lune);
}

#[test]
fn a_setting_names_a_runtime_in_any_case() {
    assert_eq!(runtime_from_text("lute"), Some(RuntimeKind::Lute));
    assert_eq!(runtime_from_text("  C++ \n"), Some(RuntimeKind::Lute));
    assert_eq!(runtime_from_text("CPP"), Some(RuntimeKind::Lute));
    assert_eq!(runtime_from_text("Lune"), Some(RuntimeKind::Lune));
    assert_eq!(runtime_from_text("\trust"), Some(RuntimeKind::Lune));
    assert_eq!(runtime_from_text("python"), None);
    assert_eq!(runtime_from_text(""), None);
    assert_eq!(runtime_from_text("lu te"), None);
    assert_eq!(runtime_from_word("lute"), Some(RuntimeKind::Lute));
    assert_eq!(runtime_from_word(" lute"), None);
    assert_eq!(runtime_from_word("LUTE"), None);
}

#[test]
fn the_first_setting_that_names_a_runtime_wins() {
    assert_eq!(runtime_from_env(Some("lute"), Some("lune")), Some(RuntimeKind::Lute));
    assert_eq!(runtime_from_env(Some("nonsense"), Some("lune")), Some(RuntimeKind::Lune));
    assert_eq!(runtime_from_env(None, Some("cpp")), Some(RuntimeKind::Lute));
    assert_eq!(runtime_from_env(Some("rust"), None), Some(RuntimeKind::Lune));
    assert_eq!(runtime_from_env(None, None), None);
    assert_eq!(runtime_from_env(Some("x"), Some("y")), None);
}

#[test]
fn each_runtime_has_its_settings() {
    let lute = runtime_config_for(RuntimeKind::Lute);
    assert_eq!(lute.name, "lute");
    assert_eq!(lute.security, "Full system access, no sandboxing, maximum flexibility");
    assert_eq!(lute.performance, "Highest performance with direct native execution");
    assert_eq!(lute.notes, "Use @lute and @std, build native modules directly (C/C++/Rust)");
    let lune = runtime_config_for(RuntimeKind::Lune);
    assert_eq!(lune.name, "lune");
    assert_eq!(lune.security, "Sandboxed defaults with bridge isolation");
    assert_eq!(lune.performance, "Great for tooling; bridge calls add overhead");
    assert_eq!(lune.notes, "Bridge-based integration for external languages");
}

#[test]
fn the_runtime_of_a_project_defaults_to_lune() {
    let plain = ProjectConfig::new("p");
    assert_eq!(runtime_kind_from_config(&plain), RuntimeKind::Lune);
    let lute =
        ProjectConfig::new_with_runtime("p", runtime_config_for(RuntimeKind::Lute), None);
    assert_eq!(runtime_kind_from_config(&lute), RuntimeKind::Lute);
    let lune =
        ProjectConfig::new_with_runtime("p", runtime_config_for(RuntimeKind::Lune), None);
    assert_eq!(runtime_kind_from_config(&lune), RuntimeKind::Lune);
    let mut other = runtime_config_for(RuntimeKind::Lute);
    other.name = "Lute".to_string();
    assert_eq!(
        runtime_kind_from_config(&ProjectConfig::new_with_runtime("p", other, None)),
        RuntimeKind::Lune
    );
}

#[test]
fn each_runtime_has_its_build_settings() {
    let found = ToolchainDetection {
        c_compiler: Some("/usr/bin/cc".to_string()),
        cpp_compiler: None,
        toolchain: Some("gnu".to_string()),
    };
    let native = build_config_for(RuntimeKind::Lute, Some(found));
    assert_eq!(native.kind, "native");
    assert_eq!(native.link, "direct");
    assert_eq!(native.modules, "native");
    assert_eq!(native.module_languages, vec!["c", "cpp", "rust"]);
    assert_eq!(native.features, vec!["std", "lute", "direct-build"]);
    assert_eq!(native.c_compiler.as_deref(), Some("/usr/bin/cc"));
    assert_eq!(native.cpp_compiler, None);
    assert_eq!(native.toolchain.as_deref(), Some("gnu"));

    let bare = build_config_for(RuntimeKind::Lute, None);
    assert_eq!(bare.c_compiler, None);
    assert_eq!(bare.toolchain, None);

    let found = ToolchainDetection {
        c_compiler: Some("cc".to_string()),
        cpp_compiler: Some("c++".to_string()),
        toolchain: None,
    };
    let bridge = build_config_for(RuntimeKind::Lune, Some(found));
    assert_eq!(bridge.kind, "bridge");
    assert_eq!(bridge.link, "http-bridge");
    assert_eq!(bridge.modules, "bridge");
    assert!(bridge.module_languages.is_empty());
    assert_eq!(bridge.features, vec!["sandboxed", "bridge-workers"]);
    assert_eq!(bridge.c_compiler, None);
    assert_eq!(bridge.cpp_compiler, None);
}

#[test]
fn an_update_check_is_due_after_six_hours() {
    assert_eq!(UPDATE_CHECK_INTERVAL_SECS, 6 * 60 * 60);
    let mut cache = UpdateCheckCache { last_check: StrMap::new() };
    assert!(should_check_update(&cache, RuntimeTarget::Lune, 0));
    record_update_check(&mut cache, RuntimeTarget::Lune, 1000);
    assert_eq!(cache.last_check.get("lune"), Some(&1000));
    assert!(!should_check_update(&cache, RuntimeTarget::Lune, 1000));
    assert!(!should_check_update(&cache, RuntimeTarget::Lune, 1000 + 21599));
    assert!(should_check_update(&cache, RuntimeTarget::Lune, 1000 + 21600));
    assert!(!should_check_update(&cache, RuntimeTarget::Lune, 5));
    assert!(should_check_update(&cache, RuntimeTarget::Lute, 1000));
    record_update_check(&mut cache, RuntimeTarget::Lune, 50000);
    assert_eq!(cache.last_check.len(), 1);
    assert!(!should_check_update(&cache, RuntimeTarget::Lune, 50001));
}

#[test]
fn a_scanned_module_depends_on_its_directory() {
    let dep = scanned_dependency("demo");
    assert_eq!(dep.path.as_deref(), Some("modules/demo"));
    assert!(dep.url.is_none() && dep.version.is_none());
}

#[test]
fn defaults_fill_only_what_is_open() {
    let filled = with_defaults(ProjectConfig::new("p"), RuntimeKind::Lute, None);
    assert_eq!(filled.runtime.as_ref().unwrap().name, "lute");
    assert!(filled.build.is_none());
    assert_eq!(filled.project.name, "p");

    let set = ProjectConfig::new_with_runtime(
        "p",
        runtime_config_for(RuntimeKind::Lune),
        Some(build_config_for(RuntimeKind::Lune, None)),
    );
    let kept = with_defaults(
        set,
        RuntimeKind::Lute,
        Some(build_config_for(RuntimeKind::Lute, None)),
    );
    assert_eq!(kept.runtime.as_ref().unwrap().name, "lune");
    assert_eq!(kept.build.as_ref().unwrap().kind, "bridge");

    let built = with_defaults(
        ProjectConfig::new("p"),
        RuntimeKind::Lune,
        Some(build_config_for(RuntimeKind::Lute, None)),
    );
    assert_eq!(built.build.as_ref().unwrap().kind, "native");
}

#[test]
fn a_new_project_starts_with_a_greeting() {
    assert_eq!(main_template(RuntimeKind::Lune), "print(\"Hello from Lunu\")\n");
    let lute = main_template(RuntimeKind::Lute);
    let lines: Vec<&str> = lute.split('\n').collect();
    assert_eq!(
        lines,
        vec![
            "local process = require(\"@lute/process\")",
            "local path = require(\"@std/path\")",
            "",
            "print(\"Hello from Lute\")",
            "print(`cwd: {process.cwd()}`)",
            "print(`exe: {process.execpath()}`)",
            "",
        ]
    );
}

#[test]
fn aliases_are_added_and_removed() {
    let mut config = Luaurc::new();
    assert!(config.aliases.is_empty());
    assert!(config.other.is_empty());
    config.add_alias("lunu", "modules/lunu/");
    assert_eq!(config.alias("lunu").unwrap(), "modules/lunu/");
    config.add_alias("lunu", "Lunu/");
    assert_eq!(config.alias("lunu").unwrap(), "Lunu/");
    assert_eq!(config.aliases.len(), 1);
    config.add_alias("std", "lib/std/");
    config.remove_alias("lunu");
    assert!(config.alias("lunu").is_none());
    assert_eq!(config.alias("std").unwrap(), "lib/std/");
    config.remove_alias("missing");
    assert_eq!(config.aliases.len(), 1);
    config.add_alias("lute", "lib/lute/");
    config.add_alias("a", "x/");
    assert_eq!(config.aliases.entry_at(0).key, "a");
    assert_eq!(config.aliases.entry_at(1).key, "lute");
    assert_eq!(config.aliases.entry_at(2).key, "std");
}

#[test]
fn other_members_survive_alias_changes() {
    let mut config = Luaurc::new();
    config.other.insert("languageMode".to_string(), serde_json::Value::String("strict".into()));
    config.add_alias("a", "b/");
    config.remove_alias("a");
    assert_eq!(
        config.other.get("languageMode"),
        Some(&serde_json::Value::String("strict".into()))
    );
}

#[test]
fn executables_are_named_for_their_platform() {
    assert_eq!(runtime_bin_filename(RuntimeTarget::Lune, true), "lune.exe");
    assert_eq!(runtime_bin_filename(RuntimeTarget::Lune, false), "lune");
    assert_eq!(runtime_bin_filename(RuntimeTarget::Lute, true), "lute.exe");
    assert_eq!(runtime_bin_filename(RuntimeTarget::Lute, false), "lute");
    assert_eq!(executable_extension(true), Some("exe"));
    assert_eq!(executable_extension(false), None);
    assert_eq!(lunu_bin_filename(true), "lunu.exe");
    assert_eq!(lunu_bin_filename(false), "lunu");
    assert_eq!(builder_bin_filename(true), "lunu-builder.exe");
    assert_eq!(builder_bin_filename(false), "lunu-builder");
}

#[test]
fn platforms_go_by_several_words() {
    assert_eq!(platform_os_keys("windows"), vec!["windows", "win"]);
    assert_eq!(platform_os_keys("macos"), vec!["macos", "darwin", "osx"]);
    assert_eq!(platform_os_keys("linux"), vec!["linux"]);
    assert_eq!(platform_os_keys("freebsd"), vec!["freebsd"]);
    assert_eq!(platform_arch_keys("x86_64"), vec!["x86_64", "amd64", "x64"]);
    assert_eq!(platform_arch_keys("aarch64"), vec!["aarch64", "arm64"]);
    assert_eq!(platform_arch_keys("arm"), vec!["armv7", "arm"]);
    assert_eq!(platform_arch_keys("riscv64"), vec!["riscv64"]);
}

#[test]
fn the_environment_wins_over_the_settings() {
    let lute =
        ProjectConfig::new_with_runtime("p", runtime_config_for(RuntimeKind::Lute), None);
    assert_eq!(resolve_runtime(Some(RuntimeKind::Lune), Some(&lute)), RuntimeKind::Lune);
    assert_eq!(resolve_runtime(None, Some(&lute)), RuntimeKind::Lute);
    assert_eq!(resolve_runtime(None, Some(&ProjectConfig::new("p"))), RuntimeKind::Lune);
    assert_eq!(resolve_runtime(None, None), RuntimeKind::Lune);
    assert_eq!(resolve_runtime(Some(RuntimeKind::Lute), None), RuntimeKind::Lute);
}

#[test]
fn the_installation_lies_in_the_root_or_below_it() {
    assert_eq!(resolve_lunu_root("/w", true, true), "/w");
    assert_eq!(resolve_lunu_root("/w", true, false), "/w");
    assert_eq!(resolve_lunu_root("/w", false, true), "/w/Lunu");
    assert_eq!(resolve_lunu_root("/w", false, false), "/w");
}

#[test]
fn scan_modules_detects_dirs() {
    let deps = scan_modules(&vec!["demo".to_string()]);
    assert!(deps.contains_key("demo"));
}

#[test]
fn each_module_directory_is_a_dependency_on_itself() {
    let deps = scan_modules(&vec!["demo".to_string(), "tools".to_string(), "demo".to_string()]);
    assert_eq!(deps.len(), 2);
    assert_eq!(deps.get("demo").unwrap().path.as_deref(), Some("modules/demo"));
    assert_eq!(deps.get("tools").unwrap().path.as_deref(), Some("modules/tools"));
    assert!(deps.get("demo").unwrap().url.is_none());
    assert!(scan_modules(&Vec::new()).is_empty());
}
