use lunu::compat::CompatibilityLayer;
use lunu::github::PackageInfo;
use lunu::manager::{pick_existing, BridgeManager};
use lunu::package::{checksum, concat_contents, PackageManager};

#[test]
fn the_manager_finds_the_installation_root() {
    assert_eq!(BridgeManager::new("/work/Lunu".to_string()).lunu_root(), "/work/Lunu");
    assert_eq!(BridgeManager::new("/work".to_string()).lunu_root(), "/work/Lunu");
    assert_eq!(BridgeManager::new("/work/MyLunu".to_string()).lunu_root(), "/work/MyLunu/Lunu");
    assert_eq!(BridgeManager::new("Lunu".to_string()).lunu_root(), "Lunu");
}

#[test]
fn the_manager_lists_where_the_server_may_be() {
    let manager = BridgeManager::new("/work".to_string());
    assert_eq!(
        manager.candidates(Some("/opt/bin")),
        vec![
            "/work/Lunu/bin/lunu-bridge.exe".to_string(),
            "/work/Lunu/lunu-bridge.exe".to_string(),
            "/opt/bin/lunu-bridge.exe".to_string(),
        ]
    );
    assert_eq!(manager.candidates(None).len(), 2);
}

#[test]
fn the_first_existing_candidate_is_picked() {
    assert_eq!(pick_existing(&vec![false, true, true]), Some(1));
    assert_eq!(pick_existing(&vec![true]), Some(0));
    assert_eq!(pick_existing(&vec![false, false]), None);
    assert_eq!(pick_existing(&vec![]), None);
}

#[test]
fn packages_are_installed_below_modules() {
    let pm = PackageManager::new("/project".to_string());
    assert_eq!(pm.root_dir(), "/project");
    assert_eq!(pm.install_path("example"), "/project/modules/example");
    assert_eq!(pm.install_path("a/../b"), "/project/modules/b");
    assert_eq!(pm.install_path("./x//y"), "/project/modules/x/y");
}

#[test]
fn the_checksum_is_the_digest_of_the_contents_in_order() {
    let files = vec![b"a".to_vec(), b"bc".to_vec()];
    assert_eq!(concat_contents(&files), b"abc".to_vec());
    assert_eq!(
        checksum(&files),
        "ba7816bf8f01cfea414140de5dae2223b00361a396177a9cb410ff61f20015ad"
    );
    assert_eq!(
        checksum(&Vec::new()),
        "e3b0c44298fc1c149afbf4c8996fb92427ae41e4649b934ca495991b7852b855"
    );
}

#[test]
fn the_checksum_changes_with_the_content() {
    let first = checksum(&vec![b"one".to_vec(), b"two".to_vec()]);
    let second = checksum(&vec![b"one".to_vec(), b"two".to_vec()]);
    assert_eq!(first, second);
    let third = checksum(&vec![b"one".to_vec(), b"three".to_vec()]);
    assert_ne!(first, third);
    assert_eq!(first.len(), 64);
}

#[test]
fn a_wrapper_is_written_only_without_an_entry_script() {
    assert!(CompatibilityLayer::needs_wrapper(false, false));
    assert!(!CompatibilityLayer::needs_wrapper(true, false));
    assert!(!CompatibilityLayer::needs_wrapper(false, true));
    assert!(!CompatibilityLayer::needs_wrapper(true, true));
    assert!(CompatibilityLayer::is_script("luau"));
    assert!(CompatibilityLayer::is_script("lua"));
    assert!(!CompatibilityLayer::is_script("txt"));
    assert!(!CompatibilityLayer::is_script("LUA"));
    assert!(!CompatibilityLayer::is_script(""));
}

#[test]
fn the_wrapper_exports_each_script() {
    assert_eq!(CompatibilityLayer::wrapper_source(&Vec::new()), "return {\n}");
    assert_eq!(
        CompatibilityLayer::wrapper_source(&vec!["hello".to_string()]),
        "return {\n    hello = require(`./hello`),\n}"
    );
    assert_eq!(
        CompatibilityLayer::wrapper_source(&vec!["a".to_string(), "b".to_string()]),
        "return {\n    a = require(`./a`),\n    b = require(`./b`),\n}"
    );
}

#[test]
fn the_manifest_names_the_package_and_its_entry() {
    assert_eq!(CompatibilityLayer::manifest_name(Some("mylib")), "mylib");
    assert_eq!(CompatibilityLayer::manifest_name(None), "lunu-lib");
    assert_eq!(CompatibilityLayer::manifest_entry(true, false), "init.luau");
    assert_eq!(CompatibilityLayer::manifest_entry(true, true), "init.luau");
    assert_eq!(CompatibilityLayer::manifest_entry(false, true), "init.lua");
    assert_eq!(CompatibilityLayer::manifest_entry(false, false), "init.luau");
    assert_eq!(
        CompatibilityLayer::manifest_source("mylib", "init.luau"),
        "name = \"mylib\"\nversion = \"0.1.0\"\nentry = \"init.luau\"\nlanguage = \"luau\"\n"
    );
}

#[test]
fn a_repository_becomes_a_package() {
    let full = PackageInfo::from_repository(
        "owner".to_string(),
        "repo".to_string(),
        "https://github.com/owner/repo".to_string(),
        Some("about".to_string()),
        Some("trunk".to_string()),
    );
    assert_eq!(full.owner, "owner");
    assert_eq!(full.name, "repo");
    assert_eq!(full.url, "https://github.com/owner/repo");
    assert_eq!(full.description, "about");
    assert_eq!(full.default_branch, "trunk");
    let bare =
        PackageInfo::from_repository("o".to_string(), "n".to_string(), "u".to_string(), None, None);
    assert_eq!(bare.description, "");
    assert_eq!(bare.default_branch, "main");
}
