use lunu::builder::{
    find_project_root, first_runtime_candidate, is_cache_valid, is_project_root, is_rokit_shim,
    is_runtime_candidate, line_version, lune_version_from_rokit, newest, read_open_cmd,
    Candidate, RootMarks,
};
use lunu::runtime::matches_candidate_name;
use lunu::runtime::{asset_extension_supported, asset_matches_platform, names_any};
use lunu::text::{
    contains, contains_char, ends_with, find_char, fold_ascii, same_ignoring_ascii_case,
    starts_with, strip,
};

#[test]
fn is_rokit_shim_detects_rokit_bin() {
    let shim = String::from("C:\\Users\\User\\.rokit\\bin\\lune.exe");
    assert!(is_rokit_shim(&shim));
    let runtime = String::from(
        "C:\\Users\\User\\.rokit\\tool-storage\\lune-org\\lune\\0.10.4\\lune.exe",
    );
    assert!(!is_rokit_shim(&runtime));
}

#[test]
fn rokit_shim_reads_both_slashes_and_any_case() {
    assert!(is_rokit_shim("/home/user/.rokit/bin/lune"));
    assert!(is_rokit_shim("/opt/Rokit/SHIMS/lune"));
    assert!(!is_rokit_shim("/home/user/.rokit/lune"));
    assert!(!is_rokit_shim("/usr/bin/lune"));
    assert!(!is_rokit_shim(""));
    assert!(!is_rokit_shim("/home/user/.rokit/bin/tool-storage/lune"));
    assert!(!is_rokit_shim("/home/user/my.rokit/bin/lune"));
    assert!(is_rokit_shim("rokit/bin"));
}

#[test]
fn runtime_candidate_needs_size_and_no_shim() {
    assert!(is_runtime_candidate("/project/bin/lune.exe", Some(300_000)));
    assert!(is_runtime_candidate("/project/bin/lune.exe", Some(200_000)));
    assert!(!is_runtime_candidate("/project/bin/lune.exe", Some(199_999)));
    assert!(!is_runtime_candidate("/project/bin/lune.exe", Some(10_000)));
    assert!(!is_runtime_candidate("/project/bin/lune.exe", None));
    assert!(!is_runtime_candidate("/home/u/.rokit/bin/lune.exe", Some(300_000)));
}

fn marks(m: bool, t: bool, s: bool, e: bool) -> RootMarks {
    RootMarks { has_modules: m, has_manifest: t, has_settings: s, has_entry: e }
}

#[test]
fn project_root_needs_modules_and_one_more_mark() {
    assert!(is_project_root(marks(true, true, false, false)));
    assert!(is_project_root(marks(true, false, true, false)));
    assert!(is_project_root(marks(true, false, false, true)));
    assert!(!is_project_root(marks(true, false, false, false)));
    assert!(!is_project_root(marks(false, true, true, true)));
}

#[test]
fn find_project_root_takes_the_first_root() {
    let none = marks(false, false, false, false);
    let root = marks(true, true, false, false);
    assert_eq!(find_project_root(&vec![none, root, root]), Some(1));
    assert_eq!(find_project_root(&vec![root]), Some(0));
    assert_eq!(find_project_root(&vec![none, none]), None);
    assert_eq!(find_project_root(&vec![]), None);
}

#[test]
fn cache_is_valid_only_for_the_same_description() {
    assert!(is_cache_valid("root=/p\nlune_size=1\n", "root=/p\nlune_size=1\n"));
    assert!(!is_cache_valid("root=/p\nlune_size=1\n", "root=/p\nlune_size=2\n"));
    assert!(!is_cache_valid("root=/p\n", ""));
}

#[test]
fn lune_version_from_rokit_parses_value() {
    let version = lune_version_from_rokit("[tools]\nlune = \"0.10.4\"\n").unwrap();
    assert_eq!(version, "0.10.4");
}

#[test]
fn the_first_line_for_lune_with_a_version_counts() {
    assert_eq!(lune_version_from_rokit(""), None);
    assert_eq!(lune_version_from_rokit("[tools]\nrojo = \"7.4.0\"\n"), None);
    assert_eq!(
        lune_version_from_rokit("lune = \"\"\r\n  lune=1.2.3  \r\nlune = \"9.9.9\"\n"),
        Some("1.2.3".to_string())
    );
    assert_eq!(
        lune_version_from_rokit("lune = \"lune-org/lune@0.10.4\""),
        Some("lune-org/lune@0.10.4".to_string())
    );
    assert_eq!(lune_version_from_rokit("lune = a = b\nlune-extra = \"2\""), Some("2".to_string()));
}

#[test]
fn a_line_gives_a_version_only_in_the_right_shape() {
    assert_eq!(line_version("lune = \"0.10.4\""), Some("0.10.4".to_string()));
    assert_eq!(line_version("   lune=0.8  "), Some("0.8".to_string()));
    assert_eq!(line_version("lune"), None);
    assert_eq!(line_version("lune ="), None);
    assert_eq!(line_version("lune = \"\""), None);
    assert_eq!(line_version("lune = 1 = 2"), None);
    assert_eq!(line_version("# lune = 1"), None);
    assert_eq!(line_version("Lune = 1"), None);
    assert_eq!(line_version(""), None);
}

#[test]
fn the_flag_file_can_say_no() {
    assert!(read_open_cmd(None));
    assert!(read_open_cmd(Some("1")));
    assert!(read_open_cmd(Some("")));
    assert!(read_open_cmd(Some("yes")));
    assert!(!read_open_cmd(Some("0")));
    assert!(!read_open_cmd(Some(" 0\n")));
    assert!(!read_open_cmd(Some("false")));
    assert!(!read_open_cmd(Some("FALSE")));
    assert!(!read_open_cmd(Some("No")));
    assert!(read_open_cmd(Some("00")));
    assert!(read_open_cmd(Some("n o")));
}

fn candidate(path: &str, size: Option<u64>) -> Candidate {
    Candidate { path: path.to_string(), size }
}

#[test]
fn the_first_fitting_candidate_is_the_runtime() {
    let list = vec![
        candidate("/home/u/.rokit/bin/lune.exe", Some(900_000)),
        candidate("/p/bin/lune.exe", Some(10_000)),
        candidate("/opt/lune.exe", None),
        candidate("/alt/lune.exe", Some(400_000)),
        candidate("/other/lune.exe", Some(500_000)),
    ];
    assert_eq!(first_runtime_candidate(&list), Some(3));
    assert_eq!(first_runtime_candidate(&list[..3].to_vec()), None);
    assert_eq!(first_runtime_candidate(&Vec::new()), None);
}

#[test]
fn the_newest_candidate_is_the_first_with_the_latest_time() {
    assert_eq!(newest(&vec![]), None);
    assert_eq!(newest(&vec![5]), Some(0));
    assert_eq!(newest(&vec![1, 9, 3]), Some(1));
    assert_eq!(newest(&vec![7, 7, 7]), Some(0));
    assert_eq!(newest(&vec![1, 4, 4, 2]), Some(1));
    assert_eq!(newest(&vec![0, 0, 1]), Some(2));
}

#[test]
fn names_match_whatever_the_case_of_their_letters() {
    let names = vec!["lune.exe".to_string(), "lune".to_string()];
    assert!(matches_candidate_name("LUNE.EXE", &names));
    assert!(matches_candidate_name("Lune", &names));
    assert!(!matches_candidate_name("lune.ex", &names));
    assert!(!matches_candidate_name("lune", &Vec::new()));
    assert!(same_ignoring_ascii_case("", ""));
    assert!(same_ignoring_ascii_case("aZ09", "Az09"));
    assert!(!same_ignoring_ascii_case("é", "É"));
    assert!(!same_ignoring_ascii_case("a", "ab"));
    assert!(!same_ignoring_ascii_case("@", "`"));
    assert!(!same_ignoring_ascii_case("[", "{"));
    assert_eq!(fold_ascii('A'), 'a' as u32);
    assert_eq!(fold_ascii('Z'), 'z' as u32);
    assert_eq!(fold_ascii('a'), 'a' as u32);
    assert_eq!(fold_ascii('@'), '@' as u32);
    assert_eq!(fold_ascii('['), '[' as u32);
}

#[test]
fn a_prefix_is_found_at_the_start_only() {
    assert!(starts_with("lune = 1", "lune"));
    assert!(starts_with("lune", "lune"));
    assert!(starts_with("anything", ""));
    assert!(!starts_with("lun", "lune"));
    assert!(!starts_with(" lune", "lune"));
    assert!(!starts_with("", "l"));
}

#[test]
fn a_part_is_found_anywhere_in_a_text() {
    assert!(contains("lune-0.10.4-linux-x86_64.zip", "linux"));
    assert!(contains("linux", "linux"));
    assert!(contains("abc", ""));
    assert!(contains("", ""));
    assert!(contains("aab", "ab"));
    assert!(contains("xxab", "ab"));
    assert!(!contains("linu", "linux"));
    assert!(!contains("", "a"));
    assert!(!contains("abab", "ba c"));
    assert!(contains("héllo wörld", "wör"));
    assert!(contains_char("a.b", '.'));
    assert!(!contains_char("ab", '.'));
    assert!(!contains_char("", '.'));
}

#[test]
fn a_suffix_is_found_at_the_end_only() {
    assert!(ends_with("lune.zip", ".zip"));
    assert!(ends_with(".zip", ".zip"));
    assert!(ends_with("anything", ""));
    assert!(!ends_with("zip", ".zip"));
    assert!(!ends_with("lune.zip ", ".zip"));
    assert!(!ends_with("", "."));
}

#[test]
fn release_files_are_matched_to_the_platform() {
    let os = vec!["linux"];
    let arch = vec!["x86_64", "amd64", "x64"];
    assert!(asset_matches_platform("lune-linux-x86_64.zip", &os, &arch, true));
    assert!(asset_matches_platform("lune-linux-amd64.zip", &os, &arch, true));
    assert!(!asset_matches_platform("lune-linux-aarch64.zip", &os, &arch, true));
    assert!(asset_matches_platform("lune-linux-aarch64.zip", &os, &arch, false));
    assert!(!asset_matches_platform("lune-macos-x86_64.zip", &os, &arch, true));
    assert!(!asset_matches_platform("lune-macos-x86_64.zip", &os, &arch, false));
    assert!(!asset_matches_platform("lune-linux.zip", &os, &Vec::new(), true));
    assert!(!asset_matches_platform("lune-linux.zip", &Vec::new(), &arch, false));
    assert!(names_any("darwin-build", &vec!["macos", "darwin", "osx"]));
    assert!(!names_any("windows-build", &vec!["macos", "darwin", "osx"]));
}

#[test]
fn release_files_come_in_known_forms() {
    for name in ["lune.zip", "lune.tar.gz", "lune.tgz"] {
        assert!(asset_extension_supported(name, true));
        assert!(asset_extension_supported(name, false));
    }
    assert!(asset_extension_supported("lune.exe", true));
    assert!(!asset_extension_supported("lune.exe", false));
    assert!(asset_extension_supported("lune", false));
    assert!(!asset_extension_supported("lune", true));
    assert!(!asset_extension_supported("lune.txt", false));
    assert!(!asset_extension_supported("dir/", false));
    assert!(!asset_extension_supported("dir\\", false));
    assert!(asset_extension_supported("", false));
}

#[test]
fn a_character_is_found_from_a_position_on() {
    let text: Vec<char> = "a=b=c".chars().collect();
    assert_eq!(find_char(&text, 0, '='), 1);
    assert_eq!(find_char(&text, 1, '='), 1);
    assert_eq!(find_char(&text, 2, '='), 3);
    assert_eq!(find_char(&text, 4, '='), 5);
    assert_eq!(find_char(&text, 5, '='), 5);
    assert_eq!(find_char(&text, 0, 'x'), 5);
    assert_eq!(find_char(&Vec::new(), 0, 'x'), 0);
}

#[test]
fn strip_takes_the_runs_off_both_ends() {
    assert_eq!(strip("\"0.10.4\"", '"'), "0.10.4");
    assert_eq!(strip("\"\"a\"b\"\"\"", '"'), "a\"b");
    assert_eq!(strip("plain", '"'), "plain");
    assert_eq!(strip("\"open", '"'), "open");
    assert_eq!(strip("close\"", '"'), "close");
    assert_eq!(strip("\"\"\"", '"'), "");
    assert_eq!(strip("", '"'), "");
    assert_eq!(strip("xxéxx", 'x'), "é");
}

#[test]
fn lines_end_at_line_feeds_with_or_without_carriage_return() {
    assert_eq!(
        lune_version_from_rokit("[tools]\r\nlune = \"0.8.0\"\r\n"),
        Some("0.8.0".to_string())
    );
    assert_eq!(lune_version_from_rokit("lune = \"1\""), Some("1".to_string()));
    assert_eq!(lune_version_from_rokit("\n\n\nlune = 2\n"), Some("2".to_string()));
    assert_eq!(lune_version_from_rokit("lune\n= 3"), None);
    assert_eq!(lune_version_from_rokit("\n"), None);
}

#[test]
fn white_space_is_what_std_calls_white_space() {
    use_all_chars(|c| assert_eq!(lunu::text::is_whitespace(c), c.is_whitespace(), "{:?}", c));
}

fn use_all_chars(check: impl Fn(char)) {
    for code in 0u32..=0x10FFFF {
        if let Some(c) = char::from_u32(code) {
            check(c);
        }
    }
}

#[test]
fn trim_takes_the_white_space_off_both_ends() {
    for text in [
        "",
        " ",
        "  a b  ",
        "\t\r\nlune = 1\n",
        "\u{3000}wide\u{2003}",
        "\u{85}next line\u{a0}",
        "x",
        " \u{200b}zero width is no space ",
        "inner\u{2028}kept",
        "\u{1680}\u{2000}\u{200a}\u{2029}\u{202f}\u{205f}",
    ] {
        assert_eq!(lunu::text::trim(text), text.trim(), "{:?}", text);
    }
}

#[test]
fn a_component_is_marked_by_its_name() {
    use_marks();
}

fn use_marks() {
    let m = lunu::builder::part_marks(".rokit");
    assert!(m.rokit && !m.tool_storage && !m.bin_or_shims);
    let m = lunu::builder::part_marks("rokit");
    assert!(m.rokit);
    let m = lunu::builder::part_marks("tool-storage");
    assert!(!m.rokit && m.tool_storage && !m.bin_or_shims);
    let m = lunu::builder::part_marks("bin");
    assert!(m.bin_or_shims && !m.rokit);
    let m = lunu::builder::part_marks("shims");
    assert!(m.bin_or_shims);
    let none = lunu::builder::part_marks("Bin");
    assert!(!none.rokit && !none.tool_storage && !none.bin_or_shims);
    let both = lunu::builder::merge_marks(
        lunu::builder::part_marks("rokit"),
        lunu::builder::part_marks("bin"),
    );
    assert!(lunu::builder::shim_verdict(both));
    let stored = lunu::builder::merge_marks(both, lunu::builder::part_marks("tool-storage"));
    assert!(!lunu::builder::shim_verdict(stored));
    assert!(!lunu::builder::shim_verdict(none));
    assert!(!lunu::builder::shim_verdict(lunu::builder::part_marks("rokit")));
}

#[test]
fn a_refusal_is_zero_false_or_no() {
    for word in ["0", "false", "FALSE", "No", "nO"] {
        assert!(lunu::builder::is_refusal(word));
    }
    for word in ["", "1", "true", "yes", " no", "no ", "n", "00"] {
        assert!(!lunu::builder::is_refusal(word));
    }
}
