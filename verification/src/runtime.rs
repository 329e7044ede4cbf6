//! The runtimes that a project can run on, and what each of them means for
//! a project's settings.

use crate::paths::{file_name, join, path_file_name, path_join};
use crate::project::{BuildConfig, DependencySpec, ProjectConfig, RuntimeConfig};
use crate::strmap::StrMap;
use crate::text::{
    contains, contains_char, ends_with, has_part, has_suffix, lowercase, same_but_ascii_case,
    same_ignoring_ascii_case, same_text, slices, texts, to_lower, trim, trimmed,
};
use vstd::prelude::*;
use vstd::string::StringExecFns;

verus! {

/// The least number of seconds between two checks for a newer runtime.
pub const UPDATE_CHECK_INTERVAL_SECS: u64 = 21600;

/// The runtime that a project runs on.
#[derive(Clone, Copy, Debug, PartialEq, Eq, Structural)]
pub enum RuntimeKind {
    Lute,
    Lune,
}

/// The runtime that a download or an update is for.
#[derive(Clone, Copy, Debug, PartialEq, Eq, Structural)]
pub enum RuntimeTarget {
    Lute,
    Lune,
}

/// The compilers that were found on the machine.
#[derive(Clone, Debug)]
pub struct ToolchainDetection {
    pub c_compiler: Option<String>,
    pub cpp_compiler: Option<String>,
    pub toolchain: Option<String>,
}

/// When each runtime was last checked for an update, by its name.
#[derive(Clone, Debug)]
pub struct UpdateCheckCache {
    pub last_check: StrMap<u64>,
}

/// The name of a runtime.
pub open spec fn name_of(target: RuntimeTarget) -> Seq<char> {
    match target {
        RuntimeTarget::Lute => "lute"@,
        RuntimeTarget::Lune => "lune"@,
    }
}

/// The repository that a runtime is released from.
pub open spec fn repo_of(target: RuntimeTarget) -> Seq<char> {
    match target {
        RuntimeTarget::Lute => "luau-lang/lute"@,
        RuntimeTarget::Lune => "lune-org/lune"@,
    }
}

/// The runtime that a word names, once it is trimmed and in lower case.
pub open spec fn kind_of_word(word: Seq<char>) -> Option<RuntimeKind> {
    if word == "lute"@ || word == "c++"@ || word == "cpp"@ {
        Some(RuntimeKind::Lute)
    } else if word == "lune"@ || word == "rust"@ {
        Some(RuntimeKind::Lune)
    } else {
        None
    }
}

/// The runtime that a setting names.
pub open spec fn kind_of_text(value: Seq<char>) -> Option<RuntimeKind> {
    kind_of_word(lowercase(trimmed(value)))
}

/// The runtime that an optional setting names.
pub open spec fn kind_of_setting(value: Option<&str>) -> Option<RuntimeKind> {
    match value {
        Some(v) => kind_of_text(v@),
        None => None,
    }
}

/// Whether a runtime is due for an update check at the time `now`, given
/// when it was last checked, both in seconds.
pub open spec fn update_due(last_check: Option<u64>, now: u64) -> bool {
    match last_check {
        Some(then) => now >= then && now - then >= UPDATE_CHECK_INTERVAL_SECS,
        None => true,
    }
}

/// What the settings say of a runtime.
pub open spec fn describes(cfg: RuntimeConfig, kind: RuntimeKind) -> bool {
    match kind {
        RuntimeKind::Lute => {
            &&& cfg.name@ == "lute"@
            &&& cfg.security@ == "Full system access, no sandboxing, maximum flexibility"@
            &&& cfg.performance@ == "Highest performance with direct native execution"@
            &&& cfg.notes@ == "Use @lute and @std, build native modules directly (C/C++/Rust)"@
        },
        RuntimeKind::Lune => {
            &&& cfg.name@ == "lune"@
            &&& cfg.security@ == "Sandboxed defaults with bridge isolation"@
            &&& cfg.performance@ == "Great for tooling; bridge calls add overhead"@
            &&& cfg.notes@ == "Bridge-based integration for external languages"@
        },
    }
}

/// How a project on a runtime is built, given the compilers that were
/// found.
pub open spec fn builds_for(
    cfg: BuildConfig,
    kind: RuntimeKind,
    toolchain: Option<ToolchainDetection>,
) -> bool {
    match kind {
        RuntimeKind::Lute => {
            &&& cfg.kind@ == "native"@
            &&& cfg.link@ == "direct"@
            &&& cfg.modules@ == "native"@
            &&& texts(cfg.module_languages@) == seq!["c"@, "cpp"@, "rust"@]
            &&& texts(cfg.features@) == seq!["std"@, "lute"@, "direct-build"@]
            &&& match toolchain {
                Some(found) => {
                    &&& cfg.c_compiler == found.c_compiler
                    &&& cfg.cpp_compiler == found.cpp_compiler
                    &&& cfg.toolchain == found.toolchain
                },
                None => {
                    &&& cfg.c_compiler.is_none()
                    &&& cfg.cpp_compiler.is_none()
                    &&& cfg.toolchain.is_none()
                },
            }
        },
        RuntimeKind::Lune => {
            &&& cfg.kind@ == "bridge"@
            &&& cfg.link@ == "http-bridge"@
            &&& cfg.modules@ == "bridge"@
            &&& texts(cfg.module_languages@) == Seq::<Seq<char>>::empty()
            &&& texts(cfg.features@) == seq!["sandboxed"@, "bridge-workers"@]
            &&& cfg.c_compiler.is_none()
            &&& cfg.cpp_compiler.is_none()
            &&& cfg.toolchain.is_none()
        },
    }
}

/// The target that stands for a runtime.
pub fn runtime_target_from_kind(kind: RuntimeKind) -> (r: RuntimeTarget)
    ensures
        r == (match kind {
            RuntimeKind::Lute => RuntimeTarget::Lute,
            RuntimeKind::Lune => RuntimeTarget::Lune,
        }),
{
    match kind {
        RuntimeKind::Lute => RuntimeTarget::Lute,
        RuntimeKind::Lune => RuntimeTarget::Lune,
    }
}

/// The repository that a runtime is released from.
pub fn runtime_repo(target: RuntimeTarget) -> (r: &'static str)
    ensures
        r@ == repo_of(target),
{
    match target {
        RuntimeTarget::Lute => "luau-lang/lute",
        RuntimeTarget::Lune => "lune-org/lune",
    }
}

/// The name of a runtime.
pub fn runtime_name(target: RuntimeTarget) -> (r: &'static str)
    ensures
        r@ == name_of(target),
{
    match target {
        RuntimeTarget::Lute => "lute",
        RuntimeTarget::Lune => "lune",
    }
}

/// The runtime that a word names.
pub fn runtime_from_word(word: &str) -> (r: Option<RuntimeKind>)
    ensures
        r == kind_of_word(word@),
{
    if same_text(word, "lute") || same_text(word, "c++") || same_text(word, "cpp") {
        Some(RuntimeKind::Lute)
    } else if same_text(word, "lune") || same_text(word, "rust") {
        Some(RuntimeKind::Lune)
    } else {
        None
    }
}

/// The runtime that a setting names, whatever its case and the white
/// space around it.
pub fn runtime_from_text(value: &str) -> (r: Option<RuntimeKind>)
    ensures
        r == kind_of_text(value@),
{
    let word = to_lower(trim(value));
    runtime_from_word(word.as_str())
}

/// The runtime that the environment asks for: what the first setting
/// names, else what the second names.
pub fn runtime_from_env(first: Option<&str>, second: Option<&str>) -> (r: Option<RuntimeKind>)
    ensures
        r == (match kind_of_setting(first) {
            Some(kind) => Some(kind),
            None => kind_of_setting(second),
        }),
{
    let chosen = match first {
        Some(value) => runtime_from_text(value),
        None => None,
    };
    match chosen {
        Some(kind) => Some(kind),
        None => match second {
            Some(value) => runtime_from_text(value),
            None => None,
        },
    }
}

/// What the settings say of a runtime.
pub fn runtime_config_for(runtime: RuntimeKind) -> (r: RuntimeConfig)
    ensures
        describes(r, runtime),
{
    match runtime {
        RuntimeKind::Lute => RuntimeConfig {
            name: "lute".to_owned(),
            security: "Full system access, no sandboxing, maximum flexibility".to_owned(),
            performance: "Highest performance with direct native execution".to_owned(),
            notes: "Use @lute and @std, build native modules directly (C/C++/Rust)".to_owned(),
        },
        RuntimeKind::Lune => RuntimeConfig {
            name: "lune".to_owned(),
            security: "Sandboxed defaults with bridge isolation".to_owned(),
            performance: "Great for tooling; bridge calls add overhead".to_owned(),
            notes: "Bridge-based integration for external languages".to_owned(),
        },
    }
}

/// The runtime that a project's settings name: lute where they say so,
/// lune in every other case.
pub fn runtime_kind_from_config(cfg: &ProjectConfig) -> (r: RuntimeKind)
    ensures
        r == (match cfg.runtime {
            Some(runtime) => if runtime.name@ == "lute"@ {
                RuntimeKind::Lute
            } else {
                RuntimeKind::Lune
            },
            None => RuntimeKind::Lune,
        }),
{
    match &cfg.runtime {
        Some(runtime) => if same_text(runtime.name.as_str(), "lute") {
            RuntimeKind::Lute
        } else {
            RuntimeKind::Lune
        },
        None => RuntimeKind::Lune,
    }
}

/// How a project on a runtime is built.
pub fn build_config_for(runtime: RuntimeKind, toolchain: Option<ToolchainDetection>) -> (r:
    BuildConfig)
    ensures
        builds_for(r, runtime, toolchain),
{
    match runtime {
        RuntimeKind::Lute => {
            let (c_compiler, cpp_compiler, chain) = match toolchain {
                Some(found) => (found.c_compiler, found.cpp_compiler, found.toolchain),
                None => (None, None, None),
            };
            let mut languages: Vec<String> = Vec::new();
            languages.push("c".to_owned());
            languages.push("cpp".to_owned());
            languages.push("rust".to_owned());
            let mut features: Vec<String> = Vec::new();
            features.push("std".to_owned());
            features.push("lute".to_owned());
            features.push("direct-build".to_owned());
            assert(texts(languages@) =~= seq!["c"@, "cpp"@, "rust"@]);
            assert(texts(features@) =~= seq!["std"@, "lute"@, "direct-build"@]);
            BuildConfig {
                kind: "native".to_owned(),
                link: "direct".to_owned(),
                modules: "native".to_owned(),
                module_languages: languages,
                features,
                c_compiler,
                cpp_compiler,
                toolchain: chain,
            }
        },
        RuntimeKind::Lune => {
            let languages: Vec<String> = Vec::new();
            let mut features: Vec<String> = Vec::new();
            features.push("sandboxed".to_owned());
            features.push("bridge-workers".to_owned());
            assert(texts(languages@) =~= Seq::<Seq<char>>::empty());
            assert(texts(features@) =~= seq!["sandboxed"@, "bridge-workers"@]);
            BuildConfig {
                kind: "bridge".to_owned(),
                link: "http-bridge".to_owned(),
                modules: "bridge".to_owned(),
                module_languages: languages,
                features,
                c_compiler: None,
                cpp_compiler: None,
                toolchain: None,
            }
        },
    }
}

/// Whether a runtime is due for an update check at the time `now`.
pub fn should_check_update(cache: &UpdateCheckCache, target: RuntimeTarget, now: u64) -> (r: bool)
    ensures
        r == update_due(
            if cache.last_check@.contains_key(name_of(target)) {
                Some(cache.last_check@[name_of(target)])
            } else {
                None
            },
            now,
        ),
{
    match cache.last_check.get(runtime_name(target)) {
        Some(then) => now.saturating_sub(*then) >= UPDATE_CHECK_INTERVAL_SECS,
        None => true,
    }
}

/// Records that a runtime was checked for an update at the time `now`.
pub fn record_update_check(cache: &mut UpdateCheckCache, target: RuntimeTarget, now: u64)
    ensures
        final(cache).last_check@ == old(cache).last_check@.insert(name_of(target), now),
{
    cache.last_check.insert(runtime_name(target).to_owned(), now);
}

/// The name of the project in `root`: the directory's name, or
/// `lunu-project` where it has none.
pub fn project_name_from_root(root: &str) -> (r: String)
    ensures
        r@ == (match path_file_name(root@) {
            Some(name) => name,
            None => "lunu-project"@,
        }),
{
    match file_name(root) {
        Some(name) => name,
        None => "lunu-project".to_owned(),
    }
}

/// Where a project's settings are kept.
pub fn project_config_path(root: &str) -> (r: String)
    ensures
        r@ == path_join(root@, "lunu.toml"@),
{
    join(root, "lunu.toml")
}

/// Where a project's lock file is kept.
pub fn lock_path(root: &str) -> (r: String)
    ensures
        r@ == path_join(root@, "lunu.lock"@),
{
    join(root, "lunu.lock")
}

/// The dependency that a directory below `modules` stands for.
pub fn scanned_dependency(name: &str) -> (r: DependencySpec)
    ensures
        r.url.is_none(),
        r.version.is_none(),
        r.path matches Some(p) && p@ == "modules/"@ + name@,
{
    DependencySpec { url: None, version: None, path: Some("modules/".to_owned().concat(name)) }
}

/// Fills in what loaded settings leave open: the runtime and the build
/// settings. What they say already stays.
pub fn with_defaults(cfg: ProjectConfig, runtime: RuntimeKind, build: Option<BuildConfig>) -> (r:
    ProjectConfig)
    ensures
        r.project == cfg.project,
        r.dependencies == cfg.dependencies,
        match cfg.runtime {
            Some(set) => r.runtime == Some(set),
            None => r.runtime matches Some(filled) && describes(filled, runtime),
        },
        r.build == (match cfg.build {
            Some(set) => Some(set),
            None => build,
        }),
{
    let mut cfg = cfg;
    if cfg.runtime.is_none() {
        cfg.runtime = Some(runtime_config_for(runtime));
    }
    if cfg.build.is_none() {
        cfg.build = build;
    }
    cfg
}

/// The script that a new project starts with.
pub fn main_template(runtime: RuntimeKind) -> (r: String)
    ensures
        r@ == (match runtime {
            RuntimeKind::Lute => "local process = require(\"@lute/process\")\nlocal path = require(\"@std/path\")\n\nprint(\"Hello from Lute\")\nprint(`cwd: {process.cwd()}`)\nprint(`exe: {process.execpath()}`)\n"@,
            RuntimeKind::Lune => "print(\"Hello from Lunu\")\n"@,
        }),
{
    match runtime {
        RuntimeKind::Lute => "local process = require(\"@lute/process\")\nlocal path = require(\"@std/path\")\n\nprint(\"Hello from Lute\")\nprint(`cwd: {process.cwd()}`)\nprint(`exe: {process.execpath()}`)\n".to_owned(),
        RuntimeKind::Lune => "print(\"Hello from Lunu\")\n".to_owned(),
    }
}

/// Whether a file's name is one of the candidates' names, whatever the
/// case of its letters.
pub fn matches_candidate_name(file_name: &str, candidates: &Vec<String>) -> (r: bool)
    ensures
        r == exists|i: int|
            0 <= i < candidates@.len() && same_but_ascii_case(
                file_name@,
                #[trigger] candidates@[i]@,
            ),
{
    let mut i: usize = 0;
    while i < candidates.len()
        invariant
            i <= candidates@.len(),
            forall|j: int|
                0 <= j < i ==> !same_but_ascii_case(file_name@, #[trigger] candidates@[j]@),
        decreases candidates@.len() - i,
    {
        if same_ignoring_ascii_case(file_name, candidates[i].as_str()) {
            return true;
        }
        i = i + 1;
    }
    false
}

/// The file name of a runtime's executable.
pub open spec fn bin_name_of(target: RuntimeTarget, windows: bool) -> Seq<char> {
    if windows {
        name_of(target) + ".exe"@
    } else {
        name_of(target)
    }
}

/// The words by which release files name an operating system.
pub open spec fn os_keys_of(os: Seq<char>) -> Seq<Seq<char>> {
    if os == "windows"@ {
        seq!["windows"@, "win"@]
    } else if os == "macos"@ {
        seq!["macos"@, "darwin"@, "osx"@]
    } else if os == "linux"@ {
        seq!["linux"@]
    } else {
        seq![os]
    }
}

/// The words by which release files name a processor architecture.
pub open spec fn arch_keys_of(arch: Seq<char>) -> Seq<Seq<char>> {
    if arch == "x86_64"@ {
        seq!["x86_64"@, "amd64"@, "x64"@]
    } else if arch == "aarch64"@ {
        seq!["aarch64"@, "arm64"@]
    } else if arch == "arm"@ {
        seq!["armv7"@, "arm"@]
    } else {
        seq![arch]
    }
}

/// The dependencies that the directories below `modules` stand for, up to
/// the first `count` of them: each directory is a dependency on itself.
pub open spec fn scanned(names: Seq<String>, count: int) -> Map<Seq<char>, Seq<char>>
    decreases count,
{
    if count <= 0 {
        Map::<Seq<char>, Seq<char>>::empty()
    } else {
        scanned(names, count - 1).insert(names[count - 1]@, "modules/"@ + names[count - 1]@)
    }
}

/// Whether a dependency says nothing but its path.
pub open spec fn only_path(dep: DependencySpec) -> bool {
    dep.url.is_none() && dep.version.is_none() && dep.path.is_some()
}

/// The file name of a runtime's executable on Windows or elsewhere.
pub fn runtime_bin_filename(target: RuntimeTarget, windows: bool) -> (r: String)
    ensures
        r@ == bin_name_of(target, windows),
{
    if windows {
        runtime_name(target).to_owned().concat(".exe")
    } else {
        runtime_name(target).to_owned()
    }
}

/// The extension of executables on Windows or elsewhere.
pub fn executable_extension(windows: bool) -> (r: Option<&'static str>)
    ensures
        match r {
            Some(ext) => windows && ext@ == "exe"@,
            None => !windows,
        },
{
    if windows {
        Some("exe")
    } else {
        None
    }
}

/// The file name of the toolchain's own executable.
pub fn lunu_bin_filename(windows: bool) -> (r: &'static str)
    ensures
        r@ == (if windows {
            "lunu.exe"@
        } else {
            "lunu"@
        }),
{
    if windows {
        "lunu.exe"
    } else {
        "lunu"
    }
}

/// The file name of the builder's executable.
pub fn builder_bin_filename(windows: bool) -> (r: &'static str)
    ensures
        r@ == (if windows {
            "lunu-builder.exe"@
        } else {
            "lunu-builder"@
        }),
{
    if windows {
        "lunu-builder.exe"
    } else {
        "lunu-builder"
    }
}

/// The words by which release files name the operating system `os`.
pub fn platform_os_keys<'a>(os: &'a str) -> (r: Vec<&'a str>)
    ensures
        slices(r@) == os_keys_of(os@),
{
    let mut keys: Vec<&'a str> = Vec::new();
    if same_text(os, "windows") {
        keys.push("windows");
        keys.push("win");
        assert(slices(keys@) =~= seq!["windows"@, "win"@]);
    } else if same_text(os, "macos") {
        keys.push("macos");
        keys.push("darwin");
        keys.push("osx");
        assert(slices(keys@) =~= seq!["macos"@, "darwin"@, "osx"@]);
    } else if same_text(os, "linux") {
        keys.push("linux");
        assert(slices(keys@) =~= seq!["linux"@]);
    } else {
        keys.push(os);
        assert(slices(keys@) =~= seq![os@]);
    }
    keys
}

/// The words by which release files name the architecture `arch`.
pub fn platform_arch_keys<'a>(arch: &'a str) -> (r: Vec<&'a str>)
    ensures
        slices(r@) == arch_keys_of(arch@),
{
    let mut keys: Vec<&'a str> = Vec::new();
    if same_text(arch, "x86_64") {
        keys.push("x86_64");
        keys.push("amd64");
        keys.push("x64");
        assert(slices(keys@) =~= seq!["x86_64"@, "amd64"@, "x64"@]);
    } else if same_text(arch, "aarch64") {
        keys.push("aarch64");
        keys.push("arm64");
        assert(slices(keys@) =~= seq!["aarch64"@, "arm64"@]);
    } else if same_text(arch, "arm") {
        keys.push("armv7");
        keys.push("arm");
        assert(slices(keys@) =~= seq!["armv7"@, "arm"@]);
    } else {
        keys.push(arch);
        assert(slices(keys@) =~= seq![arch@]);
    }
    keys
}

/// The runtime of a project: what the environment asks for, else what the
/// project's settings name, else lune.
pub fn resolve_runtime(from_env: Option<RuntimeKind>, cfg: Option<&ProjectConfig>) -> (r:
    RuntimeKind)
    ensures
        r == (match from_env {
            Some(kind) => kind,
            None => match cfg {
                Some(c) => match c.runtime {
                    Some(runtime) => if runtime.name@ == "lute"@ {
                        RuntimeKind::Lute
                    } else {
                        RuntimeKind::Lune
                    },
                    None => RuntimeKind::Lune,
                },
                None => RuntimeKind::Lune,
            },
        }),
{
    match from_env {
        Some(kind) => kind,
        None => match cfg {
            Some(c) => runtime_kind_from_config(c),
            None => RuntimeKind::Lune,
        },
    }
}

/// Where the installation lives for a project's root: the root itself
/// where it holds the settings, its subdirectory `Lunu` where that is a
/// directory, and the root in every other case.
pub fn resolve_lunu_root(root: &str, has_settings: bool, has_lunu_dir: bool) -> (r: String)
    ensures
        r@ == (if !has_settings && has_lunu_dir {
            path_join(root@, "Lunu"@)
        } else {
            root@
        }),
{
    if has_settings {
        root.to_owned()
    } else if has_lunu_dir {
        join(root, "Lunu")
    } else {
        root.to_owned()
    }
}

/// The dependencies that the directories below `modules` stand for.
pub fn scan_modules(names: &Vec<String>) -> (r: StrMap<DependencySpec>)
    ensures
        r@.dom() == scanned(names@, names@.len() as int).dom(),
        forall|k: Seq<char>| #[trigger]
            r@.contains_key(k) ==> only_path(r@[k]) && r@[k].path.unwrap()@ == scanned(
                names@,
                names@.len() as int,
            )[k],
{
    let mut deps: StrMap<DependencySpec> = StrMap::new();
    let mut i: usize = 0;
    while i < names.len()
        invariant
            i <= names@.len(),
            deps@.dom() == scanned(names@, i as int).dom(),
            forall|k: Seq<char>| #[trigger]
                deps@.contains_key(k) ==> only_path(deps@[k]) && deps@[k].path.unwrap()@
                    == scanned(names@, i as int)[k],
        decreases names@.len() - i,
    {
        let name = names[i].as_str();
        deps.insert(name.to_owned(), scanned_dependency(name));
        proof {
            assert(deps@.dom() =~= scanned(names@, i + 1).dom());
        }
        i = i + 1;
    }
    deps
}

/// Whether one of `keys` stands somewhere in `name`.
pub open spec fn names_one_of(name: Seq<char>, keys: Seq<Seq<char>>) -> bool {
    exists|i: int| 0 <= i < keys.len() && has_part(name, #[trigger] keys[i])
}

/// Whether a release file is for this platform: its name holds one of the
/// words for the operating system and, where that is asked for, one of the
/// words for the architecture.
pub open spec fn fits_platform(
    name: Seq<char>,
    os_keys: Seq<Seq<char>>,
    arch_keys: Seq<Seq<char>>,
    require_arch: bool,
) -> bool {
    names_one_of(name, os_keys) && (!require_arch || names_one_of(name, arch_keys))
}

/// Whether a release file has a form that can be unpacked or run: an
/// archive anywhere, an `.exe` on Windows, and a file without any dot
/// elsewhere.
pub open spec fn supported_form(name: Seq<char>, windows: bool) -> bool {
    ||| has_suffix(name, ".zip"@)
    ||| has_suffix(name, ".tar.gz"@)
    ||| has_suffix(name, ".tgz"@)
    ||| (windows && has_suffix(name, ".exe"@))
    ||| (!windows && !name.contains('.') && !has_suffix(name, "/"@) && !has_suffix(name, "\\"@))
}

/// Whether one of `keys` stands somewhere in `name`.
pub fn names_any(name: &str, keys: &Vec<&str>) -> (r: bool)
    ensures
        r == names_one_of(name@, slices(keys@)),
{
    let mut i: usize = 0;
    while i < keys.len()
        invariant
            i <= keys@.len(),
            forall|j: int| 0 <= j < i ==> !has_part(name@, #[trigger] slices(keys@)[j]),
        decreases keys@.len() - i,
    {
        assert(slices(keys@)[i as int] == keys@[i as int]@);
        if contains(name, keys[i]) {
            return true;
        }
        i = i + 1;
    }
    false
}

/// Whether a release file is for the platform that goes by these words.
pub fn asset_matches_platform(
    name: &str,
    os_keys: &Vec<&str>,
    arch_keys: &Vec<&str>,
    require_arch: bool,
) -> (r: bool)
    ensures
        r == fits_platform(name@, slices(os_keys@), slices(arch_keys@), require_arch),
{
    if !names_any(name, os_keys) {
        return false;
    }
    if require_arch {
        if !names_any(name, arch_keys) {
            return false;
        }
    }
    true
}

/// Whether a release file has a form that can be unpacked or run.
pub fn asset_extension_supported(name: &str, windows: bool) -> (r: bool)
    ensures
        r == supported_form(name@, windows),
{
    if ends_with(name, ".zip") || ends_with(name, ".tar.gz") || ends_with(name, ".tgz") {
        return true;
    }
    if windows && ends_with(name, ".exe") {
        return true;
    }
    let plain = !contains_char(name, '.') && !ends_with(name, "/") && !ends_with(name, "\\");
    if !windows && plain {
        return true;
    }
    false
}

} // verus!
