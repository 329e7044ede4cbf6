//! Paths as text: where a worker's executable and working directory
//! resolve to, and whether a worker may use them.

use crate::text::{contains_char, text_of};
use vstd::prelude::*;

verus! {

/// Whether `std::path::Path::is_absolute` holds of a path. Like the other
/// names of this module it stands for what std computes from the path's
/// text alone, with the separators and roots of the platform that the
/// crate is built for.
pub uninterp spec fn path_is_absolute(path: Seq<char>) -> bool;

/// Whether `std::path::Path::starts_with` holds of a path and a base: the
/// base's components are the first components of the path.
pub uninterp spec fn path_starts_with(path: Seq<char>, base: Seq<char>) -> bool;

/// Whether `std::path::Path::ends_with` holds of a path and a tail: the
/// tail's components are the last components of the path.
pub uninterp spec fn path_ends_with(path: Seq<char>, tail: Seq<char>) -> bool;

/// The path that `std::path::Path::join` makes of a base and a path.
pub uninterp spec fn path_join(base: Seq<char>, path: Seq<char>) -> Seq<char>;

/// The last component of a path as `std::path::Path::file_name` gives it;
/// `None` where the path has none.
pub uninterp spec fn path_file_name(path: Seq<char>) -> Option<Seq<char>>;

/// The path that `path_clean::clean` makes of a path: the same path without
/// `.` components, doubled separators, and `..` components that follow a
/// name.
pub uninterp spec fn path_clean(path: Seq<char>) -> Seq<char>;

/// Calls `Path::is_absolute`, which reads nothing but the path's text.
#[verifier::external_body]
pub(crate) fn is_absolute(path: &str) -> (r: bool)
    ensures
        r == path_is_absolute(path@),
{
    std::path::Path::new(path).is_absolute()
}

/// Calls `Path::starts_with`, which compares whole components and reads
/// nothing but the two texts.
#[verifier::external_body]
pub(crate) fn starts_with(path: &str, base: &str) -> (r: bool)
    ensures
        r == path_starts_with(path@, base@),
{
    std::path::Path::new(path).starts_with(base)
}

/// Calls `Path::ends_with`, which compares whole components and reads
/// nothing but the two texts.
#[verifier::external_body]
pub(crate) fn ends_with(path: &str, tail: &str) -> (r: bool)
    ensures
        r == path_ends_with(path@, tail@),
{
    std::path::Path::new(path).ends_with(tail)
}

/// Calls `Path::join` and hands the joined path back as text. Both parts
/// are text, so the conversion loses nothing.
#[verifier::external_body]
pub(crate) fn join(base: &str, path: &str) -> (r: String)
    ensures
        r@ == path_join(base@, path@),
{
    std::path::Path::new(base).join(path).to_string_lossy().into_owned()
}

/// Calls `Path::file_name` and hands the name back as text. The path is
/// text, so the conversion loses nothing.
#[verifier::external_body]
pub(crate) fn file_name(path: &str) -> (r: Option<String>)
    ensures
        text_of(r) == path_file_name(path@),
{
    std::path::Path::new(path).file_name().map(|name| name.to_string_lossy().into_owned())
}

/// Calls `path_clean::clean` and hands the cleaned path back as text. The
/// cleaning is lexical: it reads no file system.
#[verifier::external_body]
pub(crate) fn clean(path: &str) -> (r: String)
    ensures
        r@ == path_clean(path@),
{
    path_clean::clean(path).to_string_lossy().into_owned()
}

/// A path without any separator: the bare name of a command.
pub open spec fn bare_name(path: Seq<char>) -> bool {
    !path.contains('/') && !path.contains('\\')
}

/// The target as the validator looks at it: taken as it is where it is
/// absolute, resolved against the base where it is relative, then cleaned.
pub open spec fn lexical_target(base: Seq<char>, target: Seq<char>) -> Seq<char> {
    path_clean(
        if path_is_absolute(target) {
            target
        } else {
            path_join(base, target)
        },
    )
}

/// Whether the cleaned target stays within the base.
pub open spec fn stays_within(base: Seq<char>, target: Seq<char>) -> bool {
    path_starts_with(lexical_target(base, target), base)
}

/// The validator's policy: a target is allowed where it stays within the
/// base, where it is a bare command name, or where it is absolute; any
/// other target is denied.
pub open spec fn safe_path(base: Seq<char>, target: Seq<char>) -> bool {
    stays_within(base, target) || bare_name(target) || path_is_absolute(target)
}

/// Where a relative path resolves to: an absolute path stands for itself.
pub open spec fn resolved(base: Seq<char>, path: Seq<char>) -> Seq<char> {
    if path_is_absolute(path) {
        path
    } else {
        path_join(base, path)
    }
}

/// Where a worker's executable resolves to. A relative name is the file of
/// that name in the module's directory where there is one, and otherwise
/// the name itself, left for the search path.
pub open spec fn resolved_exec(module_dir: Seq<char>, exec: Seq<char>, local_exists: bool) -> Seq<
    char,
> {
    if path_is_absolute(exec) {
        exec
    } else if local_exists {
        path_join(module_dir, exec)
    } else {
        exec
    }
}

/// Whether `path` holds no separator.
pub fn is_bare_name(path: &str) -> (r: bool)
    ensures
        r == bare_name(path@),
{
    !contains_char(path, '/') && !contains_char(path, '\\')
}

/// The verdict on a target, from the three facts that the policy asks for.
pub fn path_verdict(within: bool, bare: bool, absolute: bool) -> (r: bool)
    ensures
        r == (within || bare || absolute),
{
    within || bare || absolute
}

/// Whether a worker of the module in `base` may use `target` as its
/// executable or its working directory.
pub fn is_safe_path(base: &str, target: &str) -> (r: bool)
    ensures
        r == safe_path(base@, target@),
{
    let absolute = is_absolute(target);
    let cleaned = if absolute {
        clean(target)
    } else {
        let joined = join(base, target);
        clean(joined.as_str())
    };
    let within = starts_with(cleaned.as_str(), base);
    path_verdict(within, is_bare_name(target), absolute)
}

/// The file in the module's directory that a relative executable name may
/// stand for.
pub fn local_candidate(module_dir: &str, exec_path: &str) -> (r: String)
    ensures
        r@ == path_join(module_dir@, exec_path@),
{
    join(module_dir, exec_path)
}

/// Where a worker's executable resolves to; `local_exists` says whether
/// `local_candidate` names an existing file.
pub fn resolve_exec_path(module_dir: &str, exec_path: &str, local_exists: bool) -> (r: String)
    ensures
        r@ == resolved_exec(module_dir@, exec_path@, local_exists),
{
    if is_absolute(exec_path) {
        exec_path.to_owned()
    } else if local_exists {
        join(module_dir, exec_path)
    } else {
        exec_path.to_owned()
    }
}

/// Where a worker's working directory resolves to.
pub fn resolve_cwd_path(module_dir: &str, cwd: &str) -> (r: String)
    ensures
        r@ == resolved(module_dir@, cwd@),
{
    if is_absolute(cwd) {
        cwd.to_owned()
    } else {
        join(module_dir, cwd)
    }
}

/// Where the log file resolves to.
pub fn resolve_log_path(base_dir: &str, path: &str) -> (r: String)
    ensures
        r@ == resolved(base_dir@, path@),
{
    if is_absolute(path) {
        path.to_owned()
    } else {
        join(base_dir, path)
    }
}

/// Where the modules live: the configured directory, or `modules` where
/// none is configured, resolved against the base directory.
pub fn resolve_modules_dir(base_dir: &str, modules_dir: Option<&str>) -> (r: String)
    ensures
        r@ == resolved(
            base_dir@,
            match modules_dir {
                Some(dir) => dir@,
                None => "modules"@,
            },
        ),
{
    let dir = match modules_dir {
        Some(dir) => dir,
        None => "modules",
    };
    if is_absolute(dir) {
        dir.to_owned()
    } else {
        join(base_dir, dir)
    }
}

/// A bare command name is allowed under every base.
pub proof fn lemma_bare_name_is_safe(base: Seq<char>, target: Seq<char>)
    requires
        bare_name(target),
    ensures
        safe_path(base, target),
{
}

/// An absolute path is allowed under every base.
pub proof fn lemma_absolute_is_safe(base: Seq<char>, target: Seq<char>)
    requires
        path_is_absolute(target),
    ensures
        safe_path(base, target),
{
}

/// A path with a separator that is not absolute and leaves the base is
/// denied.
pub proof fn lemma_escape_is_denied(base: Seq<char>, target: Seq<char>)
    requires
        !bare_name(target),
        !path_is_absolute(target),
        !stays_within(base, target),
    ensures
        !safe_path(base, target),
{
}

} // verus!
