//! Finding the project and the runtime that a standalone executable is
//! built from.

use crate::text::{
    chars_of, contains_char, find_char, first_index, has_prefix, lowercase, same_but_ascii_case,
    same_ignoring_ascii_case, same_text, starts_with, strip, stripped, text_of, to_lower, trim,
    trimmed,
};
use vstd::prelude::*;
use vstd::string::StrSliceExecFns;

verus! {

/// The least size, in bytes, of a file that can be the runtime itself
/// rather than a launcher for it.
pub const MIN_RUNTIME_SIZE: u64 = 200000;

/// Whether a character separates the components of a path. Both slashes
/// do, whatever the platform.
pub open spec fn is_separator(c: char) -> bool {
    c == '/' || c == '\\'
}

/// Whether `from..to` is a component of `path`: a longest run of
/// characters without a separator.
pub open spec fn is_component(path: Seq<char>, from: int, to: int) -> bool {
    &&& 0 <= from <= to <= path.len()
    &&& (from == 0 || is_separator(path[from - 1]))
    &&& (to == path.len() || is_separator(path[to]))
    &&& forall|k: int| from <= k < to ==> !is_separator(#[trigger] path[k])
}

/// Whether `from..to` is a component of `path` that, in lower case, is
/// `a` or `b`.
pub open spec fn part_matches(path: Seq<char>, from: int, to: int, a: Seq<char>, b: Seq<char>) -> bool {
    &&& is_component(path, from, to)
    &&& (lowercase(path.subrange(from, to)) == a || lowercase(path.subrange(from, to)) == b)
}

/// Whether a component that ends before `limit` is `a` or `b` in lower
/// case.
pub open spec fn has_part_before(path: Seq<char>, a: Seq<char>, b: Seq<char>, limit: int) -> bool {
    exists|from: int, to: int| #[trigger] part_matches(path, from, to, a, b) && to < limit
}

/// Whether some component of `path` is `a` or `b` in lower case.
pub open spec fn has_part(path: Seq<char>, a: Seq<char>, b: Seq<char>) -> bool {
    has_part_before(path, a, b, path.len() as int + 1)
}

/// Whether a path names a launcher that rokit put in place of a tool: it
/// lies below a rokit directory, in `bin` or `shims`, and outside the
/// tool storage.
pub open spec fn rokit_shim(path: Seq<char>) -> bool {
    &&& has_part(path, ".rokit"@, "rokit"@)
    &&& has_part(path, "bin"@, "shims"@)
    &&& !has_part(path, "tool-storage"@, "tool-storage"@)
}

/// Whether a directory with these marks is a project's root: it has a
/// modules directory and a manifest, settings or an entry script.
pub open spec fn project_root(
    has_modules: bool,
    has_manifest: bool,
    has_settings: bool,
    has_entry: bool,
) -> bool {
    has_modules && (has_manifest || has_settings || has_entry)
}

/// What was found in a directory that may be a project's root.
#[derive(Clone, Copy, Debug, PartialEq, Eq, Structural)]
pub struct RootMarks {
    pub has_modules: bool,
    pub has_manifest: bool,
    pub has_settings: bool,
    pub has_entry: bool,
}

/// A file that may be the runtime.
#[derive(Clone, Debug)]
pub struct Candidate {
    pub path: String,
    /// The file's size in bytes, where the file could be looked at.
    pub size: Option<u64>,
}

impl Candidate {
    /// Whether the file can be the runtime.
    pub open spec fn fits(self) -> bool {
        runtime_candidate(self.path@, self.size)
    }
}

impl RootMarks {
    /// Whether the directory is a project's root.
    pub open spec fn is_root(self) -> bool {
        project_root(self.has_modules, self.has_manifest, self.has_settings, self.has_entry)
    }
}

/// A component is settled by where it starts or ends: the component that
/// ends within `start..=end`, where `start..end` is one, is that one.
proof fn lemma_component_unique(path: Seq<char>, start: int, end: int, from: int, to: int)
    requires
        is_component(path, start, end),
        is_component(path, from, to),
        start <= to <= end,
    ensures
        from == start,
        to == end,
{
    if to < end {
        assert(!is_separator(path[to]));
    }
    if from < start {
        assert(!is_separator(path[start - 1]));
    } else if from > start {
        assert(!is_separator(path[from - 1]));
    }
}

/// Taking one more component into account.
proof fn lemma_next_component(path: Seq<char>, a: Seq<char>, b: Seq<char>, start: int, end: int)
    requires
        is_component(path, start, end),
    ensures
        has_part_before(path, a, b, end + 1) == (has_part_before(path, a, b, start)
            || part_matches(path, start, end, a, b)),
{
    if has_part_before(path, a, b, end + 1) {
        let (from, to) = choose|from: int, to: int| #[trigger]
            part_matches(path, from, to, a, b) && to < end + 1;
        if to >= start {
            lemma_component_unique(path, start, end, from, to);
        } else {
            assert(part_matches(path, from, to, a, b) && to < start);
        }
    }
    if has_part_before(path, a, b, start) {
        let (from, to) = choose|from: int, to: int| #[trigger]
            part_matches(path, from, to, a, b) && to < start;
        assert(part_matches(path, from, to, a, b) && to < end + 1);
    }
    if part_matches(path, start, end, a, b) {
        assert(part_matches(path, start, end, a, b) && end < end + 1);
    }
}

/// What one component of a path says of the place it names.
#[derive(Clone, Copy, Debug, PartialEq, Eq, Structural)]
pub struct PartMarks {
    /// The component names a rokit directory.
    pub rokit: bool,
    /// The component names the tool storage.
    pub tool_storage: bool,
    /// The component names a directory of launchers.
    pub bin_or_shims: bool,
}

/// What a component says, given the component in lower case.
pub open spec fn marks_of(lowered: Seq<char>) -> PartMarks {
    PartMarks {
        rokit: lowered == ".rokit"@ || lowered == "rokit"@,
        tool_storage: lowered == "tool-storage"@,
        bin_or_shims: lowered == "bin"@ || lowered == "shims"@,
    }
}

/// What two sets of marks say together.
pub open spec fn both_marks(a: PartMarks, b: PartMarks) -> PartMarks {
    PartMarks {
        rokit: a.rokit || b.rokit,
        tool_storage: a.tool_storage || b.tool_storage,
        bin_or_shims: a.bin_or_shims || b.bin_or_shims,
    }
}

/// Whether the marks of a path's components make it a launcher.
pub open spec fn marks_shim(marks: PartMarks) -> bool {
    marks.rokit && marks.bin_or_shims && !marks.tool_storage
}

/// What a component says, given the component in lower case.
pub fn part_marks(lowered: &str) -> (r: PartMarks)
    ensures
        r == marks_of(lowered@),
{
    PartMarks {
        rokit: same_text(lowered, ".rokit") || same_text(lowered, "rokit"),
        tool_storage: same_text(lowered, "tool-storage"),
        bin_or_shims: same_text(lowered, "bin") || same_text(lowered, "shims"),
    }
}

/// What two sets of marks say together.
pub fn merge_marks(a: PartMarks, b: PartMarks) -> (r: PartMarks)
    ensures
        r == both_marks(a, b),
{
    PartMarks {
        rokit: a.rokit || b.rokit,
        tool_storage: a.tool_storage || b.tool_storage,
        bin_or_shims: a.bin_or_shims || b.bin_or_shims,
    }
}

/// Whether the marks of a path's components make it a launcher: it lies
/// below a rokit directory, in a directory of launchers, and outside the
/// tool storage.
pub fn shim_verdict(marks: PartMarks) -> (r: bool)
    ensures
        r == marks_shim(marks),
{
    marks.rokit && marks.bin_or_shims && !marks.tool_storage
}

/// The marks of the components that end before `limit`.
pub open spec fn marks_before(path: Seq<char>, limit: int) -> PartMarks {
    PartMarks {
        rokit: has_part_before(path, ".rokit"@, "rokit"@, limit),
        tool_storage: has_part_before(path, "tool-storage"@, "tool-storage"@, limit),
        bin_or_shims: has_part_before(path, "bin"@, "shims"@, limit),
    }
}

/// Taking the marks of one more component into account.
proof fn lemma_next_marks(path: Seq<char>, start: int, end: int)
    requires
        is_component(path, start, end),
    ensures
        marks_before(path, end + 1) == both_marks(
            marks_before(path, start),
            marks_of(lowercase(path.subrange(start, end))),
        ),
{
    lemma_next_component(path, ".rokit"@, "rokit"@, start, end);
    lemma_next_component(path, "tool-storage"@, "tool-storage"@, start, end);
    lemma_next_component(path, "bin"@, "shims"@, start, end);
}

/// Whether a path names a launcher that rokit put in place of a tool.
pub fn is_rokit_shim(path: &str) -> (r: bool)
    ensures
        r == rokit_shim(path@),
{
    let chars = chars_of(path);
    let n = chars.len();
    let mut marks = PartMarks { rokit: false, tool_storage: false, bin_or_shims: false };
    let mut start: usize = 0;
    let mut i: usize = 0;
    proof {
        assert(!has_part_before(path@, ".rokit"@, "rokit"@, 0));
        assert(!has_part_before(path@, "tool-storage"@, "tool-storage"@, 0));
        assert(!has_part_before(path@, "bin"@, "shims"@, 0));
    }
    while i < n
        invariant
            chars@ == path@,
            n == chars@.len(),
            start <= i <= n,
            start == 0 || is_separator(path@[start - 1]),
            forall|k: int| start <= k < i ==> !is_separator(#[trigger] path@[k]),
            marks == marks_before(path@, start as int),
        decreases n - i,
    {
        if chars[i] == '/' || chars[i] == '\\' {
            let part = to_lower(path.substring_char(start, i));
            proof {
                assert(is_component(path@, start as int, i as int));
                lemma_next_marks(path@, start as int, i as int);
            }
            marks = merge_marks(marks, part_marks(part.as_str()));
            start = i + 1;
        }
        i = i + 1;
    }
    let part = to_lower(path.substring_char(start, n));
    proof {
        assert(is_component(path@, start as int, n as int));
        lemma_next_marks(path@, start as int, n as int);
    }
    marks = merge_marks(marks, part_marks(part.as_str()));
    shim_verdict(marks)
}

/// Whether a file can be the runtime: no launcher of rokit's, and large
/// enough. `size` is the file's size where the file could be looked at.
pub open spec fn runtime_candidate(path: Seq<char>, size: Option<u64>) -> bool {
    !rokit_shim(path) && match size {
        Some(s) => s >= MIN_RUNTIME_SIZE,
        None => false,
    }
}

/// Whether a file can be the runtime.
pub fn is_runtime_candidate(path: &str, size: Option<u64>) -> (r: bool)
    ensures
        r == runtime_candidate(path@, size),
{
    if is_rokit_shim(path) {
        return false;
    }
    match size {
        Some(s) => s >= MIN_RUNTIME_SIZE,
        None => false,
    }
}

/// Whether a directory with these marks is a project's root.
pub fn is_project_root(marks: RootMarks) -> (r: bool)
    ensures
        r == marks.is_root(),
{
    marks.has_modules && (marks.has_manifest || marks.has_settings || marks.has_entry)
}

/// The first of the candidate directories that is a project's root, given
/// the marks of each; `None` where none is.
pub fn find_project_root(marks: &Vec<RootMarks>) -> (r: Option<usize>)
    ensures
        match r {
            Some(i) => {
                &&& i < marks@.len()
                &&& marks@[i as int].is_root()
                &&& forall|j: int| 0 <= j < i ==> !marks@[j].is_root()
            },
            None => forall|j: int| 0 <= j < marks@.len() ==> !marks@[j].is_root(),
        },
{
    let mut i: usize = 0;
    while i < marks.len()
        invariant
            i <= marks@.len(),
            forall|j: int| 0 <= j < i ==> !marks@[j].is_root(),
        decreases marks@.len() - i,
    {
        if is_project_root(marks[i]) {
            return Some(i);
        }
        i = i + 1;
    }
    None
}

/// Whether the saved description of a cache is the current one.
pub fn is_cache_valid(current: &str, saved: &str) -> (r: bool)
    ensures
        r == (current@ == saved@),
{
    same_text(current, saved)
}

/// The version that one line of a rokit manifest gives the runtime: the
/// line, without the white space around it, begins with `lune` and holds
/// exactly one `=`, and what follows that, without white space and quotes
/// around it, is not empty.
pub open spec fn version_in_line(line: Seq<char>) -> Option<Seq<char>> {
    let entry = trimmed(line);
    let at = first_index(entry, '=');
    if has_prefix(entry, "lune"@) && at < entry.len() && !entry.skip(at + 1).contains('=')
        && stripped(trimmed(entry.skip(at + 1)), '"').len() > 0 {
        Some(stripped(trimmed(entry.skip(at + 1)), '"'))
    } else {
        None
    }
}

/// The version of the runtime that a rokit manifest asks for: what the
/// first of its lines that gives a version says. Lines end at line feeds.
pub open spec fn rokit_version(content: Seq<char>) -> Option<Seq<char>>
    decreases content.len(),
{
    let end = first_index(content, '\n');
    if 0 <= end < content.len() {
        match version_in_line(content.take(end)) {
            Some(version) => Some(version),
            None => rokit_version(content.skip(end + 1)),
        }
    } else {
        version_in_line(content)
    }
}

/// Whether a word is a refusal: `0`, `false` or `no` in any case.
pub open spec fn refuses(value: Seq<char>) -> bool {
    same_but_ascii_case(value, "0"@) || same_but_ascii_case(value, "false"@)
        || same_but_ascii_case(value, "no"@)
}

/// Whether a launcher's flag file asks to keep the window closed: its
/// content, without white space around it, is a refusal.
pub open spec fn says_no(content: Seq<char>) -> bool {
    refuses(trimmed(content))
}

/// Whether `i` is the first position with the latest time.
pub open spec fn is_newest(times: Seq<u64>, i: int) -> bool {
    &&& 0 <= i < times.len()
    &&& forall|j: int| 0 <= j < times.len() ==> times[j] <= times[i]
    &&& forall|j: int| 0 <= j < i ==> times[j] < times[i]
}

/// The version that one line of a rokit manifest gives the runtime.
pub fn line_version(line: &str) -> (r: Option<String>)
    ensures
        text_of(r) == version_in_line(line@),
{
    let entry = trim(line);
    if !starts_with(entry, "lune") {
        return None;
    }
    let chars = chars_of(entry);
    let at = find_char(&chars, 0, '=');
    assert(chars@.skip(0) =~= chars@);
    if at >= chars.len() {
        return None;
    }
    let rest = entry.substring_char(at + 1, chars.len());
    assert(rest@ =~= entry@.skip(at + 1));
    if contains_char(rest, '=') {
        return None;
    }
    let version = strip(trim(rest), '"');
    if version.unicode_len() == 0 {
        None
    } else {
        Some(version.to_owned())
    }
}

/// The version of the runtime that a rokit manifest asks for.
pub fn lune_version_from_rokit(content: &str) -> (r: Option<String>)
    ensures
        text_of(r) == rokit_version(content@),
{
    let chars = chars_of(content);
    let n = chars.len();
    let mut start: usize = 0;
    assert(content@.skip(0) =~= content@);
    loop
        invariant
            chars@ == content@,
            n == chars@.len(),
            start <= n,
            rokit_version(content@) == rokit_version(content@.skip(start as int)),
        decreases n - start,
    {
        let end = find_char(&chars, start, '\n');
        let line = content.substring_char(start, end);
        proof {
            assert(line@ =~= content@.skip(start as int).take(end - start));
        }
        let found = line_version(line);
        if end >= n {
            proof {
                assert(content@.skip(start as int).take(end - start) =~= content@.skip(
                    start as int,
                ));
            }
            return found;
        }
        if found.is_some() {
            return found;
        }
        proof {
            assert(content@.skip(start as int).skip(end - start + 1) =~= content@.skip(end + 1));
        }
        start = end + 1;
    }
}

/// Whether a standalone executable opens a window for its script, given
/// the content of its flag file where there is one.
pub fn read_open_cmd(content: Option<&str>) -> (r: bool)
    ensures
        r == (match content {
            Some(text) => !says_no(text@),
            None => true,
        }),
{
    match content {
        Some(text) => !is_refusal(trim(text)),
        None => true,
    }
}

/// Whether a word is a refusal: `0`, `false` or `no` in any case.
pub fn is_refusal(value: &str) -> (r: bool)
    ensures
        r == refuses(value@),
{
    same_ignoring_ascii_case(value, "0") || same_ignoring_ascii_case(value, "false")
        || same_ignoring_ascii_case(value, "no")
}

/// The first of the candidate files that can be the runtime.
pub fn first_runtime_candidate(candidates: &Vec<Candidate>) -> (r: Option<usize>)
    ensures
        match r {
            Some(i) => {
                &&& i < candidates@.len()
                &&& candidates@[i as int].fits()
                &&& forall|j: int| 0 <= j < i ==> !candidates@[j].fits()
            },
            None => forall|j: int| 0 <= j < candidates@.len() ==> !candidates@[j].fits(),
        },
{
    let mut i: usize = 0;
    while i < candidates.len()
        invariant
            i <= candidates@.len(),
            forall|j: int| 0 <= j < i ==> !candidates@[j].fits(),
        decreases candidates@.len() - i,
    {
        if is_runtime_candidate(candidates[i].path.as_str(), candidates[i].size) {
            return Some(i);
        }
        i = i + 1;
    }
    None
}

/// The candidate that was changed last, given the time of each; the first
/// of them where several share that time. `None` without candidates.
pub fn newest(times: &Vec<u64>) -> (r: Option<usize>)
    ensures
        match r {
            Some(i) => is_newest(times@, i as int),
            None => times@.len() == 0,
        },
{
    if times.len() == 0 {
        return None;
    }
    let mut best: usize = 0;
    let mut i: usize = 1;
    while i < times.len()
        invariant
            1 <= i <= times@.len(),
            best < i,
            forall|j: int| 0 <= j < i ==> times@[j] <= times@[best as int],
            forall|j: int| 0 <= j < best ==> times@[j] < times@[best as int],
        decreases times@.len() - i,
    {
        if times[i] > times[best] {
            best = i;
        }
        i = i + 1;
    }
    Some(best)
}

} // verus!
