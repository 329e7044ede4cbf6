//! Strings as sequences of characters.

use vstd::prelude::*;
use vstd::string::StrSliceExecFns;

verus! {

/// `str`'s `eq` from std: two string slices are equal exactly when they hold
/// the same characters.
pub assume_specification[ <str as PartialEq>::eq ](a: &str, b: &str) -> (r: bool)
    ensures
        r == (a@ == b@),
;

/// Whether two string slices hold the same characters.
pub fn same_text(a: &str, b: &str) -> (r: bool)
    ensures
        r == (a@ == b@),
{
    a.eq(b)
}

/// The text that `str::to_lowercase` makes of a text.
pub uninterp spec fn lowercase(text: Seq<char>) -> Seq<char>;

/// Calls `str::to_lowercase`, which reads nothing but the text.
#[verifier::external_body]
pub(crate) fn to_lower(text: &str) -> (r: String)
    ensures
        r@ == lowercase(text@),
{
    text.to_lowercase()
}

/// The characters of an optional string.
pub open spec fn text_of(r: Option<String>) -> Option<Seq<char>> {
    match r {
        Some(s) => Some(s@),
        None => None,
    }
}

/// The characters of an optional string slice.
pub open spec fn text_of_ref(r: Option<&str>) -> Option<Seq<char>> {
    match r {
        Some(s) => Some(s@),
        None => None,
    }
}

/// The texts of a sequence of string slices.
pub open spec fn slices(items: Seq<&str>) -> Seq<Seq<char>> {
    Seq::new(items.len(), |i: int| items[i]@)
}

/// The texts of a sequence of strings.
pub open spec fn texts(items: Seq<String>) -> Seq<Seq<char>> {
    Seq::new(items.len(), |i: int| items[i]@)
}

/// The characters of a string, in order.
pub fn chars_of(s: &str) -> (r: Vec<char>)
    ensures
        r@ == s@,
{
    let mut out: Vec<char> = Vec::new();
    for c in it: s.chars()
        invariant
            it.seq() == s@,
            out@ == s@.take(it.index()),
    {
        out.push(c);
    }
    out
}

/// Whether `text` begins with `prefix`.
pub open spec fn has_prefix(text: Seq<char>, prefix: Seq<char>) -> bool {
    prefix.len() <= text.len() && text.take(prefix.len() as int) == prefix
}

/// A character's code with the letters `A` to `Z` taken as `a` to `z`.
pub open spec fn ascii_folded(c: char) -> u32 {
    if 'A' <= c <= 'Z' {
        (c as u32 + 32) as u32
    } else {
        c as u32
    }
}

/// Whether two texts are the same but for the case of the letters `a` to
/// `z`.
pub open spec fn same_but_ascii_case(a: Seq<char>, b: Seq<char>) -> bool {
    a.len() == b.len() && forall|i: int|
        0 <= i < a.len() ==> ascii_folded(#[trigger] a[i]) == ascii_folded(b[i])
}

/// Whether `text` begins with `prefix`.
pub fn starts_with(text: &str, prefix: &str) -> (r: bool)
    ensures
        r == has_prefix(text@, prefix@),
{
    let t = chars_of(text);
    let p = chars_of(prefix);
    if p.len() > t.len() {
        return false;
    }
    let mut i: usize = 0;
    while i < p.len()
        invariant
            i <= p@.len() <= t@.len(),
            t@ == text@,
            p@ == prefix@,
            forall|j: int| 0 <= j < i ==> t@[j] == p@[j],
        decreases p@.len() - i,
    {
        if t[i] != p[i] {
            assert(text@.take(prefix@.len() as int)[i as int] != prefix@[i as int]);
            return false;
        }
        i = i + 1;
    }
    assert(text@.take(prefix@.len() as int) =~= prefix@);
    true
}

/// A character's code with the letters `A` to `Z` taken as `a` to `z`.
pub fn fold_ascii(c: char) -> (r: u32)
    ensures
        r == ascii_folded(c),
{
    if 'A' <= c && c <= 'Z' {
        c as u32 + 32
    } else {
        c as u32
    }
}

/// Whether two texts are the same but for the case of the letters `a` to
/// `z`.
pub fn same_ignoring_ascii_case(a: &str, b: &str) -> (r: bool)
    ensures
        r == same_but_ascii_case(a@, b@),
{
    let x = chars_of(a);
    let y = chars_of(b);
    if x.len() != y.len() {
        return false;
    }
    let mut i: usize = 0;
    while i < x.len()
        invariant
            i <= x@.len(),
            x@.len() == y@.len(),
            x@ == a@,
            y@ == b@,
            forall|j: int| 0 <= j < i ==> ascii_folded(#[trigger] x@[j]) == ascii_folded(y@[j]),
        decreases x@.len() - i,
    {
        if fold_ascii(x[i]) != fold_ascii(y[i]) {
            return false;
        }
        i = i + 1;
    }
    true
}

/// Whether `text` ends with `suffix`.
pub open spec fn has_suffix(text: Seq<char>, suffix: Seq<char>) -> bool {
    suffix.len() <= text.len() && text.skip(text.len() - suffix.len()) == suffix
}

/// Whether `part` stands in `text` from position `at` on.
pub open spec fn occurs_at(text: Seq<char>, part: Seq<char>, at: int) -> bool {
    0 <= at && at + part.len() <= text.len() && text.subrange(at, at + part.len()) == part
}

/// Whether `part` stands somewhere in `text`.
pub open spec fn has_part(text: Seq<char>, part: Seq<char>) -> bool {
    exists|at: int| occurs_at(text, part, at)
}

/// Whether `part` stands in `text` from position `at` on.
fn matches_at(text: &Vec<char>, part: &Vec<char>, at: usize) -> (r: bool)
    requires
        at + part@.len() <= text@.len(),
    ensures
        r == occurs_at(text@, part@, at as int),
{
    let length = text.len();
    let mut j: usize = 0;
    while j < part.len()
        invariant
            j <= part@.len(),
            at + part@.len() <= text@.len() == length,
            forall|k: int| 0 <= k < j ==> text@[at + k] == part@[k],
        decreases part@.len() - j,
    {
        if text[at + j] != part[j] {
            assert(text@.subrange(at as int, at + part@.len())[j as int] != part@[j as int]);
            return false;
        }
        j = j + 1;
    }
    assert(text@.subrange(at as int, at + part@.len()) =~= part@);
    true
}

/// Whether `text` ends with `suffix`.
pub fn ends_with(text: &str, suffix: &str) -> (r: bool)
    ensures
        r == has_suffix(text@, suffix@),
{
    let t = chars_of(text);
    let s = chars_of(suffix);
    if s.len() > t.len() {
        return false;
    }
    let at = t.len() - s.len();
    assert(t@.skip(at as int) =~= t@.subrange(at as int, at + s@.len()));
    matches_at(&t, &s, at)
}

/// Whether `part` stands somewhere in `text`.
pub fn contains(text: &str, part: &str) -> (r: bool)
    ensures
        r == has_part(text@, part@),
{
    let t = chars_of(text);
    let p = chars_of(part);
    if p.len() > t.len() {
        return false;
    }
    let last = t.len() - p.len();
    let mut at: usize = 0;
    loop
        invariant
            at <= last,
            last + p@.len() == t@.len(),
            t@ == text@,
            p@ == part@,
            forall|k: int| 0 <= k < at ==> !occurs_at(text@, part@, k),
        decreases last - at,
    {
        if matches_at(&t, &p, at) {
            return true;
        }
        if at == last {
            return false;
        }
        at = at + 1;
    }
}

/// Whether the character `c` stands somewhere in `text`.
pub fn contains_char(text: &str, c: char) -> (r: bool)
    ensures
        r == text@.contains(c),
{
    let t = chars_of(text);
    let mut i: usize = 0;
    while i < t.len()
        invariant
            i <= t@.len(),
            t@ == text@,
            forall|j: int| 0 <= j < i ==> t@[j] != c,
        decreases t@.len() - i,
    {
        if t[i] == c {
            return true;
        }
        i = i + 1;
    }
    false
}

/// Whether `i` is where the first `c` of `text` stands, or the end of a
/// text without `c`.
pub open spec fn first_at(text: Seq<char>, c: char, i: int) -> bool {
    &&& 0 <= i <= text.len()
    &&& i < text.len() ==> text[i] == c
    &&& forall|j: int| 0 <= j < i ==> text[j] != c
}

/// Where the first `c` of `text` stands; the length of a text without `c`.
pub open spec fn first_index(text: Seq<char>, c: char) -> int {
    choose|i: int| first_at(text, c, i)
}

/// Whether `i` is how many `c` stand at the start of `text`.
pub open spec fn lead_at(text: Seq<char>, c: char, i: int) -> bool {
    &&& 0 <= i <= text.len()
    &&& i < text.len() ==> text[i] != c
    &&& forall|j: int| 0 <= j < i ==> text[j] == c
}

/// Whether everything from `k` on is `c` and nothing before it ends in
/// `c`.
pub open spec fn tail_at(text: Seq<char>, c: char, k: int) -> bool {
    &&& 0 <= k <= text.len()
    &&& k > 0 ==> text[k - 1] != c
    &&& forall|j: int| k <= j < text.len() ==> text[j] == c
}

/// The text without the run of `c` at each of its two ends.
pub open spec fn stripped(text: Seq<char>, c: char) -> Seq<char> {
    let from = choose|i: int| lead_at(text, c, i);
    let to = choose|k: int| tail_at(text, c, k);
    if from < to {
        text.subrange(from, to)
    } else {
        Seq::<char>::empty()
    }
}

/// The first `c` of a text stands at one place only.
pub proof fn lemma_first_index(text: Seq<char>, c: char, i: int)
    requires
        first_at(text, c, i),
    ensures
        first_index(text, c) == i,
{
    let k = first_index(text, c);
    if k < i {
        assert(text[k] != c);
    } else if i < k {
        assert(text[i] != c);
    }
}

/// A text has one run of `c` at its start and one at its end.
pub proof fn lemma_stripped(text: Seq<char>, c: char, from: int, to: int)
    requires
        lead_at(text, c, from),
        tail_at(text, c, to),
    ensures
        stripped(text, c) == (if from < to {
            text.subrange(from, to)
        } else {
            Seq::<char>::empty()
        }),
{
    let f = choose|i: int| lead_at(text, c, i);
    let t = choose|k: int| tail_at(text, c, k);
    if f < from {
        assert(text[f] == c);
    } else if from < f {
        assert(text[from] == c);
    }
    if t < to {
        assert(text[to - 1] == c);
    } else if to < t {
        assert(text[t - 1] == c);
    }
}

/// Where the first `c` at or after `from` stands; the length where there
/// is none.
pub fn find_char(text: &Vec<char>, from: usize, c: char) -> (r: usize)
    requires
        from <= text@.len(),
    ensures
        from <= r <= text@.len(),
        first_at(text@.skip(from as int), c, r - from),
        first_index(text@.skip(from as int), c) == r - from,
{
    let mut i: usize = from;
    while i < text.len() && text[i] != c
        invariant
            from <= i <= text@.len(),
            forall|j: int| from <= j < i ==> text@[j] != c,
        decreases text@.len() - i,
    {
        i = i + 1;
    }
    proof {
        assert(first_at(text@.skip(from as int), c, i - from));
        lemma_first_index(text@.skip(from as int), c, i - from);
    }
    i
}

/// The text without the run of `c` at each of its two ends.
pub fn strip<'a>(text: &'a str, c: char) -> (r: &'a str)
    ensures
        r@ == stripped(text@, c),
{
    let chars = chars_of(text);
    let mut from: usize = 0;
    while from < chars.len() && chars[from] == c
        invariant
            from <= chars@.len(),
            chars@ == text@,
            forall|j: int| 0 <= j < from ==> chars@[j] == c,
        decreases chars@.len() - from,
    {
        from = from + 1;
    }
    let mut to: usize = chars.len();
    while to > 0 && chars[to - 1] == c
        invariant
            to <= chars@.len(),
            chars@ == text@,
            forall|j: int| to <= j < chars@.len() ==> chars@[j] == c,
        decreases to,
    {
        to = to - 1;
    }
    proof {
        lemma_stripped(text@, c, from as int, to as int);
    }
    if from < to {
        text.substring_char(from, to)
    } else {
        proof {
            reveal_strlit("");
            assert(""@ =~= Seq::<char>::empty());
        }
        ""
    }
}

/// Whether a character is white space: the characters that Unicode
/// gives the property White_Space.
pub open spec fn is_space(c: char) -> bool {
    let n = c as u32;
    ||| 0x09 <= n <= 0x0D
    ||| n == 0x20
    ||| n == 0x85
    ||| n == 0xA0
    ||| n == 0x1680
    ||| 0x2000 <= n <= 0x200A
    ||| n == 0x2028
    ||| n == 0x2029
    ||| n == 0x202F
    ||| n == 0x205F
    ||| n == 0x3000
}

/// Whether `i` is how many white-space characters stand at the start of
/// `text`.
pub open spec fn space_lead_at(text: Seq<char>, i: int) -> bool {
    &&& 0 <= i <= text.len()
    &&& i < text.len() ==> !is_space(text[i])
    &&& forall|j: int| 0 <= j < i ==> is_space(#[trigger] text[j])
}

/// Whether everything from `k` on is white space and nothing before it
/// ends in white space.
pub open spec fn space_tail_at(text: Seq<char>, k: int) -> bool {
    &&& 0 <= k <= text.len()
    &&& k > 0 ==> !is_space(text[k - 1])
    &&& forall|j: int| k <= j < text.len() ==> is_space(#[trigger] text[j])
}

/// The text without the white space at its two ends.
pub open spec fn trimmed(text: Seq<char>) -> Seq<char> {
    let from = choose|i: int| space_lead_at(text, i);
    let to = choose|k: int| space_tail_at(text, k);
    if from < to {
        text.subrange(from, to)
    } else {
        Seq::<char>::empty()
    }
}

/// A text has one run of white space at its start and one at its end.
pub proof fn lemma_trimmed(text: Seq<char>, from: int, to: int)
    requires
        space_lead_at(text, from),
        space_tail_at(text, to),
    ensures
        trimmed(text) == (if from < to {
            text.subrange(from, to)
        } else {
            Seq::<char>::empty()
        }),
{
    let f = choose|i: int| space_lead_at(text, i);
    let t = choose|k: int| space_tail_at(text, k);
    if f < from {
        assert(is_space(text[f]));
    } else if from < f {
        assert(is_space(text[from]));
    }
    if t < to {
        assert(is_space(text[to - 1]));
    } else if to < t {
        assert(is_space(text[t - 1]));
    }
}

/// Whether a character is white space.
pub fn is_whitespace(c: char) -> (r: bool)
    ensures
        r == is_space(c),
{
    let n: u32 = c as u32;
    (0x09 <= n && n <= 0x0D) || n == 0x20 || n == 0x85 || n == 0xA0 || n == 0x1680 || (0x2000
        <= n && n <= 0x200A) || n == 0x2028 || n == 0x2029 || n == 0x202F || n == 0x205F || n
        == 0x3000
}

/// The text without the white space at its two ends.
pub fn trim<'a>(text: &'a str) -> (r: &'a str)
    ensures
        r@ == trimmed(text@),
{
    let chars = chars_of(text);
    let mut from: usize = 0;
    while from < chars.len() && is_whitespace(chars[from])
        invariant
            from <= chars@.len(),
            chars@ == text@,
            forall|j: int| 0 <= j < from ==> is_space(#[trigger] chars@[j]),
        decreases chars@.len() - from,
    {
        from = from + 1;
    }
    let mut to: usize = chars.len();
    while to > 0 && is_whitespace(chars[to - 1])
        invariant
            to <= chars@.len(),
            chars@ == text@,
            forall|j: int| to <= j < chars@.len() ==> is_space(#[trigger] chars@[j]),
        decreases to,
    {
        to = to - 1;
    }
    proof {
        lemma_trimmed(text@, from as int, to as int);
    }
    if from < to {
        text.substring_char(from, to)
    } else {
        proof {
            reveal_strlit("");
            assert(""@ =~= Seq::<char>::empty());
        }
        ""
    }
}

/// Whether `a` comes before `b` in the order of texts: character by
/// character, by the characters' codes, a text before its extensions.
pub open spec fn precedes(a: Seq<char>, b: Seq<char>) -> bool
    decreases a.len(),
{
    if b.len() == 0 {
        false
    } else if a.len() == 0 {
        true
    } else if a[0] != b[0] {
        (a[0] as u32) < (b[0] as u32)
    } else {
        precedes(a.skip(1), b.skip(1))
    }
}

/// No text comes before itself.
pub proof fn lemma_precedes_irreflexive(a: Seq<char>)
    ensures
        !precedes(a, a),
    decreases a.len(),
{
    if a.len() > 0 {
        lemma_precedes_irreflexive(a.skip(1));
    }
}

/// What comes before a text comes before everything after it.
pub proof fn lemma_precedes_transitive(a: Seq<char>, b: Seq<char>, c: Seq<char>)
    requires
        precedes(a, b),
        precedes(b, c),
    ensures
        precedes(a, c),
    decreases a.len(),
{
    if a.len() > 0 && a[0] == b[0] && b[0] == c[0] {
        lemma_precedes_transitive(a.skip(1), b.skip(1), c.skip(1));
    }
}

/// Different characters have different codes.
pub proof fn lemma_codes_differ(c: char, d: char)
    requires
        c != d,
    ensures
        (c as u32) < (d as u32) || (d as u32) < (c as u32),
{
}

/// Of two different texts one comes before the other.
pub proof fn lemma_precedes_total(a: Seq<char>, b: Seq<char>)
    ensures
        a == b || precedes(a, b) || precedes(b, a),
    decreases a.len(),
{
    if a.len() == 0 && b.len() == 0 {
        assert(a =~= b);
    } else if a.len() == 0 {
        assert(precedes(a, b));
    } else if b.len() == 0 {
        assert(precedes(b, a));
    } else if a[0] != b[0] {
        lemma_codes_differ(a[0], b[0]);
    } else {
        lemma_precedes_total(a.skip(1), b.skip(1));
        assert(precedes(a, b) == precedes(a.skip(1), b.skip(1)));
        assert(precedes(b, a) == precedes(b.skip(1), a.skip(1)));
        if a.skip(1) == b.skip(1) {
            assert(a =~= seq![a[0]] + a.skip(1));
            assert(b =~= seq![b[0]] + b.skip(1));
        }
    }
}

/// Whether `a` comes before `b` in the order of texts.
pub fn text_before(a: &str, b: &str) -> (r: bool)
    ensures
        r == precedes(a@, b@),
{
    let x = chars_of(a);
    let y = chars_of(b);
    let mut i: usize = 0;
    assert(a@.skip(0) =~= a@ && b@.skip(0) =~= b@);
    loop
        invariant
            x@ == a@,
            y@ == b@,
            i <= x@.len(),
            i <= y@.len(),
            precedes(a@, b@) == precedes(a@.skip(i as int), b@.skip(i as int)),
        decreases x@.len() - i,
    {
        if i == y.len() {
            return false;
        }
        if i == x.len() {
            return true;
        }
        if x[i] != y[i] {
            return (x[i] as u32) < (y[i] as u32);
        }
        proof {
            assert(a@.skip(i as int).skip(1) =~= a@.skip(i + 1));
            assert(b@.skip(i as int).skip(1) =~= b@.skip(i + 1));
        }
        i = i + 1;
    }
}

} // verus!
