//! Character-level facts about names and diagnostic lines.

use vstd::prelude::*;

verus! {

/// The characters that Unicode's `White_Space` property lists, the set that
/// `char::is_whitespace` recognises.
pub open spec fn is_space(c: char) -> bool {
    ('\u{9}' <= c && c <= '\u{d}') || c == ' ' || c == '\u{85}' || c == '\u{a0}'
        || c == '\u{1680}' || ('\u{2000}' <= c && c <= '\u{200a}') || c == '\u{2028}'
        || c == '\u{2029}' || c == '\u{202f}' || c == '\u{205f}' || c == '\u{3000}'
}

/// A single path segment: non-empty, with no separator and no whitespace,
/// and neither `.` nor `..`, which name a directory itself or its parent.
pub open spec fn is_segment(s: Seq<char>) -> bool {
    &&& s.len() > 0
    &&& s != seq!['.']
    &&& s != seq!['.', '.']
    &&& forall|i: int| 0 <= i < s.len() ==> s[i] != '/' && !is_space(#[trigger] s[i])
}

/// Whether `c` is whitespace.
pub fn char_is_space(c: char) -> (r: bool)
    ensures
        r == is_space(c),
{
    ('\u{9}' <= c && c <= '\u{d}') || c == ' ' || c == '\u{85}' || c == '\u{a0}'
        || c == '\u{1680}' || ('\u{2000}' <= c && c <= '\u{200a}') || c == '\u{2028}'
        || c == '\u{2029}' || c == '\u{202f}' || c == '\u{205f}' || c == '\u{3000}'
}

/// Whether `s` can stand as one component of a plugin location.
pub fn is_segment_str(s: &str) -> (r: bool)
    ensures
        r == is_segment(s@),
{
    let n = s.unicode_len();
    if n == 0 {
        return false;
    }
    let mut i: usize = 0;
    while i < n
        invariant
            n == s@.len(),
            i <= n,
            forall|j: int| 0 <= j < i ==> s@[j] != '/' && !is_space(#[trigger] s@[j]),
        decreases n - i,
    {
        let c = s.get_char(i);
        if c == '/' || char_is_space(c) {
            return false;
        }
        i = i + 1;
    }
    if n <= 2 && s.get_char(0) == '.' && s.get_char(n - 1) == '.' {
        assert(s@ =~= seq!['.'] || s@ =~= seq!['.', '.']);
        return false;
    }
    assert(s@ != seq!['.'] && s@ != seq!['.', '.']) by {
        if s@ =~= seq!['.'] || s@ =~= seq!['.', '.'] {
            assert(s@[0] == '.' && s@[n - 1] == '.');
        }
    }
    true
}

/// Whether two strings hold the same characters.
pub fn same_text(a: &str, b: &str) -> (r: bool)
    ensures
        r == (a@ == b@),
{
    let n = a.unicode_len();
    if n != b.unicode_len() {
        return false;
    }
    let mut i: usize = 0;
    while i < n
        invariant
            n == a@.len(),
            n == b@.len(),
            i <= n,
            forall|j: int| 0 <= j < i ==> a@[j] == b@[j],
        decreases n - i,
    {
        if a.get_char(i) != b.get_char(i) {
            return false;
        }
        i = i + 1;
    }
    assert(a@ =~= b@);
    true
}

/// Whether `s` starts with `c`.
pub fn starts_with_char(s: &str, c: char) -> (r: bool)
    ensures
        r == (s@.len() > 0 && s@[0] == c),
{
    s.unicode_len() > 0 && s.get_char(0) == c
}

/// The longest prefix of `s` that holds no newline and at most `width`
/// characters.
pub open spec fn is_line_cut(s: Seq<char>, width: nat, r: Seq<char>) -> bool {
    &&& r.len() <= s.len()
    &&& r == s.subrange(0, r.len() as int)
    &&& r.len() <= width
    &&& forall|j: int| 0 <= j < r.len() ==> #[trigger] r[j] != '\n'
    &&& (r.len() == width || r.len() == s.len() || s[r.len() as int] == '\n')
}

/// The first line of `s`, cut to at most `width` characters.
pub fn first_line(s: &str, width: usize) -> (r: String)
    ensures
        is_line_cut(s@, width as nat, r@),
{
    let n = s.unicode_len();
    let mut i: usize = 0;
    while i < n && i < width && s.get_char(i) != '\n'
        invariant
            n == s@.len(),
            i <= n,
            i <= width,
            forall|j: int| 0 <= j < i ==> #[trigger] s@[j] != '\n',
        decreases n - i,
    {
        i = i + 1;
    }
    let r = s.substring_char(0, i).to_owned();
    r
}


/// The characters of each string of `v`.
pub open spec fn texts(v: Seq<String>) -> Seq<Seq<char>> {
    v.map_values(|s: String| s@)
}

} // verus!
