//! Verified string helpers used throughout signature analysis: equality,
//! prefix tests, prefix stripping (including raw-identifier escapes), and
//! joining documentation lines.

use vstd::prelude::*;
use vstd::string::StrSliceExecFns;
use vstd::string::StringExecFns;

verus! {

/// True when `p` is a prefix of `s` (as character sequences).
pub open spec fn starts_with_spec(s: Seq<char>, p: Seq<char>) -> bool {
    p.len() <= s.len() && s.subrange(0, p.len() as int) == p
}

/// The characters of `s` after a leading `p`, or `None` when `p` is not a prefix.
pub open spec fn strip_prefix_spec(s: Seq<char>, p: Seq<char>) -> Option<Seq<char>> {
    if starts_with_spec(s, p) {
        Some(s.subrange(p.len() as int, s.len() as int))
    } else {
        None
    }
}

/// A declaration name with any raw-identifier escape (`r#`) removed.
pub open spec fn unraw_spec(s: Seq<char>) -> Seq<char> {
    match strip_prefix_spec(s, "r#"@) {
        Some(rest) => rest,
        None => s,
    }
}

/// Character-by-character equality of two string slices.
pub fn str_eq(a: &str, b: &str) -> (r: bool)
    ensures
        r == (a@ == b@),
{
    let a_len = a.unicode_len();
    let b_len = b.unicode_len();
    if a_len != b_len {
        assert(a@ != b@) by {
            assert(a@.len() != b@.len());
        }
        return false;
    }
    let mut i: usize = 0;
    while i < a_len
        invariant
            a_len == a@.len(),
            b_len == b@.len(),
            a_len == b_len,
            i <= a_len,
            forall|j: int| 0 <= j < i ==> a@[j] == b@[j],
        decreases a_len - i,
    {
        if a.get_char(i) != b.get_char(i) {
            return false;
        }
        i += 1;
    }
    assert(a@ =~= b@);
    true
}

/// True when the string slice `s` begins with `p`.
pub fn str_starts_with(s: &str, p: &str) -> (r: bool)
    ensures
        r == starts_with_spec(s@, p@),
{
    let s_len = s.unicode_len();
    let p_len = p.unicode_len();
    if p_len > s_len {
        return false;
    }
    let mut i: usize = 0;
    while i < p_len
        invariant
            s_len == s@.len(),
            p_len == p@.len(),
            p_len <= s_len,
            i <= p_len,
            forall|j: int| 0 <= j < i ==> s@[j] == p@[j],
        decreases p_len - i,
    {
        if s.get_char(i) != p.get_char(i) {
            assert(s@.subrange(0, p@.len() as int)[i as int] != p@[i as int]);
            return false;
        }
        i += 1;
    }
    assert(s@.subrange(0, p@.len() as int) =~= p@);
    true
}

/// True when `s` contains the character `c`.
pub fn str_contains_char(s: &str, c: char) -> (r: bool)
    ensures
        r == s@.contains(c),
{
    let s_len = s.unicode_len();
    let mut i: usize = 0;
    while i < s_len
        invariant
            s_len == s@.len(),
            i <= s_len,
            forall|j: int| 0 <= j < i ==> s@[j] != c,
        decreases s_len - i,
    {
        if s.get_char(i) == c {
            assert(s@.contains(c));
            return true;
        }
        i += 1;
    }
    assert(!s@.contains(c)) by {
        assert(forall|j: int| 0 <= j < s@.len() ==> s@[j] != c);
    }
    false
}

/// The owned tail of `s` starting at character index `from`.
pub fn str_tail(s: &str, from: usize) -> (r: String)
    requires
        from <= s@.len(),
    ensures
        r@ == s@.subrange(from as int, s@.len() as int),
{
    let len = s.unicode_len();
    let t = s.substring_char(from, len);
    t.to_owned()
}

/// Strips `p` from the front of `s`, if present.
pub fn strip_prefix(s: &str, p: &str) -> (r: Option<String>)
    ensures
        match r {
            Some(rest) => strip_prefix_spec(s@, p@) == Some(rest@),
            None => strip_prefix_spec(s@, p@) is None,
        },
{
    if str_starts_with(s, p) {
        let p_len = p.unicode_len();
        assert(p_len <= s@.len());
        Some(str_tail(s, p_len))
    } else {
        None
    }
}

/// A declaration name with any raw-identifier escape removed, as owned text.
pub fn unraw(s: &str) -> (r: String)
    ensures
        r@ == unraw_spec(s@),
{
    match strip_prefix(s, "r#") {
        Some(rest) => rest,
        None => s.to_owned(),
    }
}

/// The documentation text formed by the given lines, separated by newlines.
pub open spec fn joined_spec(lines: Seq<Seq<char>>) -> Seq<char>
    decreases lines.len(),
{
    if lines.len() == 0 {
        Seq::empty()
    } else if lines.len() == 1 {
        lines[0]
    } else {
        lines[0] + "\n"@ + joined_spec(lines.drop_first())
    }
}

fn join_lines_from(lines: &Vec<String>, from: usize) -> (r: String)
    requires
        from <= lines@.len(),
    ensures
        r@ == joined_spec(lines.deep_view().subrange(from as int, lines@.len() as int)),
    decreases lines@.len() - from,
{
    let ghost tail = lines.deep_view().subrange(from as int, lines@.len() as int);
    if from == lines.len() {
        assert(tail.len() == 0);
        String::new()
    } else if from + 1 == lines.len() {
        assert(tail.len() == 1 && tail[0] == lines.deep_view()[from as int]);
        lines[from].clone()
    } else {
        let rest = join_lines_from(lines, from + 1);
        let head = lines[from].clone();
        let r = head.concat("\n").concat(rest.as_str());
        assert(tail.drop_first() =~= lines.deep_view().subrange(
            from as int + 1,
            lines@.len() as int,
        ));
        assert(tail[0] == lines.deep_view()[from as int]);
        r
    }
}

/// Copies a list of strings.
pub fn clone_strings(v: &Vec<String>) -> (r: Vec<String>)
    ensures
        r.deep_view() == v.deep_view(),
{
    let mut r: Vec<String> = Vec::new();
    let mut i: usize = 0;
    while i < v.len()
        invariant
            i <= v@.len(),
            r.deep_view() == v.deep_view().subrange(0, i as int),
        decreases v@.len() - i,
    {
        let ghost pre = r.deep_view();
        r.push(v[i].clone());
        proof {
            assert(r.deep_view() =~= pre.push(v.deep_view()[i as int]));
            assert(r.deep_view() =~= v.deep_view().subrange(0, i as int + 1));
        }
        i += 1;
    }
    assert(v.deep_view().subrange(0, v@.len() as int) =~= v.deep_view());
    r
}

/// Joins documentation lines with newline separators.
pub fn join_lines(lines: &Vec<String>) -> (r: String)
    ensures
        r@ == joined_spec(lines.deep_view()),
{
    let r = join_lines_from(lines, 0);
    assert(lines.deep_view().subrange(0, lines@.len() as int) =~= lines.deep_view());
    r
}

} // verus!
