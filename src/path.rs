//! Character-level predicates on request paths.
use vstd::prelude::*;

verus! {

/// `p` is a prefix of `s`.
pub open spec fn has_prefix(s: Seq<char>, p: Seq<char>) -> bool {
    p.len() <= s.len() && s.subrange(0, p.len() as int) == p
}

/// The character that separates path segments.
pub open spec fn is_sep(c: char) -> bool {
    c == '/'
}

/// A `..` segment starts at index `i` of `s`.
pub open spec fn parent_segment_at(s: Seq<char>, i: int) -> bool {
    &&& 0 <= i
    &&& i + 2 <= s.len()
    &&& (i == 0 || is_sep(s[i - 1]))
    &&& s[i] == '.'
    &&& s[i + 1] == '.'
    &&& (i + 2 == s.len() || is_sep(s[i + 2]))
}

/// `s` holds a `..` segment somewhere.
pub open spec fn climbs_out(s: Seq<char>) -> bool {
    exists|i: int| parent_segment_at(s, i)
}

/// `s` starts with the percent escape `%2` followed by `lo` or `hi`.
pub open spec fn escape_first(s: Seq<char>, lo: char, hi: char) -> bool {
    s.len() >= 3 && s[0] == '%' && s[1] == '2' && (s[2] == lo || s[2] == hi)
}

/// `s` with each percent escape of a dot (`%2e`, `%2E`) or of a slash (`%2f`,
/// `%2F`) replaced by that character, read from left to right; every other
/// character is kept. Other escapes decode to neither a dot nor a slash, so
/// fully percent-decoding `s` yields `.` and `..` segments exactly where this
/// does.
pub open spec fn unescape_dots_slashes(s: Seq<char>) -> Seq<char>
    decreases s.len(),
{
    if s.len() == 0 {
        Seq::empty()
    } else if escape_first(s, 'e', 'E') {
        seq!['.'] + unescape_dots_slashes(s.skip(3))
    } else if escape_first(s, 'f', 'F') {
        seq!['/'] + unescape_dots_slashes(s.skip(3))
    } else {
        seq![s[0]] + unescape_dots_slashes(s.skip(1))
    }
}

/// `s` holds a `..` segment, as written or once escaped dots and slashes are
/// read as such, so resolving it could climb above the directory it is
/// resolved against.
pub open spec fn escapes_root(s: Seq<char>) -> bool {
    climbs_out(s) || climbs_out(unescape_dots_slashes(s))
}

/// Whether `s` starts with `p`.
pub fn starts_with(s: &str, p: &str) -> (r: bool)
    ensures
        r == has_prefix(s@, p@),
{
    let n = s.unicode_len();
    let m = p.unicode_len();
    if m > n {
        return false;
    }
    let mut i: usize = 0;
    while i < m
        invariant
            n == s@.len(),
            m == p@.len(),
            m <= n,
            i <= m,
            forall|j: int| 0 <= j < i ==> s@[j] == p@[j],
        decreases m - i,
    {
        if s.get_char(i) != p.get_char(i) {
            assert(s@.subrange(0, m as int)[i as int] != p@[i as int]);
            return false;
        }
        i = i + 1;
    }
    assert(s@.subrange(0, m as int) =~= p@);
    true
}

/// The characters of `s`.
pub fn chars_of(s: &str) -> (r: Vec<char>)
    ensures
        r@ == s@,
{
    let n = s.unicode_len();
    let mut out: Vec<char> = Vec::new();
    let mut i: usize = 0;
    while i < n
        invariant
            n == s@.len(),
            i <= n,
            out@ == s@.subrange(0, i as int),
        decreases n - i,
    {
        out.push(s.get_char(i));
        i = i + 1;
        assert(out@ =~= s@.subrange(0, i as int));
    }
    assert(s@.subrange(0, n as int) =~= s@);
    out
}

/// `s` with escaped dots and slashes replaced by the characters they stand for.
pub fn unescape_path(s: &str) -> (r: Vec<char>)
    ensures
        r@ == unescape_dots_slashes(s@),
{
    let n = s.unicode_len();
    let mut out: Vec<char> = Vec::new();
    let mut i: usize = 0;
    assert(s@.skip(0) =~= s@);
    assert(out@ + unescape_dots_slashes(s@) =~= unescape_dots_slashes(s@));
    while i < n
        invariant
            n == s@.len(),
            i <= n,
            out@ + unescape_dots_slashes(s@.skip(i as int)) == unescape_dots_slashes(s@),
        decreases n - i,
    {
        let ghost rest = s@.skip(i as int);
        let c = s.get_char(i);
        let mut step: usize = 1;
        let mut emit = c;
        if c == '%' && n - i >= 3 && s.get_char(i + 1) == '2' {
            let d = s.get_char(i + 2);
            if d == 'e' || d == 'E' {
                emit = '.';
                step = 3;
            } else if d == 'f' || d == 'F' {
                emit = '/';
                step = 3;
            }
        }
        proof {
            assert(rest[0] == c);
            if rest.len() >= 3 {
                assert(rest[1] == s@[i + 1]);
                assert(rest[2] == s@[i + 2]);
            }
            assert(rest.skip(step as int) =~= s@.skip(i + step));
            assert(unescape_dots_slashes(rest) == seq![emit] + unescape_dots_slashes(
                s@.skip(i + step),
            ));
        }
        out.push(emit);
        i = i + step;
        assert(out@ + unescape_dots_slashes(s@.skip(i as int)) =~= unescape_dots_slashes(s@));
    }
    assert(s@.skip(n as int) =~= Seq::<char>::empty());
    assert(out@ =~= out@ + unescape_dots_slashes(s@.skip(n as int)));
    out
}

/// Whether a `..` segment starts at index `i` of `s`.
fn parent_segment_starts(s: &[char], i: usize) -> (r: bool)
    requires
        i < s@.len(),
    ensures
        r == parent_segment_at(s@, i as int),
{
    let n = s.len();
    if n - i < 2 {
        return false;
    }
    if i > 0 && s[i - 1] != '/' {
        return false;
    }
    if s[i] != '.' || s[i + 1] != '.' {
        return false;
    }
    i + 2 == n || s[i + 2] == '/'
}

/// Whether `s` holds a `..` segment.
pub fn has_parent_segment(s: &[char]) -> (r: bool)
    ensures
        r == climbs_out(s@),
{
    let n = s.len();
    let mut i: usize = 0;
    while i < n
        invariant
            n == s@.len(),
            i <= n,
            forall|j: int| 0 <= j < i ==> !parent_segment_at(s@, j),
        decreases n - i,
    {
        if parent_segment_starts(s, i) {
            return true;
        }
        i = i + 1;
    }
    assert forall|j: int| !parent_segment_at(s@, j) by {
        if 0 <= j < n {
        }
    }
    false
}

/// Whether `s` holds a `..` segment, as written or once escaped dots and
/// slashes are read as such.
pub fn escapes_root_path(s: &str) -> (r: bool)
    ensures
        r == escapes_root(s@),
{
    let raw = chars_of(s);
    if has_parent_segment(raw.as_slice()) {
        return true;
    }
    let unescaped = unescape_path(s);
    has_parent_segment(unescaped.as_slice())
}

} // verus!
