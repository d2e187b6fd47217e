//! Character-level text utilities: trimming, pattern removal, line
//! splitting, and bracket matching, each proved against a direct
//! specification over character sequences.
//!
//! Trimming removes ASCII whitespace; removal of a pattern deletes its
//! occurrences left to right, non-overlapping, exactly as replacing them
//! with the empty string would.

use vstd::prelude::*;
use vstd::string::StrSliceExecFns;
use vstd::string::StringExecFns;

verus! {

/// The whitespace characters that trimming removes.
pub open spec fn is_space_char(c: char) -> bool {
    c == ' ' || c == '\t' || c == '\n' || c == '\r' || c == '\u{b}' || c == '\u{c}'
}

fn is_space(c: char) -> (r: bool)
    ensures
        r == is_space_char(c),
{
    c == ' ' || c == '\t' || c == '\n' || c == '\r' || c == '\u{b}' || c == '\u{c}'
}

/// Whether the whole sequence is whitespace.
pub open spec fn all_spaces(s: Seq<char>) -> bool {
    forall|i: int| 0 <= i < s.len() ==> is_space_char(s[i])
}

/// How many whitespace characters the sequence starts with.
pub open spec fn leading_spaces(s: Seq<char>) -> int
    decreases s.len(),
{
    if s.len() == 0 || !is_space_char(s.first()) {
        0
    } else {
        1 + leading_spaces(s.drop_first())
    }
}

/// How many whitespace characters the sequence ends with.
pub open spec fn trailing_spaces(s: Seq<char>) -> int
    decreases s.len(),
{
    if s.len() == 0 || !is_space_char(s.last()) {
        0
    } else {
        1 + trailing_spaces(s.drop_last())
    }
}

/// The sequence with leading and trailing whitespace removed.
pub open spec fn trim_spec(s: Seq<char>) -> Seq<char> {
    if all_spaces(s) {
        Seq::empty()
    } else {
        s.subrange(leading_spaces(s), s.len() - trailing_spaces(s))
    }
}

proof fn lemma_leading_spaces_is(s: Seq<char>, a: int)
    requires
        0 <= a < s.len(),
        forall|k: int| 0 <= k < a ==> is_space_char(s[k]),
        !is_space_char(s[a]),
    ensures
        leading_spaces(s) == a,
    decreases a,
{
    if a == 0 {
    } else {
        assert(is_space_char(s.first()));
        let t = s.drop_first();
        assert(forall|k: int| 0 <= k < a - 1 ==> t[k] == s[k + 1] && is_space_char(t[k]));
        assert(t[a - 1] == s[a]);
        lemma_leading_spaces_is(t, a - 1);
    }
}

proof fn lemma_trailing_spaces_is(s: Seq<char>, t: int)
    requires
        0 <= t,
        s.len() - t - 1 >= 0,
        forall|k: int| s.len() - t <= k < s.len() ==> is_space_char(s[k]),
        !is_space_char(s[s.len() - t - 1]),
    ensures
        trailing_spaces(s) == t,
    decreases t,
{
    if t == 0 {
        assert(!is_space_char(s.last()));
    } else {
        assert(is_space_char(s.last()));
        let d = s.drop_last();
        assert(forall|k: int| d.len() - (t - 1) <= k < d.len() ==> d[k] == s[k] && is_space_char(
            d[k],
        ));
        assert(d[d.len() - (t - 1) - 1] == s[s.len() - t - 1]);
        lemma_trailing_spaces_is(d, t - 1);
    }
}

/// Removes leading and trailing whitespace.
pub fn trim(s: &str) -> (r: String)
    ensures
        r@ == trim_spec(s@),
{
    let n = s.unicode_len();
    let mut a: usize = 0;
    while a < n && is_space(s.get_char(a))
        invariant
            n == s@.len(),
            0 <= a <= n,
            forall|k: int| 0 <= k < a ==> is_space_char(s@[k]),
        decreases n - a,
    {
        a += 1;
    }
    if a == n {
        proof {
            assert(all_spaces(s@));
        }
        return String::new();
    }
    proof {
        lemma_leading_spaces_is(s@, a as int);
    }
    let mut b: usize = n;
    while b > a + 1 && is_space(s.get_char(b - 1))
        invariant
            n == s@.len(),
            0 <= a < b <= n,
            !is_space_char(s@[a as int]),
            forall|k: int| b <= k < n ==> is_space_char(s@[k]),
        decreases b,
    {
        b -= 1;
    }
    proof {
        if is_space_char(s@[b - 1]) {
            assert(b == a + 1);
            assert(false);
        }
        lemma_trailing_spaces_is(s@, n - b);
        assert(!all_spaces(s@));
    }
    let piece = s.substring_char(a, b);
    String::from_str(piece)
}

/// Whether `pat` occurs in `s` starting at position `i`.
pub open spec fn pattern_at(s: Seq<char>, pat: Seq<char>, i: int) -> bool {
    0 <= i && i + pat.len() <= s.len() && s.subrange(i, i + pat.len()) == pat
}

/// `s` with every occurrence of `pat` removed, scanning left to right and
/// never overlapping: what replacing the occurrences of `pat` with the
/// empty string leaves.
pub open spec fn remove_pat_spec(s: Seq<char>, pat: Seq<char>) -> Seq<char>
    decreases s.len(),
{
    if s.len() == 0 || pat.len() == 0 {
        s
    } else if pattern_at(s, pat, 0) && s.len() >= pat.len() {
        remove_pat_spec(s.skip(pat.len() as int), pat)
    } else {
        seq![s.first()] + remove_pat_spec(s.drop_first(), pat)
    }
}

/// Whether `pat` occurs in `s` at position `i`, checked character by
/// character.
fn matches_at(s: &str, i: usize, pat: &str) -> (r: bool)
    requires
        i + pat@.len() <= s@.len(),
    ensures
        r == pattern_at(s@, pat@, i as int),
{
    let n = s.unicode_len();
    let m = pat.unicode_len();
    let mut j: usize = 0;
    while j < m
        invariant
            n == s@.len(),
            m == pat@.len(),
            i + m <= n,
            0 <= j <= m,
            forall|k: int| 0 <= k < j ==> s@[i + k] == pat@[k],
        decreases m - j,
    {
        if s.get_char(i + j) != pat.get_char(j) {
            proof {
                assert(s@.subrange(i as int, i + m) != pat@) by {
                    assert(s@.subrange(i as int, i + m)[j as int] == s@[i + j]);
                }
            }
            return false;
        }
        j += 1;
    }
    proof {
        assert(s@.subrange(i as int, i + m) =~= pat@);
    }
    true
}

/// Removes every occurrence of `pat` from `s`, left to right,
/// non-overlapping.
pub fn remove_pat(s: &str, pat: &str) -> (r: String)
    requires
        pat@.len() > 0,
    ensures
        r@ == remove_pat_spec(s@, pat@),
{
    let n = s.unicode_len();
    let m = pat.unicode_len();
    let mut out = String::new();
    let mut i: usize = 0;
    proof {
        assert(s@.skip(0) =~= s@);
        assert(out@ + remove_pat_spec(s@, pat@) =~= remove_pat_spec(s@, pat@));
    }
    while i < n
        invariant
            n == s@.len(),
            m == pat@.len(),
            m > 0,
            0 <= i <= n,
            remove_pat_spec(s@, pat@) == out@ + remove_pat_spec(s@.skip(i as int), pat@),
        decreases n - i,
    {
        let ghost suffix = s@.skip(i as int);
        if m <= n - i && matches_at(s, i, pat) {
            proof {
                assert(suffix.len() >= m);
                assert(suffix.subrange(0, m as int) =~= s@.subrange(i as int, i + m));
                assert(pattern_at(suffix, pat@, 0));
                assert(suffix.skip(m as int) =~= s@.skip(i + m));
            }
            i += m;
        } else {
            proof {
                if m <= n - i {
                    assert(suffix.subrange(0, m as int) =~= s@.subrange(i as int, i + m));
                    assert(!pattern_at(suffix, pat@, 0));
                } else {
                    assert(suffix.len() < m);
                    if pattern_at(suffix, pat@, 0) {
                        assert(false);
                    }
                }
                assert(suffix.first() == s@[i as int]);
                assert(suffix.drop_first() =~= s@.skip(i as int + 1));
            }
            let piece = s.substring_char(i, i + 1);
            proof {
                assert(piece@ =~= seq![s@[i as int]]);
            }
            out.append(piece);
            i += 1;
        }
    }
    proof {
        assert(s@.skip(n as int) =~= Seq::<char>::empty());
        assert(out@ =~= out@ + remove_pat_spec(s@.skip(n as int), pat@));
    }
    out
}

/// The position of the first `sep` in `s`, or a negative value when there
/// is none.
pub open spec fn first_index_of(s: Seq<char>, sep: char) -> int
    decreases s.len(),
{
    if s.len() == 0 {
        -1
    } else if s.first() == sep {
        0
    } else if first_index_of(s.drop_first(), sep) < 0 {
        -1
    } else {
        1 + first_index_of(s.drop_first(), sep)
    }
}

proof fn lemma_first_index_found(s: Seq<char>, sep: char, i: int)
    requires
        0 <= i < s.len(),
        s[i] == sep,
        forall|k: int| 0 <= k < i ==> s[k] != sep,
    ensures
        first_index_of(s, sep) == i,
    decreases i,
{
    if i == 0 {
    } else {
        let t = s.drop_first();
        assert(forall|k: int| 0 <= k < i - 1 ==> t[k] == s[k + 1] && t[k] != sep);
        assert(t[i - 1] == s[i]);
        lemma_first_index_found(t, sep, i - 1);
    }
}

proof fn lemma_first_index_absent(s: Seq<char>, sep: char)
    requires
        forall|k: int| 0 <= k < s.len() ==> s[k] != sep,
    ensures
        first_index_of(s, sep) < 0,
    decreases s.len(),
{
    if s.len() > 0 {
        let t = s.drop_first();
        assert(forall|k: int| 0 <= k < t.len() ==> t[k] == s[k + 1] && t[k] != sep);
        lemma_first_index_absent(t, sep);
    }
}

/// The first index is always inside the sequence when one is found.
pub proof fn lemma_first_index_bound(s: Seq<char>, sep: char)
    ensures
        first_index_of(s, sep) < s.len(),
    decreases s.len(),
{
    if s.len() > 0 && s.first() != sep {
        lemma_first_index_bound(s.drop_first(), sep);
    }
}

/// `s` split on `sep`: the segments between separators, in order, with
/// empty segments kept. A sequence with no separator is one segment.
pub open spec fn split_char_spec(s: Seq<char>, sep: char) -> Seq<Seq<char>>
    decreases s.len(),
    via split_char_spec_decreases
{
    let fi = first_index_of(s, sep);
    if fi < 0 {
        seq![s]
    } else {
        seq![s.subrange(0, fi)] + split_char_spec(s.skip(fi + 1), sep)
    }
}

#[via_fn]
proof fn split_char_spec_decreases(s: Seq<char>, sep: char) {
    lemma_first_index_bound(s, sep);
}

/// Splits `s` on `sep`, keeping empty segments.
pub fn split_char(s: &str, sep: char) -> (r: Vec<String>)
    ensures
        r@.map_values(|p: String| p@) == split_char_spec(s@, sep),
{
    let n = s.unicode_len();
    let mut out: Vec<String> = Vec::new();
    let mut start: usize = 0;
    let mut i: usize = 0;
    proof {
        assert(s@.skip(0) =~= s@);
        assert(out@.map_values(|p: String| p@) =~= Seq::<Seq<char>>::empty());
        assert(out@.map_values(|p: String| p@) + split_char_spec(s@, sep) =~= split_char_spec(
            s@,
            sep,
        ));
    }
    while i < n
        invariant
            n == s@.len(),
            0 <= start <= i <= n,
            forall|k: int| start <= k < i ==> s@[k] != sep,
            split_char_spec(s@, sep) == out@.map_values(|p: String| p@) + split_char_spec(
                s@.skip(start as int),
                sep,
            ),
        decreases n - i,
    {
        if s.get_char(i) == sep {
            let ghost suffix = s@.skip(start as int);
            proof {
                assert(forall|k: int|
                    0 <= k < i - start ==> suffix[k] == s@[k + start] && suffix[k] != sep);
                assert(suffix[i - start] == s@[i as int]);
                lemma_first_index_found(suffix, sep, i - start);
                assert(suffix.subrange(0, i - start) =~= s@.subrange(start as int, i as int));
                assert(suffix.skip(i - start + 1) =~= s@.skip(i as int + 1));
            }
            let piece = s.substring_char(start, i);
            let ghost out_prev = out@;
            out.push(String::from_str(piece));
            proof {
                assert(out@.map_values(|p: String| p@) =~= out_prev.map_values(|p: String| p@)
                    .push(s@.subrange(start as int, i as int)));
                assert(out_prev.map_values(|p: String| p@).push(
                    s@.subrange(start as int, i as int),
                ) + split_char_spec(s@.skip(i as int + 1), sep) =~= out_prev.map_values(
                    |p: String| p@,
                ) + (seq![s@.subrange(start as int, i as int)] + split_char_spec(
                    s@.skip(i as int + 1),
                    sep,
                )));
            }
            start = i + 1;
        }
        i += 1;
    }
    let ghost suffix = s@.skip(start as int);
    proof {
        assert(forall|k: int| 0 <= k < suffix.len() ==> suffix[k] == s@[k + start]);
        lemma_first_index_absent(suffix, sep);
        assert(split_char_spec(suffix, sep) == seq![suffix]);
        assert(suffix =~= s@.subrange(start as int, n as int));
    }
    let piece = s.substring_char(start, n);
    let ghost out_prev = out@;
    out.push(String::from_str(piece));
    proof {
        assert(out@.map_values(|p: String| p@) =~= out_prev.map_values(|p: String| p@).push(
            suffix,
        ));
        assert(out_prev.map_values(|p: String| p@).push(suffix) =~= out_prev.map_values(
            |p: String| p@,
        ) + seq![suffix]);
    }
    out
}

/// Scanning right from `j`: the position of the next `]`, unless a line
/// break (which a bracketed span may not cross) or the end comes first.
pub open spec fn close_scan(s: Seq<char>, j: int) -> int
    decreases s.len() - j,
{
    if j < 0 || j >= s.len() {
        -1
    } else if s[j] == ']' {
        j
    } else if s[j] == '\n' {
        -1
    } else {
        close_scan(s, j + 1)
    }
}

/// Scanning right from `i`: the first position holding a `[` that a later
/// `]` closes on the same line.
pub open spec fn open_scan(s: Seq<char>, i: int) -> int
    decreases s.len() - i,
{
    if i < 0 || i >= s.len() {
        -1
    } else if s[i] == '[' && close_scan(s, i + 1) >= 0 {
        i
    } else {
        open_scan(s, i + 1)
    }
}

/// The leftmost bracketed span of `s`, brackets included: it starts at the
/// first `[` that a `]` closes on the same line, and ends at the first such
/// `]`. `None` when no such span exists.
pub open spec fn bracket_match_spec(s: Seq<char>) -> Option<Seq<char>> {
    let o = open_scan(s, 0);
    if o < 0 {
        None
    } else {
        Some(s.subrange(o, close_scan(s, o + 1) + 1))
    }
}

proof fn lemma_close_scan_bound(s: Seq<char>, j: int)
    ensures
        close_scan(s, j) < s.len(),
    decreases s.len() - j,
{
    if 0 <= j < s.len() && s[j] != ']' && s[j] != '\n' {
        lemma_close_scan_bound(s, j + 1);
    }
}

/// Finds the leftmost bracketed span of `line`, brackets included.
pub fn find_bracketed(line: &str) -> (r: Option<String>)
    ensures
        match r {
            Some(m) => bracket_match_spec(line@) == Some(m@),
            None => bracket_match_spec(line@) is None,
        },
{
    let n = line.unicode_len();
    let mut i: usize = 0;
    while i < n
        invariant
            n == line@.len(),
            0 <= i <= n,
            open_scan(line@, 0) == open_scan(line@, i as int),
        decreases n - i,
    {
        if line.get_char(i) == '[' {
            let mut j: usize = i + 1;
            let mut closed = false;
            let mut stopped = false;
            while j < n && !closed && !stopped
                invariant
                    n == line@.len(),
                    i + 1 <= j <= n,
                    close_scan(line@, i as int + 1) == if closed {
                        j as int
                    } else if stopped {
                        -1
                    } else {
                        close_scan(line@, j as int)
                    },
                    closed ==> j < n && line@[j as int] == ']',
                decreases n - j, (if closed || stopped { 0int } else { 1int }),
            {
                let c = line.get_char(j);
                if c == ']' {
                    closed = true;
                } else if c == '\n' {
                    proof {
                        assert(close_scan(line@, j as int) == -1);
                    }
                    stopped = true;
                } else {
                    j += 1;
                }
            }
            if closed {
                proof {
                    assert(open_scan(line@, i as int) == i as int);
                    assert(close_scan(line@, i as int + 1) == j as int);
                }
                let piece = line.substring_char(i, j + 1);
                return Some(String::from_str(piece));
            }
            proof {
                if !stopped {
                    assert(j >= n);
                    assert(close_scan(line@, j as int) == -1);
                }
                assert(close_scan(line@, i as int + 1) < 0);
                assert(open_scan(line@, i as int) == open_scan(line@, i as int + 1));
            }
        }
        i += 1;
    }
    proof {
        assert(open_scan(line@, n as int) == -1);
    }
    None
}

/// Whether a file or directory name is hidden: it begins with a dot.
pub fn is_hidden_name(name: &str) -> (r: bool)
    ensures
        r == (name@.len() > 0 && name@[0] == '.'),
{
    if name.unicode_len() == 0 {
        false
    } else {
        name.get_char(0) == '.'
    }
}

} // verus!
