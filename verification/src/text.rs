//! Verified text utilities: substring search, prefix tests, and line
//! splitting over character sequences.

use vstd::prelude::*;

verus! {

/// `pat` occurs in `s` starting at index `i`.
pub open spec fn occurs_at(s: Seq<char>, pat: Seq<char>, i: int) -> bool {
    0 <= i && i + pat.len() <= s.len() && s.subrange(i, i + pat.len() as int) == pat
}

/// `pat` occurs somewhere in `s`.
pub open spec fn contains_pat(s: Seq<char>, pat: Seq<char>) -> bool {
    exists|i: int| occurs_at(s, pat, i)
}

/// `s` begins with `pat`.
pub open spec fn starts_with(s: Seq<char>, pat: Seq<char>) -> bool {
    pat.len() <= s.len() && s.subrange(0, pat.len() as int) == pat
}

/// The index of the first occurrence of `pat` in `s`, if any.
pub open spec fn first_occurrence(s: Seq<char>, pat: Seq<char>) -> Option<int>
    decreases s.len(),
{
    if starts_with(s, pat) {
        Some(0int)
    } else if s.len() == 0 {
        None
    } else {
        match first_occurrence(s.drop_first(), pat) {
            Some(i) => Some(i + 1),
            None => None,
        }
    }
}

/// `first_occurrence` names the least index at which `pat` occurs, and
/// `None` exactly when `pat` does not occur at all.
pub proof fn lemma_first_occurrence(s: Seq<char>, pat: Seq<char>)
    ensures
        match first_occurrence(s, pat) {
            Some(i) => occurs_at(s, pat, i) && forall|j: int|
                0 <= j < i ==> !occurs_at(s, pat, j),
            None => forall|i: int| !occurs_at(s, pat, i),
        },
    decreases s.len(),
{
    if starts_with(s, pat) {
        assert(occurs_at(s, pat, 0));
    } else if s.len() == 0 {
        assert(forall|i: int| !occurs_at(s, pat, i));
    } else {
        let t = s.drop_first();
        lemma_first_occurrence(t, pat);
        assert forall|j: int| #[trigger] occurs_at(s, pat, j) && j >= 1 implies occurs_at(
            t,
            pat,
            j - 1,
        ) by {
            assert(t.subrange(j - 1, j - 1 + pat.len() as int) =~= s.subrange(
                j,
                j + pat.len() as int,
            ));
        }
        assert forall|j: int| #[trigger] occurs_at(t, pat, j) implies occurs_at(s, pat, j + 1) by {
            assert(s.subrange(j + 1, j + 1 + pat.len() as int) =~= t.subrange(
                j,
                j + pat.len() as int,
            ));
        }
        assert(!occurs_at(s, pat, 0));
        match first_occurrence(t, pat) {
            Some(i) => {
                assert(occurs_at(s, pat, i + 1));
                assert forall|j: int| 0 <= j < i + 1 implies !occurs_at(s, pat, j) by {
                    if j >= 1 {
                        assert(!occurs_at(t, pat, j - 1));
                    }
                }
            },
            None => {
                assert forall|j: int| !occurs_at(s, pat, j) by {
                    if j >= 1 {
                        assert(!occurs_at(t, pat, j - 1));
                    }
                }
            },
        }
    }
}

/// Compare `pat` against `s` at position `i`, character by character.
pub fn match_at(s: &str, pat: &str, i: usize) -> (b: bool)
    requires
        i + pat@.len() <= s@.len(),
    ensures
        b == occurs_at(s@, pat@, i as int),
{
    let n = s.unicode_len();
    let m = pat.unicode_len();
    let mut j: usize = 0;
    while j < m
        invariant
            j <= m,
            m == pat@.len(),
            n == s@.len(),
            i + m <= n,
            forall|k: int| 0 <= k < j ==> s@[i + k] == pat@[k],
        decreases m - j,
    {
        if s.get_char(i + j) != pat.get_char(j) {
            assert(s@.subrange(i as int, i + m as int)[j as int] != pat@[j as int]);
            return false;
        }
        j = j + 1;
    }
    assert(s@.subrange(i as int, i + m as int) =~= pat@);
    true
}

/// Find the first occurrence of `pat` in `s`.
pub fn find_pattern(s: &str, pat: &str) -> (r: Option<usize>)
    ensures
        match r {
            Some(i) => first_occurrence(s@, pat@) == Some(i as int),
            None => first_occurrence(s@, pat@) is None,
        },
{
    let n = s.unicode_len();
    let m = pat.unicode_len();
    proof {
        lemma_first_occurrence(s@, pat@);
    }
    if m > n {
        return None;
    }
    if m == 0 {
        proof {
            assert(pat@ =~= s@.subrange(0, 0));
            assert(starts_with(s@, pat@));
        }
        return Some(0);
    }
    let mut i: usize = 0;
    while i <= n - m
        invariant
            n == s@.len(),
            m == pat@.len(),
            1 <= m <= n,
            i <= n - m + 1,
            forall|j: int| 0 <= j < i ==> !occurs_at(s@, pat@, j),
        decreases n - i,
    {
        if match_at(s, pat, i) {
            proof {
                lemma_first_occurrence(s@, pat@);
                match first_occurrence(s@, pat@) {
                    Some(k) => {
                        if k < i {
                            assert(!occurs_at(s@, pat@, k));
                        }
                        if k > i {
                            assert(!occurs_at(s@, pat@, i as int));
                        }
                        assert(k == i as int);
                    },
                    None => {
                        assert(!occurs_at(s@, pat@, i as int));
                    },
                }
            }
            return Some(i);
        }
        i = i + 1;
    }
    proof {
        assert forall|j: int| !occurs_at(s@, pat@, j) by {
            if 0 <= j < i {
                assert(!occurs_at(s@, pat@, j));
            }
        }
        lemma_first_occurrence(s@, pat@);
    }
    None
}

/// Whether `pat` occurs anywhere in `s`.
pub fn contains_pattern(s: &str, pat: &str) -> (b: bool)
    ensures
        b == contains_pat(s@, pat@),
{
    let r = find_pattern(s, pat);
    proof {
        lemma_first_occurrence(s@, pat@);
        match first_occurrence(s@, pat@) {
            Some(i) => {
                assert(occurs_at(s@, pat@, i));
            },
            None => {},
        }
    }
    r.is_some()
}

/// The index of the first newline in `s`, or `s.len()` if there is none.
pub open spec fn line_break(s: Seq<char>) -> int
    decreases s.len(),
{
    if s.len() == 0 {
        0
    } else if s[0] == '\n' {
        0
    } else {
        1 + line_break(s.drop_first())
    }
}

/// `line_break` names the least index holding a newline, or the length.
pub proof fn lemma_line_break(s: Seq<char>)
    ensures
        0 <= line_break(s) <= s.len(),
        line_break(s) < s.len() ==> s[line_break(s)] == '\n',
        forall|j: int| 0 <= j < line_break(s) ==> s[j] != '\n',
    decreases s.len(),
{
    if s.len() == 0 {
    } else if s[0] == '\n' {
    } else {
        lemma_line_break(s.drop_first());
        assert forall|j: int| 0 <= j < line_break(s) implies s[j] != '\n' by {
            if j >= 1 {
                assert(s.drop_first()[j - 1] != '\n');
            }
        }
    }
}

/// A line with any single trailing carriage return removed.
pub open spec fn strip_cr(l: Seq<char>) -> Seq<char> {
    if l.len() > 0 && l[l.len() - 1] == '\r' {
        l.drop_last()
    } else {
        l
    }
}

/// The lines of `s`: segments between newlines, each stripped of one
/// trailing carriage return, with no final empty segment when `s` ends
/// in a newline.
pub open spec fn split_lines(s: Seq<char>) -> Seq<Seq<char>>
    decreases s.len(),
    via split_lines_decreases
{
    if s.len() == 0 {
        Seq::empty()
    } else {
        let i = line_break(s);
        if i == s.len() {
            seq![strip_cr(s)]
        } else {
            seq![strip_cr(s.subrange(0, i))] + split_lines(s.subrange(i + 1, s.len() as int))
        }
    }
}

#[via_fn]
proof fn split_lines_decreases(s: Seq<char>) {
    lemma_line_break(s);
}

/// Find the first newline at or after `from`, or return the length.
fn find_newline_from(s: &str, from: usize) -> (r: usize)
    requires
        from <= s@.len(),
    ensures
        from <= r <= s@.len(),
        r < s@.len() ==> s@[r as int] == '\n',
        forall|j: int| from <= j < r ==> s@[j] != '\n',
{
    let n = s.unicode_len();
    let mut i: usize = from;
    while i < n
        invariant
            from <= i <= n,
            n == s@.len(),
            forall|j: int| from <= j < i ==> s@[j] != '\n',
        decreases n - i,
    {
        if s.get_char(i) == '\n' {
            return i;
        }
        i = i + 1;
    }
    n
}

/// Split `s` into its lines, as `str::lines` does: segments between
/// newlines, each with one trailing carriage return removed, with no
/// final empty segment when `s` ends in a newline.
pub fn split_into_lines(s: &str) -> (r: Vec<String>)
    ensures
        r@.len() == split_lines(s@).len(),
        forall|i: int| 0 <= i < r@.len() ==> #[trigger] r@[i]@ == split_lines(s@)[i],
{
    let n = s.unicode_len();
    let mut out: Vec<String> = Vec::new();
    let ghost mut views: Seq<Seq<char>> = Seq::empty();
    let mut pos: usize = 0;
    proof {
        assert(s@.subrange(0, n as int) =~= s@);
        assert(views + split_lines(s@) =~= split_lines(s@));
    }
    while pos < n
        invariant
            pos <= n,
            n == s@.len(),
            views.len() == out@.len(),
            forall|i: int| 0 <= i < out@.len() ==> #[trigger] out@[i]@ == views[i],
            split_lines(s@) == views + split_lines(s@.subrange(pos as int, n as int)),
        decreases n - pos,
    {
        let ghost rest = s@.subrange(pos as int, n as int);
        let brk = find_newline_from(s, pos);
        proof {
            lemma_line_break(rest);
            // the first newline of the remainder sits at brk - pos
            assert forall|j: int| 0 <= j < brk - pos implies rest[j] != '\n' by {
                assert(s@[pos + j] != '\n');
            }
            if line_break(rest) < brk - pos {
                assert(s@[pos + line_break(rest)] == '\n');
            }
            if brk < n {
                assert(rest[brk - pos] == '\n');
            }
            assert(line_break(rest) == brk - pos);
        }
        let line_end = if brk > pos && s.get_char(brk - 1) == '\r' {
            brk - 1
        } else {
            brk
        };
        let piece = s.substring_char(pos, line_end);
        let line = String::from_str(piece);
        let ghost seg = s@.subrange(pos as int, brk as int);
        proof {
            if brk > pos && s@[brk - 1] == '\r' {
                assert(seg[seg.len() - 1] == '\r');
                assert(line@ =~= seg.drop_last());
                assert(line@ == strip_cr(seg));
            } else {
                if seg.len() > 0 {
                    assert(seg[seg.len() - 1] == s@[brk - 1]);
                }
                assert(line@ =~= seg);
                assert(line@ == strip_cr(seg));
            }
        }
        out.push(line);
        let new_pos = if brk < n {
            brk + 1
        } else {
            n
        };
        proof {
            let rest2 = s@.subrange(new_pos as int, n as int);
            if brk < n {
                assert(rest.subrange(0, brk - pos) =~= seg);
                assert(rest.subrange(brk - pos + 1, rest.len() as int) =~= rest2);
                assert(split_lines(rest) == seq![strip_cr(seg)] + split_lines(rest2));
            } else {
                assert(rest =~= seg);
                assert(split_lines(rest) == seq![strip_cr(seg)]);
                assert(rest2 =~= Seq::<char>::empty());
                assert(split_lines(rest) =~= seq![strip_cr(seg)] + split_lines(rest2));
            }
            views = views.push(line@);
            assert(views + split_lines(rest2) =~= (views.drop_last() + (seq![strip_cr(seg)]
                + split_lines(rest2))));
            assert(views + split_lines(rest2) == split_lines(s@));
        }
        pos = new_pos;
    }
    proof {
        assert(s@.subrange(pos as int, n as int) =~= Seq::<char>::empty());
        assert(split_lines(s@) =~= views);
    }
    out
}

/// Character-by-character equality of two string slices.
pub fn str_eq(a: &str, b: &str) -> (r: bool)
    ensures
        r == (a@ == b@),
{
    let n = a.unicode_len();
    if n != b.unicode_len() {
        return false;
    }
    let r = match_at(a, b, 0);
    proof {
        if r {
            assert(a@.subrange(0, n as int) =~= a@);
        } else {
            if a@ == b@ {
                assert(a@.subrange(0, n as int) =~= b@);
            }
        }
    }
    r
}

/// Whether `s` begins with `pat`.
pub fn starts_with_pattern(s: &str, pat: &str) -> (b: bool)
    ensures
        b == starts_with(s@, pat@),
{
    let n = s.unicode_len();
    let m = pat.unicode_len();
    if m > n {
        return false;
    }
    let b = match_at(s, pat, 0);
    proof {
        if b {
            assert(starts_with(s@, pat@));
        } else {
            assert(!occurs_at(s@, pat@, 0));
        }
    }
    b
}

} // verus!
