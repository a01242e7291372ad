//! Subversion status interpretation: status-text parsing, conflict-part
//! classification, and branch-name extraction.

pub mod error;
pub mod filelist;
pub mod filetree;
pub mod state;

pub use filelist::FileList;

use crate::text::{
    contains_pat, contains_pattern, find_pattern, first_occurrence, lemma_first_occurrence,
    split_into_lines, split_lines, starts_with, starts_with_pattern,
};
pub use error::Error;
use state::State;
use vstd::prelude::*;

verus! {

/// One parsed line of status output: the entry's state and its path.
pub type ParsedStatusLine = (State, String);

/// The mathematical view of a parsed entry sequence: each path replaced
/// by its character sequence.
pub open spec fn entries_view(es: Seq<ParsedStatusLine>) -> Seq<(State, Seq<char>)> {
    es.map_values(|e: ParsedStatusLine| (e.0, e.1@))
}

/// Status lines that name file entries: not empty, not the summary
/// trailer, and not a conflict-count trailer.
pub open spec fn spec_status_filter(l: Seq<char>) -> bool {
    !(l.len() == 0 || starts_with(l, "Summary"@) || contains_pat(l, "onflicts:"@))
}

/// Keep only the lines that name file entries.
pub fn svn_status_filter(line: &str) -> (b: bool)
    ensures
        b == spec_status_filter(line@),
{
    !(line.unicode_len() == 0 || starts_with_pattern(line, "Summary")
        || contains_pattern(line, "onflicts:"))
}

/// The entry encoded by a kept status line: the first character of the
/// eight-character code prefix determines the state, the rest is the path.
pub open spec fn spec_entry_of_line(l: Seq<char>) -> (State, Seq<char>) {
    (State::spec_of_code(l[0]), l.skip(8))
}

/// Parse one status line.  A line is either empty (rejected as an
/// unrecognised empty code) or carries the full eight-character code
/// prefix.
pub fn parse_status_line(status_line: &str) -> (r: Result<ParsedStatusLine, Error>)
    requires
        status_line@.len() == 0 || status_line@.len() >= 8,
    ensures
        match r {
            Ok(e) => status_line@.len() >= 8 && (e.0, e.1@) == spec_entry_of_line(status_line@),
            Err(e) => status_line@.len() == 0 && (e matches Error::UnrecognisedStatus(c)
                && c@.len() == 0),
        },
{
    let n = status_line.unicode_len();
    if n == 0 {
        return Err(Error::UnrecognisedStatus(String::new()));
    }
    let state = State::of_code(status_line.get_char(0));
    let path = status_line.substring_char(8, n);
    proof {
        assert(path@ =~= status_line@.skip(8));
    }
    Ok((state, String::from_str(path)))
}

/// The entries encoded by a sequence of status lines, kept lines only,
/// in order.
pub open spec fn spec_parse_entries(ls: Seq<Seq<char>>) -> Seq<(State, Seq<char>)>
    decreases ls.len(),
{
    if ls.len() == 0 {
        Seq::empty()
    } else {
        let prev = spec_parse_entries(ls.drop_last());
        if spec_status_filter(ls.last()) {
            prev.push(spec_entry_of_line(ls.last()))
        } else {
            prev
        }
    }
}

/// The entries encoded by a whole status dump.
pub open spec fn parsed_entries(s: Seq<char>) -> Seq<(State, Seq<char>)> {
    spec_parse_entries(split_lines(s))
}

/// Every kept line carries the full eight-character code prefix.
pub open spec fn status_parseable_lines(ls: Seq<Seq<char>>) -> bool {
    forall|j: int| 0 <= j < ls.len() && spec_status_filter(#[trigger] ls[j]) ==> ls[j].len() >= 8
}

/// A status dump whose kept lines all carry the full code prefix; the
/// parser requires this (the status protocol guarantees it).
pub open spec fn status_parseable(s: Seq<char>) -> bool {
    status_parseable_lines(split_lines(s))
}

/// Decide whether a status dump is parseable, so that unverified callers
/// can test the parser's precondition on raw tool output.
pub fn status_text_parseable(svn_status: &str) -> (b: bool)
    ensures
        b == status_parseable(svn_status@),
{
    let lines = split_into_lines(svn_status);
    let ghost ls = split_lines(svn_status@);
    let mut i: usize = 0;
    while i < lines.len()
        invariant
            i <= lines@.len(),
            lines@.len() == ls.len(),
            ls == split_lines(svn_status@),
            forall|j: int| 0 <= j < ls.len() ==> #[trigger] lines@[j]@ == ls[j],
            forall|j: int|
                0 <= j < i && spec_status_filter(#[trigger] ls[j]) ==> ls[j].len() >= 8,
        decreases lines@.len() - i,
    {
        let line = &lines[i];
        if svn_status_filter(line.as_str()) && line.as_str().unicode_len() < 8 {
            proof {
                assert(spec_status_filter(ls[i as int]) && ls[i as int].len() < 8);
                assert(!status_parseable_lines(ls));
                assert(!status_parseable(svn_status@));
            }
            return false;
        }
        i = i + 1;
    }
    true
}

/// Parse a whole status dump into its entries, in line order.
pub fn parse_svn_status(svn_status: &str) -> (r: Result<Vec<ParsedStatusLine>, Error>)
    requires
        status_parseable(svn_status@),
    ensures
        match r {
            Ok(v) => entries_view(v@) == parsed_entries(svn_status@),
            Err(_) => false,
        },
{
    let lines = split_into_lines(svn_status);
    let ghost ls = split_lines(svn_status@);
    let mut out: Vec<ParsedStatusLine> = Vec::new();
    let mut i: usize = 0;
    proof {
        assert(ls.take(0) =~= Seq::<Seq<char>>::empty());
        assert(entries_view(out@) =~= spec_parse_entries(ls.take(0)));
    }
    while i < lines.len()
        invariant
            i <= lines@.len(),
            lines@.len() == ls.len(),
            ls == split_lines(svn_status@),
            forall|j: int| 0 <= j < ls.len() ==> #[trigger] lines@[j]@ == ls[j],
            status_parseable_lines(ls),
            entries_view(out@) == spec_parse_entries(ls.take(i as int)),
        decreases lines@.len() - i,
    {
        let line = &lines[i];
        let ghost prev = out@;
        if svn_status_filter(line.as_str()) {
            match parse_status_line(line.as_str()) {
                Ok(e) => {
                    out.push(e);
                },
                Err(e) => {
                    // a kept line has the full prefix, so parsing cannot fail
                    proof {
                        assert(false);
                    }
                    return Err(e);
                },
            }
        }
        proof {
            assert(ls.take(i as int + 1).drop_last() =~= ls.take(i as int));
            assert(ls.take(i as int + 1).last() == ls[i as int]);
            if spec_status_filter(ls[i as int]) {
                assert(entries_view(out@) =~= spec_parse_entries(ls.take(i as int)).push(
                    spec_entry_of_line(ls[i as int]),
                ));
            } else {
                assert(entries_view(out@) =~= spec_parse_entries(ls.take(i as int)));
            }
        }
        i = i + 1;
    }
    proof {
        assert(ls.take(ls.len() as int) =~= ls);
    }
    Ok(out)
}

/// One side of a three-way merge conflict, recognised from a path suffix.
#[derive(Debug, PartialEq, Eq, Structural, Clone, Copy)]
pub enum ConflictPart {
    Left,
    Right,
    Working,
}

/// Which conflict part a path names: exactly one of the three marker
/// substrings must occur; a path with none or several of them is a
/// plain, oddly named file.
pub open spec fn spec_conflict_part(p: Seq<char>) -> Option<ConflictPart> {
    let l = contains_pat(p, ".merge-left"@);
    let r = contains_pat(p, ".merge-right"@);
    let w = contains_pat(p, ".working"@);
    if l && !r && !w {
        Some(ConflictPart::Left)
    } else if !l && r && !w {
        Some(ConflictPart::Right)
    } else if !l && !r && w {
        Some(ConflictPart::Working)
    } else {
        None
    }
}

/// Classify a path as a conflict part, or `None` when it is a plain file.
pub fn parse_conflict_part(path: &str) -> (r: Option<ConflictPart>)
    ensures
        r == spec_conflict_part(path@),
{
    let l = contains_pattern(path, ".merge-left");
    let r = contains_pattern(path, ".merge-right");
    let w = contains_pattern(path, ".working");
    if l && !r && !w {
        Some(ConflictPart::Left)
    } else if !l && r && !w {
        Some(ConflictPart::Right)
    } else if !l && !r && w {
        Some(ConflictPart::Working)
    } else {
        None
    }
}

/// Whether the path is a conflict-part pseudo-file.
pub fn is_conflict_part(path: &str) -> (b: bool)
    ensures
        b == (spec_conflict_part(path@) is Some),
{
    parse_conflict_part(path).is_some()
}

/// The conflict key of a path: truncate at the first `.merge-` or
/// `.working`, whichever occurs; if neither or both occur, the path is
/// used untouched.
pub open spec fn spec_trim_conflict_suffix(p: Seq<char>) -> Seq<char> {
    let im = first_occurrence(p, ".merge-"@);
    let iw = first_occurrence(p, ".working"@);
    match (im, iw) {
        (Some(i), None) => p.subrange(0, i),
        (None, Some(i)) => p.subrange(0, i),
        _ => p,
    }
}

/// Trim a conflict-part suffix off a path to recover the conflict key.
pub fn trim_conflict_suffix(path_str: &str) -> (r: &str)
    ensures
        r@ == spec_trim_conflict_suffix(path_str@),
{
    let im = find_pattern(path_str, ".merge-");
    let iw = find_pattern(path_str, ".working");
    proof {
        lemma_first_occurrence(path_str@, ".merge-"@);
        lemma_first_occurrence(path_str@, ".working"@);
    }
    match (im, iw) {
        (Some(i), None) => path_str.substring_char(0, i),
        (None, Some(i)) => path_str.substring_char(0, i),
        _ => path_str,
    }
}

/// A reconstructed three-way conflict: the conflicting file and the
/// three part pseudo-files, each populated once its status line is seen.
#[derive(Debug, PartialEq, Clone)]
pub enum Conflict {
    Text { file: String, left: Option<String>, right: Option<String>, working: Option<String> },
}

/// The mathematical view of a conflict record.
pub struct ConflictView {
    pub file: Seq<char>,
    pub left: Option<Seq<char>>,
    pub right: Option<Seq<char>>,
    pub working: Option<Seq<char>>,
}

impl View for Conflict {
    type V = ConflictView;

    open spec fn view(&self) -> ConflictView {
        match self {
            Conflict::Text { file, left, right, working } => ConflictView {
                file: file@,
                left: match left {
                    Some(p) => Some(p@),
                    None => None,
                },
                right: match right {
                    Some(p) => Some(p@),
                    None => None,
                },
                working: match working {
                    Some(p) => Some(p@),
                    None => None,
                },
            },
        }
    }
}

/// A conflict record with no parts discovered yet.
pub open spec fn spec_empty_conflict(file: Seq<char>) -> ConflictView {
    ConflictView { file, left: None, right: None, working: None }
}

/// The record with the given part set to `path`.
pub open spec fn spec_set_part(c: ConflictView, part: ConflictPart, path: Seq<char>) -> ConflictView {
    match part {
        ConflictPart::Left => ConflictView { left: Some(path), ..c },
        ConflictPart::Right => ConflictView { right: Some(path), ..c },
        ConflictPart::Working => ConflictView { working: Some(path), ..c },
    }
}

/// Make a conflict record for `file` with no parts discovered yet.
pub fn create_empty_text_conflict(file: &String) -> (r: Conflict)
    ensures
        r@ == spec_empty_conflict(file@),
{
    Conflict::Text { file: file.clone(), left: None, right: None, working: None }
}

/// A path with its trailing slashes removed.
pub open spec fn strip_trailing_slashes(p: Seq<char>) -> Seq<char>
    decreases p.len(),
{
    if p.len() > 0 && p.last() == '/' {
        strip_trailing_slashes(p.drop_last())
    } else {
        p
    }
}

/// The suffix of `q` after its last slash (all of `q` when it has none,
/// empty when it ends in a slash).
pub open spec fn last_component(q: Seq<char>) -> Seq<char>
    decreases q.len(),
{
    if q.len() == 0 {
        q
    } else if q.last() == '/' {
        Seq::empty()
    } else {
        last_component(q.drop_last()).push(q.last())
    }
}

/// Stripping trailing slashes never lengthens a path.
pub proof fn lemma_strip_trailing_slashes_len(p: Seq<char>)
    ensures
        strip_trailing_slashes(p).len() <= p.len(),
    decreases p.len(),
{
    if p.len() > 0 && p.last() == '/' {
        lemma_strip_trailing_slashes_len(p.drop_last());
    }
}

/// The file name of a slash-separated path, as `Path::file_name`
/// computes it: trailing slashes are ignored, a non-leading `.`
/// component is skipped, and there is no file name when what remains is
/// empty, a lone `.`, or ends in `..`.
pub open spec fn spec_file_name(p: Seq<char>) -> Option<Seq<char>>
    decreases p.len(),
    via spec_file_name_decreases
{
    let q = strip_trailing_slashes(p);
    let c = last_component(q);
    if c == "."@ && q.len() > 1 {
        spec_file_name(q.subrange(0, q.len() - 1))
    } else if c.len() == 0 || c == "."@ || c == ".."@ {
        None
    } else {
        Some(c)
    }
}

#[via_fn]
proof fn spec_file_name_decreases(p: Seq<char>) {
    lemma_strip_trailing_slashes_len(p);
}

/// The first line of the info dump that begins with the URL marker.
pub open spec fn first_url_line(ls: Seq<Seq<char>>) -> Option<Seq<char>>
    decreases ls.len(),
{
    if ls.len() == 0 {
        None
    } else if starts_with(ls[0], "URL:"@) {
        Some(ls[0])
    } else {
        first_url_line(ls.drop_first())
    }
}

/// The branch name carried by an info dump: the final path component of
/// the value on the first `URL:` line.
pub open spec fn spec_branch_name(info: Seq<char>) -> Option<Seq<char>> {
    match first_url_line(split_lines(info)) {
        Some(l) => if l.len() >= 5 {
            spec_file_name(l.skip(5))
        } else {
            None
        },
        None => None,
    }
}

/// An info dump the branch parser accepts: if it has a `URL:` line at
/// all, that line carries a value with a file name.
pub open spec fn branch_info_ok(info: Seq<char>) -> bool {
    match first_url_line(split_lines(info)) {
        Some(l) => l.len() >= 5 && spec_file_name(l.skip(5)) is Some,
        None => true,
    }
}

/// The file name of a slash-separated path, or `None` when nothing but
/// slashes and `.` components precedes the end, or the path ends in
/// `..`.
fn path_file_name(p: &str) -> (r: Option<String>)
    ensures
        match r {
            Some(c) => spec_file_name(p@) == Some(c@),
            None => spec_file_name(p@) is None,
        },
{
    let n = p.unicode_len();
    let mut e: usize = n;
    proof {
        assert(p@.subrange(0, n as int) =~= p@);
    }
    loop
        invariant
            e <= n,
            n == p@.len(),
            spec_file_name(p@) == spec_file_name(p@.subrange(0, e as int)),
        decreases e,
    {
        let ghost scope = p@.subrange(0, e as int);
        let mut t: usize = e;
        while t > 0 && p.get_char(t - 1) == '/'
            invariant
                t <= e <= n,
                n == p@.len(),
                scope == p@.subrange(0, e as int),
                strip_trailing_slashes(scope) == strip_trailing_slashes(
                    p@.subrange(0, t as int),
                ),
            decreases t,
        {
            proof {
                let q = p@.subrange(0, t as int);
                assert(q.drop_last() =~= p@.subrange(0, t as int - 1));
            }
            t = t - 1;
        }
        let ghost q = p@.subrange(0, t as int);
        proof {
            assert(strip_trailing_slashes(scope) == q);
        }
        let mut b: usize = t;
        proof {
            assert(last_component(q) + p@.subrange(t as int, t as int) =~= last_component(q));
        }
        while b > 0 && p.get_char(b - 1) != '/'
            invariant
                b <= t <= n,
                n == p@.len(),
                q == p@.subrange(0, t as int),
                last_component(q) == last_component(p@.subrange(0, b as int)) + p@.subrange(
                    b as int,
                    t as int,
                ),
            decreases b,
        {
            proof {
                let front = p@.subrange(0, b as int);
                assert(front.drop_last() =~= p@.subrange(0, b as int - 1));
                assert(front.last() == p@[b as int - 1]);
                assert(last_component(front) == last_component(front.drop_last()).push(
                    front.last(),
                ));
                assert(last_component(front.drop_last()) + p@.subrange(b as int - 1, t as int)
                    =~= last_component(front) + p@.subrange(b as int, t as int));
            }
            b = b - 1;
        }
        proof {
            let front = p@.subrange(0, b as int);
            if b == 0 {
                assert(front =~= Seq::<char>::empty());
                assert(last_component(front) + p@.subrange(b as int, t as int) =~= p@.subrange(
                    b as int,
                    t as int,
                ));
            } else {
                assert(front.last() == p@[b as int - 1]);
                assert(last_component(front) =~= Seq::<char>::empty());
                assert(last_component(front) + p@.subrange(b as int, t as int) =~= p@.subrange(
                    b as int,
                    t as int,
                ));
            }
            assert(last_component(q) == p@.subrange(b as int, t as int));
        }
        let len = t - b;
        if len == 1 && b > 0 && p.get_char(b) == '.' {
            // a non-leading `.` component: drop it and look again
            proof {
                reveal_strlit(".");
                assert(last_component(q) =~= "."@);
                assert(q.subrange(0, q.len() - 1) =~= p@.subrange(0, t as int - 1));
                assert(spec_file_name(scope) == spec_file_name(p@.subrange(0, t as int - 1)));
            }
            e = t - 1;
        } else {
            if len == 0 {
                proof {
                    reveal_strlit(".");
                    assert(last_component(q) != "."@);
                }
                return None;
            }
            if len == 1 && p.get_char(b) == '.' {
                // a lone leading `.`
                proof {
                    reveal_strlit(".");
                    assert(last_component(q) =~= "."@);
                    assert(q.len() == 1);
                }
                return None;
            }
            if len == 2 && p.get_char(b) == '.' && p.get_char(b + 1) == '.' {
                proof {
                    reveal_strlit(".");
                    reveal_strlit("..");
                    assert(last_component(q) =~= ".."@);
                    assert(last_component(q) != "."@);
                }
                return None;
            }
            let c = p.substring_char(b, t);
            proof {
                reveal_strlit(".");
                reveal_strlit("..");
                assert(c@ != "."@ && c@ != ".."@) by {
                    if c@ == "."@ {
                        assert(c@.len() == 1 && c@[0] == '.');
                    }
                    if c@ == ".."@ {
                        assert(c@.len() == 2 && c@[0] == '.' && c@[1] == '.');
                    }
                }
            }
            return Some(String::from_str(c));
        }
    }
}

/// What a scan of the info dump for the `URL:` line found.
enum UrlScan {
    NoUrlLine,
    Bad,
    Component(String),
}

/// Locate the first `URL:` line and extract the file name of its value.
fn scan_branch_info(svn_info: &str) -> (r: UrlScan)
    ensures
        match r {
            UrlScan::NoUrlLine => first_url_line(split_lines(svn_info@)) is None,
            UrlScan::Bad => match first_url_line(split_lines(svn_info@)) {
                Some(l) => !(l.len() >= 5 && spec_file_name(l.skip(5)) is Some),
                None => false,
            },
            UrlScan::Component(c) => match first_url_line(split_lines(svn_info@)) {
                Some(l) => l.len() >= 5 && spec_file_name(l.skip(5)) == Some(c@),
                None => false,
            },
        },
{
    let lines = split_into_lines(svn_info);
    let ghost ls = split_lines(svn_info@);
    let mut i: usize = 0;
    proof {
        assert(ls.skip(0) =~= ls);
    }
    while i < lines.len()
        invariant
            i <= lines@.len(),
            lines@.len() == ls.len(),
            ls == split_lines(svn_info@),
            forall|j: int| 0 <= j < ls.len() ==> #[trigger] lines@[j]@ == ls[j],
            first_url_line(ls) == first_url_line(ls.skip(i as int)),
        decreases lines@.len() - i,
    {
        let line = &lines[i];
        proof {
            assert(ls.skip(i as int)[0] == ls[i as int]);
        }
        if starts_with_pattern(line.as_str(), "URL:") {
            let m = line.as_str().unicode_len();
            if m < 5 {
                return UrlScan::Bad;
            }
            let tail = line.as_str().substring_char(5, m);
            proof {
                assert(tail@ =~= ls[i as int].skip(5));
            }
            match path_file_name(tail) {
                Some(c) => {
                    return UrlScan::Component(c);
                },
                None => {
                    return UrlScan::Bad;
                },
            }
        }
        proof {
            assert(ls.skip(i as int).drop_first() =~= ls.skip(i as int + 1));
        }
        i = i + 1;
    }
    proof {
        assert(ls.skip(i as int) =~= Seq::<Seq<char>>::empty());
    }
    UrlScan::NoUrlLine
}

/// Extract the branch name from `svn info` output: the final path
/// component of the value on the first `URL:` line.  Absence of such a
/// line is the one recoverable failure; the caller checks
/// [`branch_info_parsable`] first, since a `URL:` value without a file
/// name has no meaningful branch.
pub fn parse_branch_name(svn_info: &str) -> (r: Result<String, Error>)
    requires
        branch_info_ok(svn_info@),
    ensures
        match r {
            Ok(name) => spec_branch_name(svn_info@) == Some(name@),
            Err(e) => first_url_line(split_lines(svn_info@)) is None && (
            e matches Error::BranchParseFailure),
        },
{
    match scan_branch_info(svn_info) {
        UrlScan::Component(c) => Ok(c),
        UrlScan::NoUrlLine => Err(Error::BranchParseFailure),
        UrlScan::Bad => {
            // ruled out by the precondition
            proof {
                assert(false);
            }
            Err(Error::BranchParseFailure)
        },
    }
}

/// Decide whether an info dump meets the branch parser's precondition,
/// so that unverified callers can test raw tool output first.
pub fn branch_info_parsable(svn_info: &str) -> (b: bool)
    ensures
        b == branch_info_ok(svn_info@),
{
    match scan_branch_info(svn_info) {
        UrlScan::Bad => false,
        UrlScan::NoUrlLine => true,
        UrlScan::Component(_) => true,
    }
}

impl Conflict {
    /// Record the discovery of one conflict part.
    pub fn set_part(&mut self, part: ConflictPart, path: &String)
        ensures
            final(self)@ == spec_set_part(old(self)@, part, path@),
    {
        match self {
            Conflict::Text { left, right, working, .. } => {
                match part {
                    ConflictPart::Left => {
                        *left = Some(path.clone());
                    },
                    ConflictPart::Right => {
                        *right = Some(path.clone());
                    },
                    ConflictPart::Working => {
                        *working = Some(path.clone());
                    },
                }
            },
        }
    }
}

} // verus!
