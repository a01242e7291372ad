//! Tests of status-line parsing, the status filter, conflict-part
//! classification, suffix trimming, and branch-name extraction.

use svn_dash::svn::error::Error;
use svn_dash::svn::state::State;
use svn_dash::svn::{
    branch_info_parsable, is_conflict_part, parse_branch_name, parse_conflict_part,
    parse_status_line, parse_svn_status, status_text_parseable, svn_status_filter,
    trim_conflict_suffix, ConflictPart,
};

#[test]
fn parses_each_status_code() {
    let cases = [
        ("M       path/to/file.txt", State::Modified),
        ("C       path/to/file.txt", State::Conflicting),
        ("R       path/to/file.txt", State::Replaced),
        ("D       path/to/file.txt", State::Deleted),
        ("!       path/to/file.txt", State::Missing),
        ("?       path/to/file.txt", State::Unversioned),
        ("A       path/to/file.txt", State::Added),
        (" M      path/to/file.txt", State::Clean),
        ("X       path/to/file.txt", State::Clean),
    ];
    for (line, expected) in cases {
        assert_eq!(
            Ok((expected, String::from("path/to/file.txt"))),
            parse_status_line(line)
        );
    }
}

#[test]
fn empty_code_is_unrecognised() {
    match parse_status_line("") {
        Err(Error::UnrecognisedStatus(code)) => assert_eq!("", code),
        other => panic!("expected UnrecognisedStatus, got {other:?}"),
    }
}

#[test]
fn parses_whole_status_dump() {
    assert_eq!(Ok(vec![]), parse_svn_status(""));
    assert_eq!(
        Ok(vec![(State::Modified, String::from("path/to/file.txt"))]),
        parse_svn_status("M       path/to/file.txt")
    );
    assert_eq!(
        Ok(vec![
            (State::Modified, String::from("path/to/file.txt")),
            (State::Replaced, String::from("path/to/replaced_file.txt")),
        ]),
        parse_svn_status("M       path/to/file.txt\nR       path/to/replaced_file.txt")
    );
}

#[test]
fn status_filter_drops_trailer_lines() {
    assert_eq!(false, svn_status_filter(""));
    assert_eq!(false, svn_status_filter("Summary"));
    assert_eq!(false, svn_status_filter("Summary of conflicts"));
    assert_eq!(false, svn_status_filter("onflicts:"));
    assert_eq!(false, svn_status_filter("Text conflicts:"));
    assert_eq!(true, svn_status_filter("literally anything else"));
}

#[test]
fn parseable_check_accepts_and_rejects() {
    assert!(status_text_parseable("M       a.txt\n\nSummary of conflicts:\n"));
    assert!(!status_text_parseable("short"));
}

#[test]
fn trims_conflict_suffixes() {
    assert_eq!("derpderp.txt", trim_conflict_suffix("derpderp.txt"));
    assert_eq!("", trim_conflict_suffix(""));
    assert_eq!("file.txt", trim_conflict_suffix("file.txt.merge-left.r7"));
    assert_eq!("file.txt", trim_conflict_suffix("file.txt.merge-right.r7"));
    assert_eq!("file.txt", trim_conflict_suffix("file.txt.working.r7"));
    assert_eq!(
        "file.txt.working.merge-left.r4",
        trim_conflict_suffix("file.txt.working.merge-left.r4")
    );
    assert_eq!("file.txt", trim_conflict_suffix("file.txt.merge-left.r8"));
}

#[test]
fn classifies_conflict_parts() {
    assert_eq!(Some(ConflictPart::Left), parse_conflict_part(".merge-left"));
    assert_eq!(Some(ConflictPart::Right), parse_conflict_part(".merge-right"));
    assert_eq!(Some(ConflictPart::Working), parse_conflict_part(".working"));
    assert_eq!(
        Some(ConflictPart::Left),
        parse_conflict_part("herpderp.txt.merge-left.r2")
    );
    assert_eq!(
        Some(ConflictPart::Right),
        parse_conflict_part("herpderp.txt.merge-right.r5")
    );
    assert_eq!(
        Some(ConflictPart::Working),
        parse_conflict_part("herpderp.txt.working.r3")
    );
    assert_eq!(None, parse_conflict_part("herpderp.txt.merge-left.merge-right"));
    assert_eq!(None, parse_conflict_part("herpderp.txt.merge-right.working"));
    assert_eq!(None, parse_conflict_part("not_a_conflict_part.txt"));
    assert!(is_conflict_part("a.merge-left.r1"));
    assert!(!is_conflict_part("a.txt"));
}

#[test]
fn parses_branch_names() {
    assert_eq!(
        Ok(String::from("branch_name")),
        parse_branch_name("URL: branch_name")
    );
    assert_eq!(
        Ok(String::from("branch_name")),
        parse_branch_name("URL: nested/branch_name")
    );
    assert_eq!(
        Ok(String::from("trunk")),
        parse_branch_name("Path: .\nURL: https://host/repo/trunk\nRevision: 4")
    );
    assert_eq!(Err(Error::BranchParseFailure), parse_branch_name("info"));
}

#[test]
fn branch_name_skips_a_trailing_dot_component() {
    assert!(branch_info_parsable("URL: https://host/repo/x/."));
    assert_eq!(
        Ok(String::from("x")),
        parse_branch_name("URL: https://host/repo/x/.")
    );
    assert_eq!(
        Ok(String::from("x")),
        parse_branch_name("URL: x/./.")
    );
    // values with no file name at all are rejected by the decider
    assert!(!branch_info_parsable("URL: /"));
    assert!(!branch_info_parsable("URL: a/.."));
    assert!(!branch_info_parsable("URL: ."));
}
