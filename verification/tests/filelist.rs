//! Tests of the file-list model: populating from status text, conflict
//! reconstruction, and the renderable view.

use svn_dash::svn::filelist::FileList;
use svn_dash::svn::state::State::{Added, Clean, Conflicting, Deleted, Missing, Modified,
    Replaced, Unversioned};
use svn_dash::svn::Conflict;

#[test]
fn filelist_can_populate_from_svn_output() {
    let svn_output = "
M       file1.txt
M       dir1/file2.txt
M       dir1/nested1/file3.txt
A       dir2/newfile1.txt
A       dir2/newimage.png
 M      .
R       replaced.txt
!       missing.txt
?       new.txt
D       deleted.txt
C       conflict.txt
";
    let mut l = FileList::empty();
    l.populate_from_svn_status(svn_output)
        .expect("failed to populate");
    assert_eq!(true, l.has_conflicts());
    assert_eq!(
        l,
        FileList {
            list: vec![
                (Modified, "file1.txt".into()),
                (Modified, "dir1/file2.txt".into()),
                (Modified, "dir1/nested1/file3.txt".into()),
                (Added, "dir2/newfile1.txt".into()),
                (Added, "dir2/newimage.png".into()),
                (Clean, ".".into()),
                (Replaced, "replaced.txt".into()),
                (Missing, "missing.txt".into()),
                (Unversioned, "new.txt".into()),
                (Deleted, "deleted.txt".into()),
                (Conflicting, "conflict.txt".into()),
            ]
        }
    )
}

#[test]
fn parses_text_conflicts_correctly() {
    let svn_output = "
C       dir1/file3.txt
?       dir1/file3.txt.merge-left.r8
?       dir1/file3.txt.merge-right.r10
?       dir1/file3.txt.working
A  +    dir1/newfile.txt
M       dir2/nested1/file5.txt
D       file2.txt
A  +    newfile.txt
Summary of conflicts:
  Text conflicts: 1
";
    let mut l = FileList::empty();
    l.populate_from_svn_status(svn_output)
        .expect("failed to populate");
    assert_eq!(true, l.has_conflicts());
    assert_eq!(
        vec![Conflict::Text {
            file: String::from("dir1/file3.txt"),
            left: Some(String::from("dir1/file3.txt.merge-left.r8")),
            right: Some(String::from("dir1/file3.txt.merge-right.r10")),
            working: Some(String::from("dir1/file3.txt.working"))
        }],
        l.conflicts()
    );
}

#[test]
fn can_get_changes_correctly() {
    let svn_output = "C       dir1/file3.txt
?       dir1/file3.txt.merge-left.r8
?       dir1/file3.txt.merge-right.r10
?       dir1/file3.txt.working
A  +    dir1/newfile.txt
M       dir2/nested1/file5.txt
D       file2.txt
A  +    newfile.txt
Summary of conflicts:
  Text conflicts: 1
";
    let mut l = FileList::empty();
    l.populate_from_svn_status(svn_output)
        .expect("failed to populate");
    assert!(l.has_conflicts());
    assert_eq!(Some(&l.list()[5]), l.get(2)); // the get method skips the conflict parts
    assert_eq!(Some(&l.list()[0]), l.get(0));
}

#[test]
fn get_skips_conflict_part_entries() {
    let mut l = FileList::empty();
    *l.list_mut() = vec![
        (Conflicting, "f".into()),
        (Unversioned, "f.merge-left".into()),
        (Unversioned, "f.merge-right".into()),
        (Unversioned, "f.working".into()),
        (Added, "g".into()),
        (Modified, "h".into()),
    ];
    assert_eq!(Some(&(Added, "g".into())), l.get(1));
    assert_eq!(Some(&(Modified, "h".into())), l.get(2));
    assert_eq!(Some(&(Conflicting, "f".into())), l.get(0));
    assert_eq!(None, l.get(3));
}

#[test]
fn reconcile_groups_one_conflict_with_all_parts() {
    let svn_output = "C       a.txt
?       a.txt.merge-left.r3
?       a.txt.merge-right.r5
?       a.txt.working
";
    let mut l = FileList::empty();
    l.populate_from_svn_status(svn_output)
        .expect("failed to populate");
    assert!(l.has_conflicts());
    let conflicts = l.conflicts();
    assert_eq!(1, conflicts.len());
    assert_eq!(
        Conflict::Text {
            file: String::from("a.txt"),
            left: Some(String::from("a.txt.merge-left.r3")),
            right: Some(String::from("a.txt.merge-right.r5")),
            working: Some(String::from("a.txt.working")),
        },
        conflicts[0]
    );
}

#[test]
fn renderable_hides_conflict_parts() {
    let mut l = FileList::empty();
    *l.list_mut() = vec![
        (Conflicting, "f".into()),
        (Unversioned, "f.merge-left.r1".into()),
        (Added, "g".into()),
    ];
    let r = l.renderable();
    assert_eq!(2, r.len());
    assert_eq!(&(Conflicting, "f".into()), r[0]);
    assert_eq!(&(Added, "g".into()), r[1]);
}
