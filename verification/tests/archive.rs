use deploy::archive::{is_hidden, is_visible, select_members, TreeEntry};

fn entry(path: &[&str], is_file: bool) -> TreeEntry {
    TreeEntry { components: path.iter().map(|name| name.to_string()).collect(), is_file }
}

#[test]
fn hidden_names_start_with_a_dot() {
    assert!(is_hidden(".git"));
    assert!(is_hidden("."));
    assert!(is_hidden(".hidden"));
    assert!(!is_hidden("a.txt"));
    assert!(!is_hidden(""));
    assert!(!is_hidden("sub"));
    assert!(is_visible("flake.nix"));
    assert!(!is_visible(".direnv"));
}

#[test]
fn archive_holds_the_visible_files_only() {
    let tree = vec![
        entry(&["a.txt"], true),
        entry(&[".hidden"], false),
        entry(&[".hidden", "x.txt"], true),
        entry(&["sub"], false),
        entry(&["sub", "b.txt"], true),
    ];
    assert_eq!(select_members(&tree), vec!["a.txt".to_string(), "sub/b.txt".to_string()]);
}

#[test]
fn archive_of_a_pruned_listing_is_the_same() {
    let pruned = vec![
        entry(&["a.txt"], true),
        entry(&["sub"], false),
        entry(&["sub", "b.txt"], true),
    ];
    assert_eq!(select_members(&pruned), vec!["a.txt".to_string(), "sub/b.txt".to_string()]);
}

#[test]
fn hidden_files_and_directories_stay_out() {
    let tree = vec![
        entry(&[".gitignore"], true),
        entry(&["sub", ".cache", "deep", "file"], true),
        entry(&["sub", "dir"], false),
        entry(&[], true),
        entry(&["hosts", "web1", "configuration.nix"], true),
    ];
    assert_eq!(select_members(&tree), vec!["hosts/web1/configuration.nix".to_string()]);
    assert!(select_members(&[]).is_empty());
}

#[test]
fn entries_know_their_names_and_membership() {
    let file = entry(&["sub", "b.txt"], true);
    assert!(file.is_member());
    assert!(!file.is_below_hidden());
    assert_eq!(file.member_name(), "sub/b.txt");
    let hidden = entry(&["sub", ".b.txt"], true);
    assert!(hidden.is_below_hidden());
    assert!(!hidden.is_member());
    assert_eq!(entry(&["one"], true).member_name(), "one");
    assert_eq!(entry(&[], false).member_name(), "");
    assert!(!entry(&["dir"], false).is_member());
}
