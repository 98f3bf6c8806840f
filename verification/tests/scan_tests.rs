use gentoo_kernel_builder::scan::{scan, RawEntry, VersionEntry};
use gentoo_kernel_builder::tokens::linux_root_vec;

fn entry(path: &str, is_symlink: bool) -> RawEntry {
    RawEntry { path: path.as_bytes().to_vec(), is_symlink }
}

fn names(versions: &[VersionEntry]) -> Vec<String> {
    versions
        .iter()
        .map(|v| String::from_utf8(v.version_string.clone()).unwrap())
        .collect()
}

#[test]
fn scan_keeps_only_kernel_trees() {
    let root = linux_root_vec();
    let listing = vec![
        entry("/usr/src/linux-5.10-gentoo", false),
        entry("/usr/src/linux-current", true),
        entry("/usr/src/other-tree", false),
    ];
    let versions = scan(&root, &listing);
    assert_eq!(names(&versions), vec!["linux-5.10-gentoo".to_string()]);
    assert_eq!(versions[0].path, b"/usr/src/linux-5.10-gentoo".to_vec());
}

#[test]
fn scan_excludes_symlinks() {
    let root = linux_root_vec();
    let listing = vec![
        entry("/usr/src/linux-6.1.0-gentoo", true),
        entry("/usr/src/linux-6.2.0-gentoo", false),
    ];
    let versions = scan(&root, &listing);
    assert_eq!(names(&versions), vec!["linux-6.2.0-gentoo".to_string()]);
}

#[test]
fn scan_requires_both_tokens() {
    let root = linux_root_vec();
    let listing = vec![
        entry("/usr/src/linux-5.10", false),
        entry("/usr/src/5.10-gentoo", false),
        entry("/usr/src/linux-5.10-gentoo-extra", false),
        entry("/usr/src/linuxgentoo", false),
    ];
    let versions = scan(&root, &listing);
    assert_eq!(names(&versions), vec!["linuxgentoo".to_string()]);
}

#[test]
fn scan_requires_direct_child_of_root() {
    let root = linux_root_vec();
    let listing = vec![
        entry("/opt/src/linux-5.10-gentoo", false),
        entry("/usr/srclinux-5.10-gentoo", false),
        entry("/usr/src/", false),
    ];
    let versions = scan(&root, &listing);
    assert!(versions.is_empty());
}

#[test]
fn scan_of_empty_listing_is_empty() {
    let root = linux_root_vec();
    let versions = scan(&root, &Vec::new());
    assert!(versions.is_empty());
}

#[test]
fn scan_keeps_listing_order() {
    let root = linux_root_vec();
    let listing = vec![
        entry("/usr/src/linux-6.6.30-gentoo", false),
        entry("/usr/src/linux-5.15.0-gentoo", false),
        entry("/usr/src/linux-6.1.0-gentoo", false),
    ];
    let versions = scan(&root, &listing);
    assert_eq!(
        names(&versions),
        vec![
            "linux-6.6.30-gentoo".to_string(),
            "linux-5.15.0-gentoo".to_string(),
            "linux-6.1.0-gentoo".to_string(),
        ]
    );
}
