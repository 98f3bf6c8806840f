use gentoo_kernel_builder::builder::{GKBConfig, KernelBuilder};
use gentoo_kernel_builder::scan::RawEntry;
use gentoo_kernel_builder::tokens::linux_root_vec;

fn sample_config() -> GKBConfig {
    GKBConfig {
        kernel_file_path: b"/boot/vmlinuz".to_vec(),
        initramfs_file_path: b"/boot/initramfs".to_vec(),
        kernel_config_file_path: b"/etc/kernels/config".to_vec(),
    }
}

fn entry(path: &str, is_symlink: bool) -> RawEntry {
    RawEntry { path: path.as_bytes().to_vec(), is_symlink }
}

#[test]
fn new_scans_once_at_construction() {
    let listing = vec![
        entry("/usr/src/linux-5.10-gentoo", false),
        entry("/usr/src/linux-current", true),
        entry("/usr/src/other-tree", false),
    ];
    let b = KernelBuilder::new(sample_config(), &linux_root_vec(), &listing);
    assert_eq!(b.versions.len(), 1);
    assert_eq!(b.versions[0].version_string, b"linux-5.10-gentoo".to_vec());
    assert_eq!(b.config.kernel_file_path, b"/boot/vmlinuz".to_vec());
    assert_eq!(b.config.initramfs_file_path, b"/boot/initramfs".to_vec());
    assert_eq!(b.config.kernel_config_file_path, b"/etc/kernels/config".to_vec());
}

#[test]
fn select_version_returns_the_indexed_entry() {
    let listing = vec![
        entry("/usr/src/linux-5.10-gentoo", false),
        entry("/usr/src/linux-6.1.0-gentoo", false),
    ];
    let b = KernelBuilder::new(sample_config(), &linux_root_vec(), &listing);
    let e = b.select_version(1).unwrap();
    assert_eq!(e.version_string, b"linux-6.1.0-gentoo".to_vec());
    assert_eq!(e.path, b"/usr/src/linux-6.1.0-gentoo".to_vec());
}

#[test]
fn select_version_out_of_range_is_none() {
    let b = KernelBuilder::new(sample_config(), &linux_root_vec(), &Vec::new());
    assert!(b.select_version(0).is_none());
}
