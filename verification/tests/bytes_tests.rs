use gentoo_kernel_builder::bytes::{bytes_eq, ends_with, path_join, starts_with, suffix_from, u64_to_decimal};
use gentoo_kernel_builder::error::BuilderErr;

#[test]
fn decimal_rendering_is_exact() {
    assert_eq!(u64_to_decimal(0), b"0".to_vec());
    assert_eq!(u64_to_decimal(7), b"7".to_vec());
    assert_eq!(u64_to_decimal(10), b"10".to_vec());
    assert_eq!(u64_to_decimal(107), b"107".to_vec());
    assert_eq!(u64_to_decimal(65536), b"65536".to_vec());
    assert_eq!(u64_to_decimal(u64::MAX), b"18446744073709551615".to_vec());
}

#[test]
fn prefix_and_suffix_tests() {
    let s = b"linux-5.10-gentoo".to_vec();
    assert!(starts_with(&s, &b"linux".to_vec()));
    assert!(!starts_with(&s, &b"linux-6".to_vec()));
    assert!(starts_with(&s, &Vec::new()));
    assert!(ends_with(&s, &b"gentoo".to_vec()));
    assert!(!ends_with(&s, &b"gnu".to_vec()));
    assert!(!starts_with(&b"li".to_vec(), &s));
    assert!(!ends_with(&b"oo".to_vec(), &s));
}

#[test]
fn suffix_from_copies_the_tail() {
    let s = b"linux-5.10-gentoo".to_vec();
    assert_eq!(suffix_from(&s, 6), b"5.10-gentoo".to_vec());
    assert_eq!(suffix_from(&s, 0), s);
    assert_eq!(suffix_from(&s, s.len()), Vec::<u8>::new());
}

#[test]
fn bytes_eq_compares_contents() {
    assert!(bytes_eq(&b"abc".to_vec(), &b"abc".to_vec()));
    assert!(!bytes_eq(&b"abc".to_vec(), &b"abd".to_vec()));
    assert!(!bytes_eq(&b"abc".to_vec(), &b"ab".to_vec()));
}

#[test]
fn path_join_inserts_one_separator() {
    assert_eq!(
        path_join(&b"/usr/src".to_vec(), &b"linux".to_vec()),
        b"/usr/src/linux".to_vec()
    );
    assert_eq!(
        path_join(&b"/usr/src/linux-5.10-gentoo".to_vec(), &b".config".to_vec()),
        b"/usr/src/linux-5.10-gentoo/.config".to_vec()
    );
}

#[test]
fn error_messages_name_the_kind() {
    assert_eq!(
        BuilderErr::KernelConfigMissing.message(),
        "kernel .config source is missing or not a regular file"
    );
    assert_eq!(BuilderErr::LinkingFileError.message(), "failed to read, create, or remove a symlink");
    assert_eq!(BuilderErr::KernelBuildFail.message(), "failed to run a build stage or to copy its artifact");
    assert_eq!(BuilderErr::PromptError.message(), "the interactive prompt failed");
    assert_eq!(BuilderErr::NoPrivileges.message(), "privilege escalation failed");
}
