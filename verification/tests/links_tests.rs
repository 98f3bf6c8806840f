use gentoo_kernel_builder::error::BuilderErr;
use gentoo_kernel_builder::links::{
    config_link_decision, current_link_decision, ConfigLinkAction, CurrentLinkAction,
};

#[test]
fn config_link_missing_source_fails() {
    assert_eq!(
        config_link_decision(false, false, false),
        Err(BuilderErr::KernelConfigMissing)
    );
    assert_eq!(
        config_link_decision(true, false, true),
        Err(BuilderErr::KernelConfigMissing)
    );
}

#[test]
fn config_link_source_must_be_regular_file() {
    assert_eq!(
        config_link_decision(false, true, false),
        Err(BuilderErr::KernelConfigMissing)
    );
}

#[test]
fn config_link_keeps_existing_link() {
    assert_eq!(
        config_link_decision(true, true, true),
        Ok(ConfigLinkAction::KeepExisting)
    );
}

#[test]
fn config_link_creates_when_absent() {
    assert_eq!(
        config_link_decision(false, true, true),
        Ok(ConfigLinkAction::CreateLink)
    );
}

#[test]
fn config_link_decision_is_idempotent() {
    // After a created link the path exists, and a second run keeps it.
    assert_eq!(
        config_link_decision(false, true, true),
        Ok(ConfigLinkAction::CreateLink)
    );
    assert_eq!(
        config_link_decision(true, true, true),
        Ok(ConfigLinkAction::KeepExisting)
    );
}

#[test]
fn current_link_unreadable_alias_is_an_error() {
    let version = b"linux-5.10-gentoo".to_vec();
    assert_eq!(
        current_link_decision(None, &version),
        Err(BuilderErr::LinkingFileError)
    );
}

#[test]
fn current_link_matching_alias_is_kept() {
    let version = b"linux-5.10-gentoo".to_vec();
    let target = b"linux-5.10-gentoo".to_vec();
    assert_eq!(
        current_link_decision(Some(&target), &version),
        Ok(CurrentLinkAction::KeepAlias)
    );
}

#[test]
fn current_link_other_alias_is_replaced() {
    let version = b"linux-5.10-gentoo".to_vec();
    let target = b"linux-6.1.0-gentoo".to_vec();
    assert_eq!(
        current_link_decision(Some(&target), &version),
        Ok(CurrentLinkAction::ReplaceAlias)
    );
}
