//! The two symlink invariants enforced before a build: the `.config` link
//! inside the selected source tree, and the current-kernel alias under the
//! scan root. The filesystem itself is touched by the unverified shell; this
//! module holds the decision rules it follows, and a model of the mutated
//! slice of filesystem state over which the invariants' laws are proved.

use vstd::prelude::*;
use crate::error::BuilderErr;
use crate::bytes::bytes_eq;
use crate::scan::VersionEntryView;

verus! {

/// What `ensure_config_link` decides to do.
#[derive(Clone, Copy, Debug, PartialEq, Eq, Structural)]
pub enum ConfigLinkAction {
    /// The link path already exists; existing configuration is never
    /// disturbed.
    KeepExisting,
    /// The link path is absent; create a link to the configured source.
    CreateLink,
}

/// What `ensure_current_link` decides to do.
#[derive(Clone, Copy, Debug, PartialEq, Eq, Structural)]
pub enum CurrentLinkAction {
    /// The alias already resolves to the selected version; leave it alone.
    KeepAlias,
    /// The alias resolves elsewhere; delete it and recreate it pointing at
    /// the selected version's directory.
    ReplaceAlias,
}

/// The decision rule of `ensure_config_link`: a missing or non-regular
/// source fails before anything is touched; an existing link path is kept;
/// otherwise the link is created.
pub open spec fn config_link_decision_spec(link_exists: bool, source_ok: bool) -> Result<
    ConfigLinkAction,
    BuilderErr,
> {
    if !source_ok {
        Err(BuilderErr::KernelConfigMissing)
    } else if link_exists {
        Ok(ConfigLinkAction::KeepExisting)
    } else {
        Ok(ConfigLinkAction::CreateLink)
    }
}

/// Decides the `.config` link action from the two filesystem facts the
/// shell reports: whether the link path exists, and whether the configured
/// source exists and is a regular file.
pub fn config_link_decision(link_exists: bool, source_exists: bool, source_is_file: bool) -> (r:
    Result<ConfigLinkAction, BuilderErr>)
    ensures
        r == config_link_decision_spec(link_exists, source_exists && source_is_file),
{
    if !(source_exists && source_is_file) {
        Err(BuilderErr::KernelConfigMissing)
    } else if link_exists {
        Ok(ConfigLinkAction::KeepExisting)
    } else {
        Ok(ConfigLinkAction::CreateLink)
    }
}

/// The slice of filesystem state `ensure_config_link` may read or mutate:
/// the target of the link path, if the path exists at all, and whether the
/// configured source exists and is a regular file.
pub ghost struct ConfigLinkFs {
    pub link: Option<Seq<u8>>,
    pub source_ok: bool,
}

/// The filesystem state a `.config` link action leaves behind.
pub open spec fn apply_config_action(fs: ConfigLinkFs, source: Seq<u8>, a: ConfigLinkAction) -> ConfigLinkFs {
    match a {
        ConfigLinkAction::KeepExisting => fs,
        ConfigLinkAction::CreateLink => ConfigLinkFs { link: Some(source), ..fs },
    }
}

/// `ensure_config_link` over the model: the decision rule followed by its
/// effect. An error mutates nothing and yields no new state.
pub open spec fn ensure_config_link_spec(fs: ConfigLinkFs, source: Seq<u8>) -> Result<
    ConfigLinkFs,
    BuilderErr,
> {
    match config_link_decision_spec(fs.link is Some, fs.source_ok) {
        Ok(a) => Ok(apply_config_action(fs, source, a)),
        Err(e) => Err(e),
    }
}

/// `ensure_config_link` is idempotent: running it a second time on the
/// state it produced yields that same state.
pub proof fn lemma_config_link_idempotent(fs: ConfigLinkFs, source: Seq<u8>, fs2: ConfigLinkFs)
    requires
        ensure_config_link_spec(fs, source) == Ok::<ConfigLinkFs, BuilderErr>(fs2),
    ensures
        ensure_config_link_spec(fs2, source) == Ok::<ConfigLinkFs, BuilderErr>(fs2),
{
}

/// `ensure_config_link` never overwrites an existing link target.
pub proof fn lemma_config_link_never_overwrites(
    fs: ConfigLinkFs,
    source: Seq<u8>,
    t: Seq<u8>,
    fs2: ConfigLinkFs,
)
    requires
        fs.link == Some(t),
        ensure_config_link_spec(fs, source) == Ok::<ConfigLinkFs, BuilderErr>(fs2),
    ensures
        fs2.link == Some(t),
{
}

/// If the configured source does not exist as a regular file, the
/// operation fails with `KernelConfigMissing` and produces no new
/// filesystem state: nothing is mutated.
pub proof fn lemma_config_link_missing_source_fails(fs: ConfigLinkFs, source: Seq<u8>)
    requires
        !fs.source_ok,
    ensures
        ensure_config_link_spec(fs, source) == Err::<ConfigLinkFs, BuilderErr>(
            BuilderErr::KernelConfigMissing,
        ),
{
}

/// The decision rule of `ensure_current_link`: an unreadable alias is an
/// error (the alias is expected to pre-exist), an alias that already
/// resolves to the selected version is kept, any other alias is replaced.
pub open spec fn current_link_decision_spec(alias: Option<Seq<u8>>, version_string: Seq<u8>) -> Result<
    CurrentLinkAction,
    BuilderErr,
> {
    match alias {
        Option::None => Err(BuilderErr::LinkingFileError),
        Option::Some(t) => if t == version_string {
            Ok(CurrentLinkAction::KeepAlias)
        } else {
            Ok(CurrentLinkAction::ReplaceAlias)
        },
    }
}

/// Decides the current-alias action from what reading the alias link
/// reported: its target, or nothing when the link is absent or unreadable.
pub fn current_link_decision(alias_target: Option<&Vec<u8>>, version_string: &Vec<u8>) -> (r:
    Result<CurrentLinkAction, BuilderErr>)
    ensures
        r == current_link_decision_spec(
            match alias_target {
                Option::Some(t) => Option::Some(t@),
                Option::None => Option::None,
            },
            version_string@,
        ),
{
    match alias_target {
        Option::None => Err(BuilderErr::LinkingFileError),
        Option::Some(t) => if bytes_eq(t, version_string) {
            Ok(CurrentLinkAction::KeepAlias)
        } else {
            Ok(CurrentLinkAction::ReplaceAlias)
        },
    }
}

/// The slice of filesystem state `ensure_current_link` may read or mutate:
/// the stored target of the alias link, or nothing when the alias is absent
/// or unreadable.
pub ghost struct CurrentLinkFs {
    pub alias: Option<Seq<u8>>,
}

/// The filesystem state a current-alias action leaves behind. A replace
/// points the alias at the selected version's directory.
pub open spec fn apply_current_action(
    fs: CurrentLinkFs,
    entry: VersionEntryView,
    a: CurrentLinkAction,
) -> CurrentLinkFs {
    match a {
        CurrentLinkAction::KeepAlias => fs,
        CurrentLinkAction::ReplaceAlias => CurrentLinkFs { alias: Some(entry.path) },
    }
}

/// `ensure_current_link` over the model: the decision rule followed by its
/// effect. An error mutates nothing and yields no new state.
pub open spec fn ensure_current_link_spec(fs: CurrentLinkFs, entry: VersionEntryView) -> Result<
    CurrentLinkFs,
    BuilderErr,
> {
    match current_link_decision_spec(fs.alias, entry.version_string) {
        Ok(a) => Ok(apply_current_action(fs, entry, a)),
        Err(e) => Err(e),
    }
}

/// `ensure_current_link` is a no-op when the alias already resolves to the
/// selected version.
pub proof fn lemma_current_link_idempotent_when_resolved(fs: CurrentLinkFs, entry: VersionEntryView)
    requires
        fs.alias == Some(entry.version_string),
    ensures
        ensure_current_link_spec(fs, entry) == Ok::<CurrentLinkFs, BuilderErr>(fs),
{
}

/// `ensure_current_link` mutates the alias only when it resolves elsewhere,
/// and then points it at the selected version's directory.
pub proof fn lemma_current_link_mutates_only_elsewhere(
    fs: CurrentLinkFs,
    entry: VersionEntryView,
    fs2: CurrentLinkFs,
)
    requires
        ensure_current_link_spec(fs, entry) == Ok::<CurrentLinkFs, BuilderErr>(fs2),
        fs2 != fs,
    ensures
        fs.alias matches Some(t) && t != entry.version_string,
        fs2.alias == Some(entry.path),
{
}

} // verus!
