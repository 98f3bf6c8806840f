//! The orchestrator's data: the parsed configuration, and the builder that
//! holds it together with the version entries discovered by a single scan
//! at construction time. Selection, the symlink stages, and the build
//! stages are driven by the unverified shell through the `links` and
//! `pipeline` modules; this module also states the law that an
//! already-satisfied pair of symlink invariants lets a build reach the
//! compile stage with no filesystem mutation.

use vstd::prelude::*;
use crate::error::BuilderErr;
use crate::links::{ensure_config_link_spec, ensure_current_link_spec, ConfigLinkFs, CurrentLinkFs};
use crate::pipeline::{run, Event, Stage};
use crate::scan::{listing_view, scan, scan_spec, versions_view, RawEntry, VersionEntry, VersionEntryView};

verus! {

/// The three configured paths, already parsed by the unverified shell:
/// where the compiled kernel image goes, where the generated initramfs
/// goes, and which `.config` file is linked into the source tree.
pub struct GKBConfig {
    pub kernel_file_path: Vec<u8>,
    pub initramfs_file_path: Vec<u8>,
    pub kernel_config_file_path: Vec<u8>,
}

/// Mathematical image of a `GKBConfig`.
pub ghost struct GKBConfigView {
    pub kernel_file_path: Seq<u8>,
    pub initramfs_file_path: Seq<u8>,
    pub kernel_config_file_path: Seq<u8>,
}

impl View for GKBConfig {
    type V = GKBConfigView;

    open spec fn view(&self) -> GKBConfigView {
        GKBConfigView {
            kernel_file_path: self.kernel_file_path@,
            initramfs_file_path: self.initramfs_file_path@,
            kernel_config_file_path: self.kernel_config_file_path@,
        }
    }
}

/// The orchestrator's state: the configuration and the version entries of
/// one scan, computed at construction and immutable afterwards.
pub struct KernelBuilder {
    pub config: GKBConfig,
    pub versions: Vec<VersionEntry>,
}

impl KernelBuilder {
    /// Builds from a configuration and one listing of the scan root,
    /// filtering the listing to the kernel source trees it names.
    pub fn new(config: GKBConfig, root: &Vec<u8>, listing: &Vec<RawEntry>) -> (b: KernelBuilder)
        ensures
            b.config@ == config@,
            versions_view(b.versions@) == scan_spec(root@, listing_view(listing@)),
    {
        let versions = scan(root, listing);
        KernelBuilder { config, versions }
    }

    /// The operator's selection: the version entry at `index`, or nothing
    /// when the index is out of range (zero candidates included).
    pub fn select_version(&self, index: usize) -> (r: Option<&VersionEntry>)
        ensures
            match r {
                Some(e) => index < self.versions@.len() && *e == self.versions@[index as int],
                None => index >= self.versions@.len(),
            },
    {
        if index < self.versions.len() {
            Some(&self.versions[index])
        } else {
            None
        }
    }
}

/// When the selected entry's `.config` link is already present (with the
/// configured source in place) and the current alias already resolves to
/// it, both symlink stages succeed without mutating anything, and the
/// pipeline reaches the compile stage.
pub proof fn lemma_satisfied_links_reach_compile_unmutated(
    cfs: ConfigLinkFs,
    kfs: CurrentLinkFs,
    entry: VersionEntryView,
    source: Seq<u8>,
)
    requires
        cfs.source_ok,
        cfs.link is Some,
        kfs.alias == Some(entry.version_string),
    ensures
        ensure_config_link_spec(cfs, source) == Ok::<ConfigLinkFs, BuilderErr>(cfs),
        ensure_current_link_spec(kfs, entry) == Ok::<CurrentLinkFs, BuilderErr>(kfs),
        run(Stage::ConfigLink, seq![Event::LinkEnsured, Event::LinkEnsured]) == seq![
            Stage::CurrentLink,
            Stage::Compile,
        ],
{
    let e0 = seq![Event::LinkEnsured, Event::LinkEnsured];
    let e1 = e0.drop_first();
    let e2 = e1.drop_first();
    assert(e2.len() == 0);
    assert(run(Stage::Compile, e2) =~= Seq::empty());
    assert(run(Stage::CurrentLink, e1) =~= seq![Stage::Compile] + run(Stage::Compile, e2));
    assert(run(Stage::ConfigLink, e0) =~= seq![Stage::CurrentLink] + run(Stage::CurrentLink, e1));
    assert(run(Stage::ConfigLink, e0) =~= seq![Stage::CurrentLink, Stage::Compile]);
}

} // verus!
