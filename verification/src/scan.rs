//! Discovery of kernel source trees. A directory listing, reported by the
//! unverified shell as plain byte paths with a symlink flag, is filtered to
//! the entries that name a kernel source tree: direct children of the scan
//! root whose name carries the kernel token as prefix and the distribution
//! token as suffix, and which are not themselves symlinks. Entries failing
//! any rule are silently dropped; listing order is preserved.

use vstd::prelude::*;
use crate::bytes::{is_prefix_of, is_suffix_of, starts_with, ends_with, suffix_from};
use crate::tokens::{kernel_token, dist_token, kernel_token_vec, dist_token_vec};

verus! {

/// A directory entry as the filesystem reported it: its full path and
/// whether the entry is itself a symbolic link.
pub struct RawEntry {
    pub path: Vec<u8>,
    pub is_symlink: bool,
}

/// Mathematical image of a `RawEntry`.
pub ghost struct RawEntryView {
    pub path: Seq<u8>,
    pub is_symlink: bool,
}

impl View for RawEntry {
    type V = RawEntryView;

    open spec fn view(&self) -> RawEntryView {
        RawEntryView { path: self.path@, is_symlink: self.is_symlink }
    }
}

/// An identified kernel source tree: its directory and the version string
/// that names it (the directory's name relative to the scan root). Created
/// once per scan and never mutated.
pub struct VersionEntry {
    pub path: Vec<u8>,
    pub version_string: Vec<u8>,
}

/// Mathematical image of a `VersionEntry`.
pub ghost struct VersionEntryView {
    pub path: Seq<u8>,
    pub version_string: Seq<u8>,
}

impl View for VersionEntry {
    type V = VersionEntryView;

    open spec fn view(&self) -> VersionEntryView {
        VersionEntryView { path: self.path@, version_string: self.version_string@ }
    }
}

/// The image of a listing under the entry view.
pub open spec fn listing_view(l: Seq<RawEntry>) -> Seq<RawEntryView> {
    l.map_values(|e: RawEntry| e@)
}

/// The image of a scan result under the entry view.
pub open spec fn versions_view(l: Seq<VersionEntry>) -> Seq<VersionEntryView> {
    l.map_values(|e: VersionEntry| e@)
}

/// True when `path` names a direct child of `root`: the root, a path
/// separator, then a non-empty name.
pub open spec fn is_child_path(root: Seq<u8>, path: Seq<u8>) -> bool {
    &&& path.len() > root.len() + 1
    &&& path.take(root.len() as int) == root
    &&& path[root.len() as int] == '/' as u8
}

/// The name of `path` relative to `root`.
pub open spec fn rel_name(root: Seq<u8>, path: Seq<u8>) -> Seq<u8> {
    path.skip(root.len() + 1 as int)
}

/// The discovery rule: an entry is kept exactly when it is a direct child
/// of the root, is not a symlink, and its name starts with the kernel token
/// and ends with the distribution token.
pub open spec fn entry_accepted(root: Seq<u8>, e: RawEntryView) -> bool {
    &&& !e.is_symlink
    &&& is_child_path(root, e.path)
    &&& is_prefix_of(kernel_token(), rel_name(root, e.path))
    &&& is_suffix_of(dist_token(), rel_name(root, e.path))
}

/// The version entry an accepted listing entry gives rise to.
pub open spec fn version_of(root: Seq<u8>, e: RawEntryView) -> VersionEntryView {
    VersionEntryView { path: e.path, version_string: rel_name(root, e.path) }
}

/// The scan result for a listing: the accepted entries, in listing order,
/// each mapped to its version entry.
pub open spec fn scan_spec(root: Seq<u8>, listing: Seq<RawEntryView>) -> Seq<VersionEntryView>
    decreases listing.len(),
{
    if listing.len() == 0 {
        Seq::empty()
    } else {
        let rest = scan_spec(root, listing.drop_last());
        if entry_accepted(root, listing.last()) {
            rest.push(version_of(root, listing.last()))
        } else {
            rest
        }
    }
}

/// Filters a directory listing of the scan root down to the kernel source
/// trees it holds. Read-only discovery: an unreadable root is reported by
/// the caller as an empty listing and yields an empty result.
pub fn scan(root: &Vec<u8>, listing: &Vec<RawEntry>) -> (r: Vec<VersionEntry>)
    ensures
        versions_view(r@) == scan_spec(root@, listing_view(listing@)),
{
    let kt = kernel_token_vec();
    let dt = dist_token_vec();
    let mut r: Vec<VersionEntry> = Vec::new();
    let mut i: usize = 0;
    while i < listing.len()
        invariant
            i <= listing@.len(),
            kt@ == kernel_token(),
            dt@ == dist_token(),
            versions_view(r@) =~= scan_spec(root@, listing_view(listing@).take(i as int)),
        decreases listing@.len() - i,
    {
        let e = &listing[i];
        let ghost prev = r@;
        if e.path.len() > root.len() && e.path.len() - root.len() > 1 && starts_with(&e.path, root)
            && e.path[root.len()] == '/' as u8 && !e.is_symlink {
            let name = suffix_from(&e.path, root.len() + 1);
            if starts_with(&name, &kt) && ends_with(&name, &dt) {
                let path_copy = e.path.clone();
                assert(path_copy@ =~= e.path@);
                r.push(VersionEntry { path: path_copy, version_string: name });
                assert(r@[r@.len() - 1]@ == version_of(root@, e@));
            }
        }
        proof {
            let lv = listing_view(listing@);
            assert(lv.take(i + 1).drop_last() =~= lv.take(i as int));
            assert(lv.take(i + 1).last() == listing@[i as int]@);
            if entry_accepted(root@, listing@[i as int]@) {
                assert(versions_view(r@) =~= versions_view(prev).push(version_of(root@, listing@[i as int]@)));
            }
        }
        i += 1;
    }
    proof {
        assert(listing_view(listing@).take(listing@.len() as int) =~= listing_view(listing@));
    }
    r
}

/// Everything a scan returns is a valid version entry: its version string
/// carries the kernel token as prefix and the distribution token as suffix,
/// and it arose from a non-symlink listing entry that the discovery rule
/// accepted.
pub open spec fn scanned_entry_valid(root: Seq<u8>, listing: Seq<RawEntryView>, v: VersionEntryView) -> bool {
    &&& is_prefix_of(kernel_token(), v.version_string)
    &&& is_suffix_of(dist_token(), v.version_string)
    &&& exists|j: int|
        0 <= j < listing.len() && entry_accepted(root, #[trigger] listing[j]) && v == version_of(
            root,
            listing[j],
        )
}

/// For any directory listing, the scan returns only entries whose name
/// starts with the kernel token and ends with the distribution token, and
/// excludes any entry that is itself a symlink.
pub proof fn lemma_scan_only_valid_entries(root: Seq<u8>, listing: Seq<RawEntryView>)
    ensures
        forall|i: int|
            0 <= i < scan_spec(root, listing).len() ==> scanned_entry_valid(
                root,
                listing,
                #[trigger] scan_spec(root, listing)[i],
            ),
    decreases listing.len(),
{
    if listing.len() == 0 {
    } else {
        let rest = listing.drop_last();
        lemma_scan_only_valid_entries(root, rest);
        let s = scan_spec(root, listing);
        let sr = scan_spec(root, rest);
        assert forall|i: int| 0 <= i < s.len() implies scanned_entry_valid(root, listing, s[i]) by {
            if i < sr.len() {
                assert(scanned_entry_valid(root, rest, sr[i]));
                let j = choose|j: int|
                    0 <= j < rest.len() && entry_accepted(root, #[trigger] rest[j]) && sr[i]
                        == version_of(root, rest[j]);
                assert(listing[j] == rest[j]);
                assert(s[i] == sr[i]);
            } else {
                assert(entry_accepted(root, listing.last()));
                assert(s[i] == version_of(root, listing[listing.len() - 1]));
            }
        }
    }
}

/// Nothing accepted is dropped: every listing entry the discovery rule
/// accepts contributes its version entry to the scan result.
pub proof fn lemma_scan_complete(root: Seq<u8>, listing: Seq<RawEntryView>, j: int)
    requires
        0 <= j < listing.len(),
        entry_accepted(root, listing[j]),
    ensures
        scan_spec(root, listing).contains(version_of(root, listing[j])),
    decreases listing.len(),
{
    let s = scan_spec(root, listing);
    let rest = listing.drop_last();
    if j == listing.len() - 1 {
        if entry_accepted(root, listing.last()) {
            assert(s.last() == version_of(root, listing.last()));
            assert(s.contains(version_of(root, listing[j])));
        }
    } else {
        lemma_scan_complete(root, rest, j);
        let sr = scan_spec(root, rest);
        let k = choose|k: int| 0 <= k < sr.len() && sr[k] == version_of(root, rest[j]);
        assert(rest[j] == listing[j]);
        assert(s[k] == sr[k]);
        assert(s.contains(version_of(root, listing[j])));
    }
}

} // verus!
