//! Discovery: from what a scan of the plugin root saw to the list of
//! manifests, or to the first failure.
//!
//! The host reads the file system and records what it saw in a
//! [`PluginTree`], without judging it. Everything that decides (what is
//! skipped, what aborts the scan, in which order manifests come out) is
//! here.

use vstd::prelude::*;
use crate::layout::CATEGORY_COUNT;
use crate::manifest::{PluginManifest, PluginManifestView};
use crate::text::message;

verus! {

/// What was found at the manifest path inside one directory entry.
#[derive(Debug)]
pub enum ManifestProbe {
    /// No file at the manifest path.
    Absent,
    /// The file exists but could not be read; the text says why.
    Unreadable(String),
    /// The file was read but is no manifest; the text says why.
    Invalid(String),
    /// The manifest, parsed.
    Parsed(PluginManifest),
}

/// What was found of one entry of a category directory.
#[derive(Debug)]
pub enum EntryProbe {
    /// Listing the directory failed at this entry; the text says why.
    Unreadable(String),
    /// An entry, with whether it is a directory and what its manifest path
    /// holds.
    Found { is_dir: bool, manifest: ManifestProbe },
}

/// What was found of one category directory.
#[derive(Debug)]
pub enum CategoryListing {
    /// The directory does not exist.
    Missing,
    /// The directory exists but could not be listed; the text says why.
    Unreadable(String),
    /// The entries, in the order in which the file system listed them.
    Entries(Vec<EntryProbe>),
}

/// One scan of the plugin root: a listing for each category, in the order of
/// [`crate::layout::categories`].
#[derive(Debug)]
pub struct PluginTree {
    pub categories: [CategoryListing; 4],
}

/// What one step of the scan contributes.
pub enum Finding {
    /// Nothing: the step is passed over.
    Nothing,
    /// A failure, with its message. The first one ends the scan.
    Failure(Seq<char>),
    /// A plugin's manifest.
    Plugin(PluginManifestView),
}

/// What a directory entry contributes. Only directories count, and among
/// them only those with a file at the manifest path; such a file must be
/// readable and must parse.
pub open spec fn entry_finding(entry: EntryProbe) -> Finding {
    match entry {
        EntryProbe::Unreadable(why) => Finding::Failure("Failed to read entry: "@ + why@),
        EntryProbe::Found { is_dir, manifest } => if !is_dir {
            Finding::Nothing
        } else {
            match manifest {
                ManifestProbe::Absent => Finding::Nothing,
                ManifestProbe::Unreadable(why) => Finding::Failure(
                    "Failed to read manifest: "@ + why@,
                ),
                ManifestProbe::Invalid(why) => Finding::Failure(
                    "Failed to parse manifest: "@ + why@,
                ),
                ManifestProbe::Parsed(manifest) => Finding::Plugin(manifest@),
            }
        },
    }
}

/// What the entries of a listed directory contribute, in listing order.
pub open spec fn entry_findings(entries: Seq<EntryProbe>) -> Seq<Finding> {
    Seq::new(entries.len(), |i: int| entry_finding(entries[i]))
}

/// What a category contributes. A missing directory contributes nothing; one
/// that cannot be listed contributes a failure.
pub open spec fn category_findings(listing: CategoryListing) -> Seq<Finding> {
    match listing {
        CategoryListing::Missing => Seq::empty(),
        CategoryListing::Unreadable(why) => seq![
            Finding::Failure("Failed to read category dir: "@ + why@),
        ],
        CategoryListing::Entries(entries) => entry_findings(entries@),
    }
}

/// What a run of categories contributes: each category's findings, one
/// category after the other.
pub open spec fn tree_findings(categories: Seq<CategoryListing>) -> Seq<Finding>
    decreases categories.len(),
{
    if categories.len() == 0 {
        Seq::empty()
    } else {
        category_findings(categories[0]) + tree_findings(categories.drop_first())
    }
}

/// Goes through `findings` in order, with `found` in hand: the first failure
/// is the outcome; without one, the outcome is `found` followed by every
/// manifest among the findings, in order.
pub open spec fn collect(found: Seq<PluginManifestView>, findings: Seq<Finding>) -> Result<
    Seq<PluginManifestView>,
    Seq<char>,
>
    decreases findings.len(),
{
    if findings.len() == 0 {
        Ok(found)
    } else {
        match findings[0] {
            Finding::Nothing => collect(found, findings.drop_first()),
            Finding::Failure(reason) => Err(reason),
            Finding::Plugin(manifest) => collect(found.push(manifest), findings.drop_first()),
        }
    }
}

/// The outcome of discovery over a run of categories.
pub open spec fn discovered_in(categories: Seq<CategoryListing>) -> Result<
    Seq<PluginManifestView>,
    Seq<char>,
> {
    collect(Seq::empty(), tree_findings(categories))
}

/// The outcome of discovery over a scan.
pub open spec fn discovered(tree: PluginTree) -> Result<Seq<PluginManifestView>, Seq<char>> {
    discovered_in(tree.categories@)
}

/// Discovers the plugins in a scan of the plugin root.
///
/// Categories are gone through in their fixed order, and the entries of each
/// in listing order. The first failure met ends discovery with its message;
/// otherwise all manifests come out, in scan order.
pub fn discover(tree: &PluginTree) -> (found: Result<Vec<PluginManifest>, String>)
    ensures
        match discovered(*tree) {
            Ok(list) => found matches Ok(manifests) && manifests.deep_view() == list,
            Err(reason) => found matches Err(message) && message@ == reason,
        },
{
    let mut manifests: Vec<PluginManifest> = Vec::new();
    let mut c: usize = 0;
    assert(tree.categories@.skip(0) =~= tree.categories@);
    assert(manifests.deep_view() =~= Seq::empty());
    while c < CATEGORY_COUNT
        invariant
            c <= 4,
            collect(manifests.deep_view(), tree_findings(tree.categories@.skip(c as int)))
                == discovered(*tree),
        decreases 4 - c,
    {
        let ghost later = tree_findings(tree.categories@.skip(c as int + 1));
        assert(tree.categories@.skip(c as int).drop_first() =~= tree.categories@.skip(
            c as int + 1,
        ));
        assert(tree_findings(tree.categories@.skip(c as int)) == category_findings(
            tree.categories@[c as int],
        ) + later);
        match &tree.categories[c] {
            CategoryListing::Missing => {
                assert(category_findings(tree.categories@[c as int]) + later =~= later);
            },
            CategoryListing::Unreadable(why) => {
                return Err(message("Failed to read category dir: ", why.as_str()));
            },
            CategoryListing::Entries(entries) => {
                let ghost own = entry_findings(entries@);
                let mut e: usize = 0;
                assert(own.skip(0) =~= own);
                while e < entries.len()
                    invariant
                        e <= entries.len(),
                        own == entry_findings(entries@),
                        collect(manifests.deep_view(), own.skip(e as int) + later) == discovered(
                            *tree,
                        ),
                    decreases entries.len() - e,
                {
                    let ghost rest = own.skip(e as int) + later;
                    assert(rest[0] == entry_finding(entries@[e as int]));
                    assert(rest.drop_first() =~= own.skip(e as int + 1) + later);
                    match &entries[e] {
                        EntryProbe::Unreadable(why) => {
                            return Err(message("Failed to read entry: ", why.as_str()));
                        },
                        EntryProbe::Found { is_dir, manifest } => {
                            if *is_dir {
                                match manifest {
                                    ManifestProbe::Absent => {},
                                    ManifestProbe::Unreadable(why) => {
                                        return Err(
                                            message("Failed to read manifest: ", why.as_str()),
                                        );
                                    },
                                    ManifestProbe::Invalid(why) => {
                                        return Err(
                                            message("Failed to parse manifest: ", why.as_str()),
                                        );
                                    },
                                    ManifestProbe::Parsed(parsed) => {
                                        let ghost before = manifests.deep_view();
                                        manifests.push(parsed.clone());
                                        assert(manifests.deep_view() =~= before.push(parsed@));
                                    },
                                }
                            }
                        },
                    }
                    e += 1;
                }
                assert(own.skip(e as int) + later =~= later);
            },
        }
        c += 1;
    }
    assert(tree.categories@.skip(4).len() == 0);
    Ok(manifests)
}

} // verus!
