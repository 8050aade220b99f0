//! What holds of discovery, whatever the scan.

use vstd::prelude::*;
use crate::discovery::{
    category_findings, collect, discovered, discovered_in, tree_findings, CategoryListing,
    EntryProbe, Finding, ManifestProbe, PluginTree,
};
use crate::manifest::PluginManifestView;

verus! {

/// Whether some category of the run contributes `finding`.
pub open spec fn scanned(categories: Seq<CategoryListing>, finding: Finding) -> bool {
    exists|c: int|
        0 <= c < categories.len() && (#[trigger] category_findings(categories[c])).contains(
            finding,
        )
}

/// Going through two runs of findings one after the other is going through
/// the first and, if that went well, on through the second.
pub proof fn lemma_collect_concat(
    found: Seq<PluginManifestView>,
    first: Seq<Finding>,
    second: Seq<Finding>,
)
    ensures
        collect(found, first + second) == match collect(found, first) {
            Ok(list) => collect(list, second),
            Err(reason) => Err(reason),
        },
    decreases first.len(),
{
    if first.len() == 0 {
        assert(first + second =~= second);
    } else {
        assert((first + second)[0] == first[0]);
        assert((first + second).drop_first() =~= first.drop_first() + second);
        match first[0] {
            Finding::Nothing => lemma_collect_concat(found, first.drop_first(), second),
            Finding::Failure(_) => {},
            Finding::Plugin(manifest) => lemma_collect_concat(
                found.push(manifest),
                first.drop_first(),
                second,
            ),
        }
    }
}

/// Going through findings succeeds exactly when none of them is a failure,
/// and what then comes out holds what was in hand and the manifests among
/// the findings, and nothing else.
pub proof fn lemma_collect_outcome(found: Seq<PluginManifestView>, findings: Seq<Finding>)
    ensures
        collect(found, findings) is Ok <==> forall|i: int|
            0 <= i < findings.len() ==> !((#[trigger] findings[i]) is Failure),
        collect(found, findings) matches Ok(list) ==> forall|manifest: PluginManifestView|
            #[trigger] list.contains(manifest) <==> found.contains(manifest) || findings.contains(
                Finding::Plugin(manifest),
            ),
    decreases findings.len(),
{
    if findings.len() != 0 {
        let rest = findings.drop_first();
        assert(forall|i: int| 0 <= i < rest.len() ==> rest[i] == findings[i + 1]);
        match findings[0] {
            Finding::Failure(_) => {},
            Finding::Nothing => {
                lemma_collect_outcome(found, rest);
                if collect(found, findings) is Ok {
                    assert forall|i: int| 0 <= i < findings.len() implies !((
                    #[trigger] findings[i]) is Failure) by {
                        if i > 0 {
                            assert(rest[i - 1] == findings[i]);
                        }
                    }
                }
                if let Ok(list) = collect(found, findings) {
                    assert forall|manifest: PluginManifestView| #[trigger]
                        list.contains(manifest) <==> found.contains(manifest) || findings.contains(
                            Finding::Plugin(manifest),
                        ) by {
                        let wanted = Finding::Plugin(manifest);
                        if rest.contains(wanted) {
                            let k = choose|k: int| 0 <= k < rest.len() && rest[k] == wanted;
                            assert(findings[k + 1] == wanted);
                        }
                        if findings.contains(wanted) {
                            let k = choose|k: int| 0 <= k < findings.len() && findings[k] == wanted;
                            assert(rest[k - 1] == wanted);
                        }
                    }
                }
            },
            Finding::Plugin(first) => {
                let held = found.push(first);
                lemma_collect_outcome(held, rest);
                if collect(found, findings) is Ok {
                    assert forall|i: int| 0 <= i < findings.len() implies !((
                    #[trigger] findings[i]) is Failure) by {
                        if i > 0 {
                            assert(rest[i - 1] == findings[i]);
                        }
                    }
                }
                if let Ok(list) = collect(found, findings) {
                    assert forall|manifest: PluginManifestView| #[trigger]
                        list.contains(manifest) <==> found.contains(manifest) || findings.contains(
                            Finding::Plugin(manifest),
                        ) by {
                        let wanted = Finding::Plugin(manifest);
                        assert(held[found.len() as int] == first);
                        if held.contains(manifest) {
                            let k = choose|k: int| 0 <= k < held.len() && held[k] == manifest;
                            if k < found.len() {
                                assert(found[k] == manifest);
                            } else {
                                assert(findings[0] == wanted);
                            }
                        }
                        if found.contains(manifest) {
                            let k = choose|k: int| 0 <= k < found.len() && found[k] == manifest;
                            assert(held[k] == manifest);
                        }
                        if rest.contains(wanted) {
                            let k = choose|k: int| 0 <= k < rest.len() && rest[k] == wanted;
                            assert(findings[k + 1] == wanted);
                        }
                        if findings.contains(wanted) {
                            let k = choose|k: int| 0 <= k < findings.len() && findings[k] == wanted;
                            if k > 0 {
                                assert(rest[k - 1] == wanted);
                            } else {
                                assert(held.contains(manifest));
                            }
                        }
                    }
                }
            },
        }
    }
}

/// The findings of two runs of categories, one after the other, are the
/// findings of the first followed by those of the second.
pub proof fn lemma_tree_findings_concat(first: Seq<CategoryListing>, second: Seq<CategoryListing>)
    ensures
        tree_findings(first + second) == tree_findings(first) + tree_findings(second),
    decreases first.len(),
{
    if first.len() == 0 {
        assert(first + second =~= second);
        assert(tree_findings(first) + tree_findings(second) =~= tree_findings(second));
    } else {
        assert((first + second)[0] == first[0]);
        assert((first + second).drop_first() =~= first.drop_first() + second);
        lemma_tree_findings_concat(first.drop_first(), second);
        assert(tree_findings(first + second) =~= tree_findings(first) + tree_findings(second));
    }
}

/// The findings of a single category.
pub proof fn lemma_single_category(listing: CategoryListing)
    ensures
        tree_findings(seq![listing]) == category_findings(listing),
{
    reveal_with_fuel(tree_findings, 2);
    assert(seq![listing].drop_first() =~= Seq::<CategoryListing>::empty());
    assert(category_findings(listing) + Seq::<Finding>::empty() =~= category_findings(listing));
}

/// A finding is among those of a run of categories exactly when one of the
/// categories contributes it.
pub proof fn lemma_findings_origin(categories: Seq<CategoryListing>, finding: Finding)
    ensures
        tree_findings(categories).contains(finding) <==> scanned(categories, finding),
    decreases categories.len(),
{
    if categories.len() != 0 {
        let own = category_findings(categories[0]);
        let rest = categories.drop_first();
        let later = tree_findings(rest);
        lemma_findings_origin(rest, finding);
        if tree_findings(categories).contains(finding) {
            let k = choose|k: int|
                0 <= k < (own + later).len() && (own + later)[k] == finding;
            if k < own.len() {
                assert(own[k] == finding);
                assert(category_findings(categories[0]).contains(finding));
            } else {
                assert(later[k - own.len()] == finding);
                let c = choose|c: int|
                    0 <= c < rest.len() && (#[trigger] category_findings(rest[c])).contains(
                        finding,
                    );
                assert(rest[c] == categories[c + 1]);
                assert(category_findings(categories[c + 1]).contains(finding));
            }
        }
        if scanned(categories, finding) {
            let c = choose|c: int|
                0 <= c < categories.len() && (#[trigger] category_findings(
                    categories[c],
                )).contains(finding);
            if c == 0 {
                let k = choose|k: int| 0 <= k < own.len() && own[k] == finding;
                assert((own + later)[k] == finding);
            } else {
                assert(rest[c - 1] == categories[c]);
                assert(category_findings(rest[c - 1]).contains(finding));
                let k = choose|k: int| 0 <= k < later.len() && later[k] == finding;
                assert((own + later)[k + own.len()] == finding);
            }
        }
    }
}

/// Every discovered manifest has a non-empty id, provided that the
/// manifests the scan read from plugin directories have one: discovery
/// hands manifests on as they were read.
pub proof fn lemma_discovered_manifests_have_ids(tree: PluginTree)
    requires
        discovered(tree) is Ok ==> forall|manifest: PluginManifestView|
            #[trigger] scanned(tree.categories@, Finding::Plugin(manifest))
                ==> manifest.metadata.id.len() > 0,
    ensures
        discovered(tree) matches Ok(list) ==> forall|i: int|
            0 <= i < list.len() ==> (#[trigger] list[i]).metadata.id.len() > 0,
{
    if let Ok(list) = discovered(tree) {
        lemma_collect_outcome(Seq::empty(), tree_findings(tree.categories@));
        assert forall|i: int| 0 <= i < list.len() implies (#[trigger] list[i]).metadata.id.len()
            > 0 by {
            assert(list.contains(list[i]));
            lemma_findings_origin(tree.categories@, Finding::Plugin(list[i]));
        }
    }
}

/// Discovery is a function of the scan, and the order in which a directory
/// lists its entries does not matter to what is discovered: two scans that
/// saw the same in each category, in whatever order, both succeed or both
/// fail, and when they succeed they yield the same set of manifests.
pub proof fn lemma_discovery_ignores_listing_order(first: PluginTree, second: PluginTree)
    requires
        forall|c: int|
            0 <= c < 4 ==> category_findings(#[trigger] first.categories@[c]).to_set()
                == category_findings(second.categories@[c]).to_set(),
    ensures
        discovered(first) is Ok <==> discovered(second) is Ok,
        discovered(first) matches Ok(one) ==> discovered(second) matches Ok(other) ==> one.to_set()
            == other.to_set(),
{
    let a = tree_findings(first.categories@);
    let b = tree_findings(second.categories@);
    assert forall|finding: Finding| a.contains(finding) <==> b.contains(finding) by {
        lemma_findings_origin(first.categories@, finding);
        lemma_findings_origin(second.categories@, finding);
        if scanned(first.categories@, finding) {
            let c = choose|c: int|
                0 <= c < 4 && (#[trigger] category_findings(first.categories@[c])).contains(
                    finding,
                );
            assert(category_findings(first.categories@[c]).to_set().contains(finding));
            assert(category_findings(second.categories@[c]).to_set().contains(finding));
            assert(category_findings(second.categories@[c]).contains(finding));
        }
        if scanned(second.categories@, finding) {
            let c = choose|c: int|
                0 <= c < 4 && (#[trigger] category_findings(second.categories@[c])).contains(
                    finding,
                );
            assert(category_findings(second.categories@[c]).to_set().contains(finding));
            assert(category_findings(first.categories@[c]).to_set().contains(finding));
            assert(category_findings(first.categories@[c]).contains(finding));
        }
    }
    lemma_collect_outcome(Seq::empty(), a);
    lemma_collect_outcome(Seq::empty(), b);
    if discovered(first) is Ok {
        assert forall|i: int| 0 <= i < b.len() implies !((#[trigger] b[i]) is Failure) by {
            assert(b.contains(b[i]));
            let k = choose|k: int| 0 <= k < a.len() && a[k] == b[i];
            assert(!(a[k] is Failure));
        }
    }
    if discovered(second) is Ok {
        assert forall|i: int| 0 <= i < a.len() implies !((#[trigger] a[i]) is Failure) by {
            assert(a.contains(a[i]));
            let k = choose|k: int| 0 <= k < b.len() && b[k] == a[i];
            assert(!(b[k] is Failure));
        }
    }
    if let Ok(one) = discovered(first) {
        if let Ok(other) = discovered(second) {
            assert forall|manifest: PluginManifestView| one.contains(manifest) <==> other.contains(
                manifest,
            ) by {
                assert(a.contains(Finding::Plugin(manifest)) <==> b.contains(
                    Finding::Plugin(manifest),
                ));
            }
            assert(one.to_set() =~= other.to_set());
        }
    }
}

/// A category whose directory does not exist is passed over: discovery
/// comes out as it does for the remaining categories.
pub proof fn lemma_missing_category_is_skipped(categories: Seq<CategoryListing>, c: int)
    requires
        0 <= c < categories.len(),
        categories[c] is Missing,
    ensures
        discovered_in(categories) == discovered_in(categories.remove(c)),
{
    let before = categories.take(c);
    let after = categories.skip(c + 1);
    let own = seq![categories[c]];
    assert(categories =~= before + own + after);
    assert(categories.remove(c) =~= before + after);
    lemma_tree_findings_concat(before + own, after);
    lemma_tree_findings_concat(before, own);
    lemma_tree_findings_concat(before, after);
    lemma_single_category(categories[c]);
    assert(tree_findings(before) + tree_findings(own) =~= tree_findings(before));
}

/// A plugin directory without a manifest file is passed over: discovery
/// comes out as it does when the directory is not listed at all.
pub proof fn lemma_directory_without_manifest_is_skipped(
    with: Seq<CategoryListing>,
    without: Seq<CategoryListing>,
    c: int,
    e: int,
)
    requires
        with.len() == without.len(),
        0 <= c < with.len(),
        forall|k: int| 0 <= k < with.len() && k != c ==> with[k] == without[k],
        with[c] matches CategoryListing::Entries(listed) && without[c] matches CategoryListing::Entries(
            kept,
        ) && 0 <= e < listed@.len() && kept@ == listed@.remove(e) && listed@[e]
            == (EntryProbe::Found { is_dir: true, manifest: ManifestProbe::Absent }),
    ensures
        discovered_in(with) == discovered_in(without),
{
    let before = with.take(c);
    let after = with.skip(c + 1);
    assert(with =~= before + seq![with[c]] + after);
    assert(without =~= before + seq![without[c]] + after);
    lemma_tree_findings_concat(before + seq![with[c]], after);
    lemma_tree_findings_concat(before, seq![with[c]]);
    lemma_tree_findings_concat(before + seq![without[c]], after);
    lemma_tree_findings_concat(before, seq![without[c]]);
    lemma_single_category(with[c]);
    lemma_single_category(without[c]);
    let own = category_findings(with[c]);
    let left = category_findings(without[c]);
    assert(own[e] is Nothing);
    assert(left =~= own.remove(e));
    let head = tree_findings(before) + own.take(e);
    let tail = own.skip(e + 1) + tree_findings(after);
    assert(tree_findings(with) =~= head + seq![own[e]] + tail);
    assert(tree_findings(without) =~= head + tail);
    lemma_collect_concat(Seq::empty(), head + seq![own[e]], tail);
    lemma_collect_concat(Seq::empty(), head, seq![own[e]]);
    lemma_collect_concat(Seq::empty(), head, tail);
    if let Ok(list) = collect(Seq::empty(), head) {
        reveal_with_fuel(collect, 2);
        assert(seq![own[e]].drop_first() =~= Seq::<Finding>::empty());
    }
}

/// A plugin directory whose manifest does not parse makes the whole of
/// discovery fail, whatever else the scan holds.
pub proof fn lemma_invalid_manifest_fails_discovery(tree: PluginTree, c: int, e: int)
    requires
        0 <= c < 4,
        tree.categories@[c] matches CategoryListing::Entries(listed) && 0 <= e < listed@.len()
            && listed@[e] matches EntryProbe::Found { is_dir: true, manifest: ManifestProbe::Invalid(_) },
    ensures
        discovered(tree) is Err,
{
    let findings = tree_findings(tree.categories@);
    let own = category_findings(tree.categories@[c]);
    assert(own[e] is Failure);
    assert(own.contains(own[e]));
    lemma_findings_origin(tree.categories@, own[e]);
    let k = choose|k: int| 0 <= k < findings.len() && findings[k] == own[e];
    lemma_collect_outcome(Seq::empty(), findings);
    assert(findings[k] is Failure);
}

} // verus!
