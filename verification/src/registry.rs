//! The registry: the records of loaded plugins, and what is known of a
//! plugin through them.
//!
//! The records are kept in load order. A plugin's record is the first one
//! that carries its id; loading a plugin again overwrites its record in
//! place, so no id ever occurs twice.

use vstd::prelude::*;
use std::path::PathBuf;
use crate::manifest::{PluginManifest, PluginManifestView};
use crate::search::{first_index, first_match, lemma_first_index_bounds, lemma_first_index_is};

verus! {

/// A file-system path. Paths are made and used by the host; here they are
/// carried through.
#[verifier::external_type_specification]
#[verifier::external_body]
pub struct ExPathBuf(PathBuf);

/// `PathBuf::clone` gives a path equal to the one it was called on.
pub assume_specification[ <PathBuf as Clone>::clone ](path: &PathBuf) -> (copy: PathBuf)
    ensures
        copy == *path,
;

/// A plugin's running process, as the manager knows it. The process itself
/// and its pipes stay with the host.
#[derive(Clone, Copy, Debug, PartialEq, Eq, Structural)]
pub struct ProcessHandle {
    /// The platform's identifier of the process.
    pub pid: u32,
}

impl View for ProcessHandle {
    type V = ProcessHandle;

    open spec fn view(&self) -> ProcessHandle {
        *self
    }
}

impl DeepView for ProcessHandle {
    type V = ProcessHandle;

    open spec fn deep_view(&self) -> ProcessHandle {
        *self
    }
}

/// The record of a loaded plugin.
#[derive(Debug)]
pub struct Plugin {
    /// The manifest the plugin was loaded with.
    pub manifest: PluginManifest,
    /// The plugin's install directory.
    pub path: PathBuf,
    /// The plugin's process, while the manager tracks one.
    pub process: Option<ProcessHandle>,
}

/// The contents of a [`Plugin`] as mathematical values.
pub struct PluginView {
    pub manifest: PluginManifestView,
    pub path: PathBuf,
    pub process: Option<ProcessHandle>,
}

impl View for Plugin {
    type V = PluginView;

    open spec fn view(&self) -> PluginView {
        PluginView { manifest: self.manifest@, path: self.path, process: self.process }
    }
}

impl DeepView for Plugin {
    type V = PluginView;

    open spec fn deep_view(&self) -> PluginView {
        self@
    }
}

impl PluginView {
    /// The id the record is filed under.
    pub open spec fn id(self) -> Seq<char> {
        self.manifest.metadata.id
    }

    /// The same record without a process.
    pub open spec fn stopped(self) -> PluginView {
        PluginView { process: None, ..self }
    }
}

/// A process that is to be terminated, with the plugin it belongs to.
#[derive(Debug)]
pub struct Termination {
    /// Id of the plugin.
    pub plugin_id: String,
    /// The plugin's process.
    pub process: ProcessHandle,
}

/// The contents of a [`Termination`] as mathematical values.
pub struct TerminationView {
    pub plugin_id: Seq<char>,
    pub process: ProcessHandle,
}

impl View for Termination {
    type V = TerminationView;

    open spec fn view(&self) -> TerminationView {
        TerminationView { plugin_id: self.plugin_id@, process: self.process }
    }
}

impl DeepView for Termination {
    type V = TerminationView;

    open spec fn deep_view(&self) -> TerminationView {
        self@
    }
}

/// Being the record of plugin `id`.
pub open spec fn is_record_of(id: Seq<char>) -> spec_fn(PluginView) -> bool {
    |record: PluginView| record.id() == id
}

/// The record of plugin `id`, if it is loaded.
pub open spec fn record_of(records: Seq<PluginView>, id: Seq<char>) -> Option<PluginView> {
    first_match(records, is_record_of(id))
}

/// The records after `record` is filed: it takes the place of the record
/// with its id, or comes last if there is none.
pub open spec fn with_record(records: Seq<PluginView>, record: PluginView) -> Seq<PluginView> {
    let i = first_index(records, is_record_of(record.id()));
    if i < records.len() {
        records.update(i, record)
    } else {
        records.push(record)
    }
}

/// Whether no id occurs twice among the records.
pub open spec fn ids_distinct(records: Seq<PluginView>) -> bool {
    forall|i: int, j: int|
        0 <= i < j < records.len() ==> (#[trigger] records[i]).id() != (#[trigger] records[j]).id()
}

/// The status of a plugin, given its record: `running` with a process,
/// `loaded` without one, `not_loaded` without a record.
pub open spec fn status_text(record: Option<PluginView>) -> Seq<char> {
    match record {
        Some(plugin) => if plugin.process is Some {
            "running"@
        } else {
            "loaded"@
        },
        None => "not_loaded"@,
    }
}

/// The records after every process is let go of.
pub open spec fn released(records: Seq<PluginView>) -> Seq<PluginView> {
    Seq::new(records.len(), |i: int| records[i].stopped())
}

/// The processes that the records track, each with its plugin, in the order
/// of the records.
pub open spec fn terminations(records: Seq<PluginView>) -> Seq<TerminationView>
    decreases records.len(),
{
    if records.len() == 0 {
        Seq::empty()
    } else {
        let earlier = terminations(records.drop_last());
        match records.last().process {
            Some(process) => earlier.push(
                TerminationView { plugin_id: records.last().id(), process },
            ),
            None => earlier,
        }
    }
}

/// After a record is filed, its id leads to it.
pub proof fn lemma_filed_record_is_found(records: Seq<PluginView>, record: PluginView)
    ensures
        record_of(with_record(records, record), record.id()) == Some(record),
{
    let wanted = is_record_of(record.id());
    let i = first_index(records, wanted);
    let after = with_record(records, record);
    lemma_first_index_bounds(records, wanted);
    assert forall|k: int| 0 <= k < i implies !wanted(#[trigger] after[k]) by {
        assert(after[k] == records[k]);
    }
    assert(wanted(after[i]));
    lemma_first_index_is(after, wanted, i);
}

/// Filing a record leaves what every other id leads to as it was.
pub proof fn lemma_other_records_stay(
    records: Seq<PluginView>,
    record: PluginView,
    id: Seq<char>,
)
    requires
        id != record.id(),
    ensures
        record_of(with_record(records, record), id) == record_of(records, id),
{
    let wanted = is_record_of(id);
    let i = first_index(records, is_record_of(record.id()));
    let j = first_index(records, wanted);
    let after = with_record(records, record);
    lemma_first_index_bounds(records, is_record_of(record.id()));
    lemma_first_index_bounds(records, wanted);
    if j < records.len() {
        assert forall|k: int| 0 <= k < j implies !wanted(#[trigger] after[k]) by {
            if k != i {
                assert(after[k] == records[k]);
            }
        }
        assert(after[j] == records[j]);
        lemma_first_index_is(after, wanted, j);
    } else {
        assert forall|k: int| 0 <= k < after.len() implies !wanted(#[trigger] after[k]) by {
            if k != i {
                assert(after[k] == records[k]);
            }
        }
        lemma_first_index_is(after, wanted, after.len() as int);
    }
}

/// Filing a record never makes an id occur twice.
pub proof fn lemma_filing_keeps_ids_distinct(records: Seq<PluginView>, record: PluginView)
    requires
        ids_distinct(records),
    ensures
        ids_distinct(with_record(records, record)),
{
    let wanted = is_record_of(record.id());
    let i = first_index(records, wanted);
    let after = with_record(records, record);
    lemma_first_index_bounds(records, wanted);
    assert forall|a: int, b: int| 0 <= a < b < after.len() implies (#[trigger] after[a]).id() != (
    #[trigger] after[b]).id() by {
        if i < records.len() {
            if a != i && b != i {
                assert(after[a] == records[a] && after[b] == records[b]);
            } else if a == i {
                assert(after[b] == records[b]);
                assert(records[i].id() != records[b].id());
            } else {
                assert(after[a] == records[a]);
                assert(records[a].id() != records[i].id());
            }
        } else {
            if b < records.len() {
                assert(after[a] == records[a] && after[b] == records[b]);
            } else {
                assert(after[a] == records[a]);
                assert(!wanted(records[a]));
            }
        }
    }
}

/// Letting go of the processes never makes an id occur twice.
pub proof fn lemma_release_keeps_ids_distinct(records: Seq<PluginView>)
    requires
        ids_distinct(records),
    ensures
        ids_distinct(released(records)),
{
    let after = released(records);
    assert forall|a: int, b: int| 0 <= a < b < after.len() implies (#[trigger] after[a]).id() != (
    #[trigger] after[b]).id() by {
        assert(after[a].id() == records[a].id() && after[b].id() == records[b].id());
    }
}

/// Every process that a record tracks is among the terminations, with the
/// id of its plugin.
pub proof fn lemma_tracked_process_is_terminated(records: Seq<PluginView>, i: int)
    requires
        0 <= i < records.len(),
        records[i].process is Some,
    ensures
        terminations(records).contains(
            TerminationView { plugin_id: records[i].id(), process: records[i].process->0 },
        ),
    decreases records.len(),
{
    let wanted = TerminationView { plugin_id: records[i].id(), process: records[i].process->0 };
    let earlier = terminations(records.drop_last());
    if i == records.len() - 1 {
        assert(terminations(records) == earlier.push(wanted));
        assert(terminations(records)[earlier.len() as int] == wanted);
    } else {
        lemma_tracked_process_is_terminated(records.drop_last(), i);
        let k = choose|k: int| 0 <= k < earlier.len() && earlier[k] == wanted;
        assert(terminations(records)[k] == wanted);
    }
}

/// Once every process is let go of, no plugin is running: each id leads to
/// a record exactly when it did before, and that record has no process.
pub proof fn lemma_nothing_runs_after_release(records: Seq<PluginView>, id: Seq<char>)
    ensures
        record_of(released(records), id) == match record_of(records, id) {
            Some(record) => Some(record.stopped()),
            None => None,
        },
        status_text(record_of(released(records), id)) != "running"@,
{
    let wanted = is_record_of(id);
    let i = first_index(records, wanted);
    let after = released(records);
    lemma_first_index_bounds(records, wanted);
    assert forall|k: int| 0 <= k < i implies !wanted(#[trigger] after[k]) by {
        assert(after[k].id() == records[k].id());
        assert(!wanted(records[k]));
    }
    if i < records.len() {
        assert(wanted(after[i]));
    }
    lemma_first_index_is(after, wanted, i);
    reveal_strlit("running");
    reveal_strlit("loaded");
    reveal_strlit("not_loaded");
    assert("running"@.len() == 7 && "loaded"@.len() == 6 && "not_loaded"@.len() == 10);
}

} // verus!
