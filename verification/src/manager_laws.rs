//! What holds of loading and status, whatever the registry and the scan.

use vstd::prelude::*;
use crate::discovery::{discovered, PluginTree};
use crate::manager::{
    install_site, is_manifest_of, load_choice, started_record, InstallProbe, LoadChoice,
    PluginManagerView,
};
use crate::registry::{
    is_record_of, lemma_filed_record_is_found, lemma_other_records_stay, with_record, PluginView,
    ProcessHandle,
};
use crate::search::{first_index, lemma_first_index_bounds, lemma_first_index_is};

verus! {

/// Loading an id that no discovered manifest carries fails with a "not
/// found" message, before anything is started.
pub proof fn lemma_unknown_plugin_is_not_found(
    plugin_id: Seq<char>,
    tree: PluginTree,
    install: Seq<InstallProbe>,
)
    requires
        discovered(tree) matches Ok(list) && forall|i: int|
            0 <= i < list.len() ==> (#[trigger] list[i]).metadata.id != plugin_id,
    ensures
        load_choice(plugin_id, tree, install) == Err::<LoadChoice, Seq<char>>(
            "Plugin not found: "@ + plugin_id,
        ),
{
    let list = discovered(tree)->Ok_0;
    lemma_first_index_is(list, is_manifest_of(plugin_id), list.len() as int);
}

/// Loading a discovered plugin whose install directory holds no entry
/// script fails with an "entry point not found" message, before anything is
/// started.
pub proof fn lemma_missing_entry_point_fails_load(
    plugin_id: Seq<char>,
    tree: PluginTree,
    install: Seq<InstallProbe>,
)
    requires
        discovered(tree) matches Ok(list) && exists|i: int|
            0 <= i < list.len() && (#[trigger] list[i]).metadata.id == plugin_id,
        install_site(plugin_id, install) matches Ok(site) && !site.entry_point_present,
    ensures
        load_choice(plugin_id, tree, install) == Err::<LoadChoice, Seq<char>>(
            "Entry point not found: "@ + install_site(plugin_id, install)->Ok_0.entry_point_shown@,
        ),
{
    let list = discovered(tree)->Ok_0;
    let i = choose|i: int| 0 <= i < list.len() && (#[trigger] list[i]).metadata.id == plugin_id;
    lemma_first_index_bounds(list, is_manifest_of(plugin_id));
    assert(is_manifest_of(plugin_id)(list[i]));
    assert(first_index(list, is_manifest_of(plugin_id)) < list.len());
}

/// What loading settles on is a manifest with the id that was asked for.
pub proof fn lemma_choice_carries_id(
    plugin_id: Seq<char>,
    tree: PluginTree,
    install: Seq<InstallProbe>,
)
    requires
        load_choice(plugin_id, tree, install) is Ok,
    ensures
        load_choice(plugin_id, tree, install)->Ok_0.manifest.metadata.id == plugin_id,
{
    let list = discovered(tree)->Ok_0;
    lemma_first_index_bounds(list, is_manifest_of(plugin_id));
}

/// After a plugin is loaded, its status is `running`.
pub proof fn lemma_loaded_plugin_is_running(
    before: PluginManagerView,
    plugin_id: Seq<char>,
    tree: PluginTree,
    install: Seq<InstallProbe>,
    process: ProcessHandle,
)
    requires
        load_choice(plugin_id, tree, install) is Ok,
    ensures
        before.with_record(
            started_record(load_choice(plugin_id, tree, install)->Ok_0, process),
        ).status(plugin_id) == "running"@,
{
    let choice = load_choice(plugin_id, tree, install)->Ok_0;
    lemma_choice_carries_id(plugin_id, tree, install);
    lemma_filed_record_is_found(before.plugins, started_record(choice, process));
}

/// A plugin under whose id no record is filed has the status `not_loaded`.
pub proof fn lemma_unloaded_plugin_is_not_loaded(state: PluginManagerView, id: Seq<char>)
    requires
        forall|i: int| 0 <= i < state.plugins.len() ==> (#[trigger] state.plugins[i]).id() != id,
    ensures
        state.record(id) is None,
        state.status(id) == "not_loaded"@,
{
    lemma_first_index_is(state.plugins, is_record_of(id), state.plugins.len() as int);
}

/// Loading a plugin files a record under its id only: an id under which
/// nothing was filed stays so when another plugin is loaded, and every
/// other plugin keeps its status.
pub proof fn lemma_loading_touches_one_id(state: PluginManagerView, record: PluginView, id: Seq<char>)
    requires
        record.id() != id,
    ensures
        state.with_record(record).status(id) == state.status(id),
        (forall|i: int| 0 <= i < state.plugins.len() ==> (#[trigger] state.plugins[i]).id() != id)
            ==> (forall|i: int|
            0 <= i < state.with_record(record).plugins.len() ==> (#[trigger] state.with_record(
                record,
            ).plugins[i]).id() != id),
{
    lemma_other_records_stay(state.plugins, record, id);
    lemma_first_index_bounds(state.plugins, is_record_of(record.id()));
    let after = with_record(state.plugins, record);
    if forall|i: int| 0 <= i < state.plugins.len() ==> (#[trigger] state.plugins[i]).id() != id {
        assert forall|i: int| 0 <= i < after.len() implies (#[trigger] after[i]).id() != id by {
            if i != first_index(state.plugins, is_record_of(record.id())) {
                assert(after[i] == state.plugins[i]);
            }
        }
    }
}

} // verus!
