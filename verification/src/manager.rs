//! The plugin manager: discovery, loading, calling, status and teardown,
//! over a registry of loaded plugins.
//!
//! The manager touches neither the file system nor any process. The host
//! hands it what it read (a [`PluginTree`], the [`InstallProbe`]s of a
//! plugin) and does what it is asked to (start a process, run one round
//! trip); the manager decides and keeps the registry.

use vstd::prelude::*;
use vstd::string::StringExecFns;
use std::path::PathBuf;
use crate::discovery::{discover, discovered, PluginTree};
use crate::layout::runtime_program;
use crate::manifest::{PluginManifest, PluginManifestView};
use crate::registry::{
    ids_distinct, is_record_of, lemma_filing_keeps_ids_distinct, lemma_release_keeps_ids_distinct,
    record_of, released, status_text, terminations, with_record, Plugin, PluginView,
    ProcessHandle, Termination,
};
use crate::rpc::{exchange_outcome, resolve_exchange, Exchange, JsonRpcRequest};
use crate::search::{first_index, first_match, lemma_first_index_is};
use crate::text::{agrees, message};

verus! {

/// What the host found where a plugin would be installed within one
/// category.
#[derive(Debug)]
pub struct InstallProbe {
    /// `<root>/<category>/<plugin id>`.
    pub directory: PathBuf,
    /// Whether anything exists at `directory`.
    pub present: bool,
    /// The entry script inside `directory`.
    pub entry_point: PathBuf,
    /// Whether anything exists at `entry_point`.
    pub entry_point_present: bool,
    /// `entry_point` as it is to appear in messages.
    pub entry_point_shown: String,
}

/// What the host is to start for a plugin: `program` with `entry_point` as
/// its only argument, in `directory`, with all three standard streams
/// piped.
#[derive(Debug)]
pub struct Launch {
    /// The script runtime.
    pub program: String,
    /// The plugin's entry script.
    pub entry_point: PathBuf,
    /// The plugin's install directory.
    pub directory: PathBuf,
}

/// What loading a plugin is to start, with the manifest the plugin is
/// loaded with.
#[derive(Debug)]
pub struct LoadPlan {
    /// The plugin's manifest.
    pub manifest: PluginManifest,
    /// What to start.
    pub launch: Launch,
}

/// What loading settles on before anything is started.
pub struct LoadChoice {
    /// The plugin's manifest.
    pub manifest: PluginManifestView,
    /// Where the plugin is installed.
    pub site: InstallProbe,
}

impl Launch {
    /// Whether this starts the plugin installed at `site`.
    pub open spec fn starts(self, site: InstallProbe) -> bool {
        &&& self.program@ == "node"@
        &&& self.entry_point == site.entry_point
        &&& self.directory == site.directory
    }
}

impl LoadPlan {
    /// Whether this plan is made for `choice`.
    pub open spec fn settles(self, choice: LoadChoice) -> bool {
        &&& self.manifest@ == choice.manifest
        &&& self.launch.starts(choice.site)
    }
}

/// Being the manifest of plugin `id`.
pub open spec fn is_manifest_of(id: Seq<char>) -> spec_fn(PluginManifestView) -> bool {
    |manifest: PluginManifestView| manifest.metadata.id == id
}

/// Being there.
pub open spec fn is_present() -> spec_fn(InstallProbe) -> bool {
    |probe: InstallProbe| probe.present
}

/// Where plugin `plugin_id` is installed: the first category, in scan
/// order, that holds a directory of its name.
pub open spec fn install_site(plugin_id: Seq<char>, install: Seq<InstallProbe>) -> Result<
    InstallProbe,
    Seq<char>,
> {
    match first_match(install, is_present()) {
        Some(site) => Ok(site),
        None => Err("Plugin path not found: "@ + plugin_id),
    }
}

/// What loading plugin `plugin_id` settles on, or why it fails before
/// anything is started: discovery must succeed, a discovered manifest must
/// carry the id (the first that does is taken), the plugin must be
/// installed, and its entry script must be there.
pub open spec fn load_choice(
    plugin_id: Seq<char>,
    tree: PluginTree,
    install: Seq<InstallProbe>,
) -> Result<LoadChoice, Seq<char>> {
    match discovered(tree) {
        Err(reason) => Err(reason),
        Ok(manifests) => match first_match(manifests, is_manifest_of(plugin_id)) {
            None => Err("Plugin not found: "@ + plugin_id),
            Some(manifest) => match install_site(manifest.metadata.id, install) {
                Err(reason) => Err(reason),
                Ok(site) => if site.entry_point_present {
                    Ok(LoadChoice { manifest, site })
                } else {
                    Err("Entry point not found: "@ + site.entry_point_shown@)
                },
            },
        },
    }
}

/// The record that a started plugin is filed with.
pub open spec fn started_record(choice: LoadChoice, process: ProcessHandle) -> PluginView {
    PluginView { manifest: choice.manifest, path: choice.site.directory, process: Some(process) }
}

/// The manager.
#[derive(Debug)]
pub struct PluginManager {
    plugins: Vec<Plugin>,
    plugin_dir: PathBuf,
}

/// The state of a [`PluginManager`] as mathematical values.
pub struct PluginManagerView {
    /// The records of the loaded plugins, in load order.
    pub plugins: Seq<PluginView>,
    /// The plugin root.
    pub plugin_dir: PathBuf,
}

impl PluginManagerView {
    /// The record of plugin `id`, if it is loaded.
    pub open spec fn record(self, id: Seq<char>) -> Option<PluginView> {
        record_of(self.plugins, id)
    }

    /// The status of plugin `id`.
    pub open spec fn status(self, id: Seq<char>) -> Seq<char> {
        status_text(self.record(id))
    }

    /// The state after `record` is filed.
    pub open spec fn with_record(self, record: PluginView) -> PluginManagerView {
        PluginManagerView { plugins: with_record(self.plugins, record), ..self }
    }

    /// Whether every id has at most one record. This holds of a new manager
    /// and is kept by everything a manager does.
    pub open spec fn keyed(self) -> bool {
        ids_distinct(self.plugins)
    }
}

/// The process that a call to plugin `plugin_id` goes to, or why there can
/// be no call: the plugin must be loaded, and must have a process.
pub open spec fn call_target(state: PluginManagerView, plugin_id: Seq<char>) -> Result<
    ProcessHandle,
    Seq<char>,
> {
    match state.record(plugin_id) {
        None => Err("Plugin not loaded: "@ + plugin_id),
        Some(record) => match record.process {
            None => Err("Plugin process not running"@),
            Some(process) => Ok(process),
        },
    }
}

impl View for PluginManager {
    type V = PluginManagerView;

    closed spec fn view(&self) -> PluginManagerView {
        PluginManagerView { plugins: self.plugins.deep_view(), plugin_dir: self.plugin_dir }
    }
}

/// Where in `manifests` the first manifest with id `plugin_id` stands.
fn position_of_manifest(manifests: &Vec<PluginManifest>, plugin_id: &str) -> (i: usize)
    ensures
        i == first_index(manifests.deep_view(), is_manifest_of(plugin_id@)),
        i <= manifests.len(),
{
    let wanted = plugin_id.to_owned();
    let mut i: usize = 0;
    while i < manifests.len()
        invariant
            i <= manifests.len(),
            wanted@ == plugin_id@,
            forall|k: int|
                0 <= k < i ==> !is_manifest_of(plugin_id@)(#[trigger] manifests.deep_view()[k]),
        ensures
            i < manifests.len() ==> is_manifest_of(plugin_id@)(manifests.deep_view()[i as int]),
        decreases manifests.len() - i,
    {
        if manifests[i].metadata.id == wanted {
            break;
        }
        i += 1;
    }
    proof {
        lemma_first_index_is(manifests.deep_view(), is_manifest_of(plugin_id@), i as int);
    }
    i
}

impl PluginManager {
    /// A manager for the plugins under `plugin_dir`, with nothing loaded.
    pub fn new(plugin_dir: PathBuf) -> (manager: Self)
        ensures
            manager@.plugins == Seq::<PluginView>::empty(),
            manager@.plugin_dir == plugin_dir,
            manager@.keyed(),
    {
        let manager = PluginManager { plugins: Vec::new(), plugin_dir };
        assert(manager.plugins.deep_view() =~= Seq::empty());
        manager
    }

    /// The plugin root.
    pub fn plugin_dir(&self) -> (dir: &PathBuf)
        ensures
            *dir == self@.plugin_dir,
    {
        &self.plugin_dir
    }

    /// Discovers the plugins in a scan of the plugin root. The registry
    /// plays no part in it.
    pub fn discover_plugins(&self, tree: &PluginTree) -> (found: Result<
        Vec<PluginManifest>,
        String,
    >)
        ensures
            match discovered(*tree) {
                Ok(list) => found matches Ok(manifests) && manifests.deep_view() == list,
                Err(reason) => found matches Err(message) && message@ == reason,
            },
    {
        discover(tree)
    }

    /// Where in the registry the record of `plugin_id` stands.
    fn position(&self, plugin_id: &str) -> (i: usize)
        ensures
            i == first_index(self@.plugins, is_record_of(plugin_id@)),
            i <= self.plugins.len(),
            self.plugins.len() == self@.plugins.len(),
            i < self.plugins.len() ==> self@.record(plugin_id@) == Some(self.plugins[i as int]@),
            i == self.plugins.len() ==> self@.record(plugin_id@) is None,
    {
        let wanted = plugin_id.to_owned();
        let mut i: usize = 0;
        while i < self.plugins.len()
            invariant
                i <= self.plugins.len(),
                wanted@ == plugin_id@,
                forall|k: int|
                    0 <= k < i ==> !is_record_of(plugin_id@)(#[trigger] self.plugins.deep_view()[k]),
            ensures
                i < self.plugins.len() ==> is_record_of(plugin_id@)(self.plugins.deep_view()[i as int]),
            decreases self.plugins.len() - i,
        {
            if self.plugins[i].manifest.metadata.id == wanted {
                break;
            }
            i += 1;
        }
        proof {
            lemma_first_index_is(self.plugins.deep_view(), is_record_of(plugin_id@), i as int);
        }
        i
    }

    /// The record of plugin `plugin_id`, if it is loaded.
    pub fn plugin(&self, plugin_id: &str) -> (record: Option<&Plugin>)
        ensures
            match self@.record(plugin_id@) {
                Some(found) => record matches Some(plugin) && plugin@ == found,
                None => record is None,
            },
    {
        let i = self.position(plugin_id);
        if i < self.plugins.len() {
            Some(&self.plugins[i])
        } else {
            None
        }
    }

    /// Files `plugin` under its id, in place of the record that was there,
    /// if any.
    fn file(&mut self, plugin: Plugin)
        ensures
            final(self)@ == old(self)@.with_record(plugin@),
            old(self)@.keyed() ==> final(self)@.keyed(),
    {
        proof {
            if self@.keyed() {
                lemma_filing_keeps_ids_distinct(self@.plugins, plugin@);
            }
        }
        let i = self.position(plugin.manifest.metadata.id.as_str());
        let ghost before = self.plugins.deep_view();
        if i < self.plugins.len() {
            self.plugins[i] = plugin;
            assert(self.plugins.deep_view() =~= before.update(i as int, plugin@));
        } else {
            self.plugins.push(plugin);
            assert(self.plugins.deep_view() =~= before.push(plugin@));
        }
    }

    /// Finds where plugin `plugin_id` is installed: the first category, in
    /// scan order, whose probe found its directory.
    pub fn find_plugin_path<'a>(&self, plugin_id: &str, install: &'a [InstallProbe; 4]) -> (site:
        Result<&'a InstallProbe, String>)
        ensures
            match install_site(plugin_id@, install@) {
                Ok(found) => site matches Ok(probe) && *probe == found,
                Err(reason) => site matches Err(message) && message@ == reason,
            },
    {
        let mut i: usize = 0;
        while i < 4
            invariant
                i <= 4,
                forall|k: int| 0 <= k < i ==> !is_present()(#[trigger] install@[k]),
            ensures
                i < 4 ==> is_present()(install@[i as int]),
            decreases 4 - i,
        {
            if install[i].present {
                break;
            }
            i += 1;
        }
        proof {
            lemma_first_index_is(install@, is_present(), i as int);
        }
        if i < 4 {
            Ok(&install[i])
        } else {
            Err(message("Plugin path not found: ", plugin_id))
        }
    }

    /// Settles what loading plugin `plugin_id` is to start, or why it
    /// cannot be loaded: discovery over `tree` must succeed and yield a
    /// manifest with the id, `install` must show the plugin's directory, and
    /// the entry script must be in it. The registry plays no part in it.
    pub fn plan_load(&self, plugin_id: &str, tree: &PluginTree, install: &[InstallProbe; 4]) -> (plan:
        Result<LoadPlan, String>)
        ensures
            match load_choice(plugin_id@, *tree, install@) {
                Ok(choice) => plan matches Ok(settled) && settled.settles(choice),
                Err(reason) => plan matches Err(message) && message@ == reason,
            },
    {
        let mut manifests = match discover(tree) {
            Ok(manifests) => manifests,
            Err(reason) => {
                return Err(reason);
            },
        };
        let found = position_of_manifest(&manifests, plugin_id);
        if found >= manifests.len() {
            return Err(message("Plugin not found: ", plugin_id));
        }
        let ghost listed = manifests.deep_view();
        let manifest = manifests.remove(found);
        assert(manifest@ == listed[found as int]);
        let site = match self.find_plugin_path(manifest.metadata.id.as_str(), install) {
            Ok(site) => site,
            Err(reason) => {
                return Err(reason);
            },
        };
        if !site.entry_point_present {
            return Err(message("Entry point not found: ", site.entry_point_shown.as_str()));
        }
        let launch = Launch {
            program: String::from_str(runtime_program()),
            entry_point: site.entry_point.clone(),
            directory: site.directory.clone(),
        };
        Ok(LoadPlan { manifest, launch })
    }

    /// Ends the loading of a plugin whose start was attempted: a failed
    /// start fails the load and leaves the registry as it was; a process
    /// makes the plugin's record, filed in place of an earlier one if there
    /// is one.
    pub fn complete_load(
        &mut self,
        manifest: PluginManifest,
        path: PathBuf,
        started: Result<ProcessHandle, String>,
    ) -> (outcome: Result<(), String>)
        ensures
            match started {
                Err(why) => {
                    &&& outcome matches Err(message) && message@ == "Failed to start plugin: "@
                        + why@
                    &&& final(self)@ == old(self)@
                },
                Ok(process) => {
                    &&& outcome is Ok
                    &&& final(self)@ == old(self)@.with_record(
                        PluginView { manifest: manifest@, path, process: Some(process) },
                    )
                },
            },
            old(self)@.keyed() ==> final(self)@.keyed(),
    {
        match started {
            Err(why) => Err(message("Failed to start plugin: ", why.as_str())),
            Ok(process) => {
                self.file(Plugin { manifest, path, process: Some(process) });
                Ok(())
            },
        }
    }

    /// Loads plugin `plugin_id`: settles what to start as [`Self::plan_load`]
    /// does, has `spawn` start it, and ends as [`Self::complete_load`] does.
    ///
    /// `spawn` is called at most once, and only when there is something to
    /// start. When loading fails the registry stays as it was.
    pub fn load_plugin<S: FnOnce(Launch) -> Result<ProcessHandle, String>>(
        &mut self,
        plugin_id: &str,
        tree: &PluginTree,
        install: &[InstallProbe; 4],
        spawn: S,
    ) -> (outcome: Result<(), String>)
        requires
            forall|launch: Launch| call_requires(spawn, (launch,)),
        ensures
            match load_choice(plugin_id@, *tree, install@) {
                Err(reason) => {
                    &&& outcome matches Err(message) && message@ == reason
                    &&& final(self)@ == old(self)@
                },
                Ok(choice) => exists|launch: Launch, started: Result<ProcessHandle, String>|
                    {
                        &&& launch.starts(choice.site)
                        &&& #[trigger] call_ensures(spawn, (launch,), started)
                        &&& match started {
                            Err(why) => {
                                &&& outcome matches Err(message) && message@
                                    == "Failed to start plugin: "@ + why@
                                &&& final(self)@ == old(self)@
                            },
                            Ok(process) => {
                                &&& outcome is Ok
                                &&& final(self)@ == old(self)@.with_record(
                                    started_record(choice, process),
                                )
                            },
                        }
                    },
            },
            old(self)@.keyed() ==> final(self)@.keyed(),
    {
        let plan = match self.plan_load(plugin_id, tree, install) {
            Ok(plan) => plan,
            Err(reason) => {
                return Err(reason);
            },
        };
        let path = plan.launch.directory.clone();
        let started = spawn(plan.launch);
        self.complete_load(plan.manifest, path, started)
    }

    /// Settles whom a call to plugin `plugin_id` goes to and what is sent:
    /// the plugin must be loaded and have a process.
    pub fn prepare_call(&self, plugin_id: &str, method: &str, params: serde_json::Value) -> (call:
        Result<(ProcessHandle, JsonRpcRequest), String>)
        ensures
            match call_target(self@, plugin_id@) {
                Ok(process) => call matches Ok(ready) && ready.0 == process && ready.1.is_call(
                    method@,
                    params,
                ),
                Err(reason) => call matches Err(message) && message@ == reason,
            },
    {
        let i = self.position(plugin_id);
        if i >= self.plugins.len() {
            return Err(message("Plugin not loaded: ", plugin_id));
        }
        match self.plugins[i].process {
            Some(process) => Ok((process, JsonRpcRequest::new(method, params))),
            None => Err(String::from_str("Plugin process not running")),
        }
    }

    /// Calls `method` of plugin `plugin_id` with `params`: settles the call
    /// as [`Self::prepare_call`] does, has `transport` run one round trip
    /// with the plugin's process, and resolves what came of it as
    /// [`resolve_exchange`] does.
    ///
    /// `transport` is called at most once, and only for a plugin that is
    /// loaded and has a process.
    pub fn call_plugin_method<T: FnOnce(ProcessHandle, JsonRpcRequest) -> Exchange>(
        &self,
        plugin_id: &str,
        method: &str,
        params: serde_json::Value,
        transport: T,
    ) -> (outcome: Result<serde_json::Value, String>)
        requires
            forall|process: ProcessHandle, request: JsonRpcRequest|
                call_requires(transport, (process, request)),
        ensures
            match call_target(self@, plugin_id@) {
                Err(reason) => outcome matches Err(message) && message@ == reason,
                Ok(process) => exists|request: JsonRpcRequest, exchange: Exchange|
                    {
                        &&& request.is_call(method@, params)
                        &&& #[trigger] call_ensures(transport, (process, request), exchange)
                        &&& agrees(outcome, exchange_outcome(exchange))
                    },
            },
    {
        let (process, request) = match self.prepare_call(plugin_id, method, params) {
            Ok(ready) => ready,
            Err(reason) => {
                return Err(reason);
            },
        };
        let exchange = transport(process, request);
        resolve_exchange(exchange)
    }

    /// The status of plugin `plugin_id`: `running`, `loaded` or
    /// `not_loaded`. Never fails.
    pub fn get_plugin_status(&self, plugin_id: &str) -> (status: Result<String, String>)
        ensures
            status matches Ok(text) && text@ == self@.status(plugin_id@),
    {
        let i = self.position(plugin_id);
        if i < self.plugins.len() {
            if self.plugins[i].process.is_some() {
                Ok(String::from_str("running"))
            } else {
                Ok(String::from_str("loaded"))
            }
        } else {
            Ok(String::from_str("not_loaded"))
        }
    }

    /// Lets go of every process the registry tracks, and hands them out for
    /// the host to terminate. The records stay, without their processes.
    pub fn release_processes(&mut self) -> (ended: Vec<Termination>)
        ensures
            ended.deep_view() == terminations(old(self)@.plugins),
            final(self)@.plugins == released(old(self)@.plugins),
            final(self)@.plugin_dir == old(self)@.plugin_dir,
            old(self)@.keyed() ==> final(self)@.keyed(),
    {
        proof {
            if self@.keyed() {
                lemma_release_keeps_ids_distinct(self@.plugins);
            }
        }
        let mut ended: Vec<Termination> = Vec::new();
        let ghost before = self.plugins.deep_view();
        let mut i: usize = 0;
        assert(before.take(0) =~= Seq::empty());
        assert(ended.deep_view() =~= Seq::empty());
        while i < self.plugins.len()
            invariant
                i <= self.plugins.len(),
                self.plugins.len() == before.len(),
                self.plugin_dir == old(self).plugin_dir,
                ended.deep_view() == terminations(before.take(i as int)),
                forall|k: int|
                    0 <= k < before.len() ==> #[trigger] self.plugins.deep_view()[k] == if k < i {
                        before[k].stopped()
                    } else {
                        before[k]
                    },
            decreases self.plugins.len() - i,
        {
            assert(before.take(i as int + 1).drop_last() =~= before.take(i as int));
            let ghost current = self.plugins.deep_view();
            assert(current[i as int] == before[i as int]);
            let live = self.plugins[i].process;
            match live {
                Some(process) => {
                    let ghost so_far = ended.deep_view();
                    let plugin_id = self.plugins[i].manifest.metadata.id.clone();
                    let ending = Termination { plugin_id, process };
                    ended.push(ending);
                    assert(ended.deep_view() =~= so_far.push(ending@));
                    let ghost prior = self.plugins@;
                    self.plugins[i].process = None;
                    assert(self.plugins@.len() == prior.len());
                    assert(self.plugins@[i as int]@ == prior[i as int]@.stopped());
                    assert(forall|k: int|
                        0 <= k < prior.len() && k != i ==> self.plugins@[k] == prior[k]);
                },
                None => {
                    assert(before[i as int].stopped() == before[i as int]);
                },
            }
            assert forall|k: int| 0 <= k < before.len() implies #[trigger] self.plugins.deep_view()[k]
                == if k < i + 1 {
                before[k].stopped()
            } else {
                before[k]
            } by {
                if k != i {
                    assert(self.plugins.deep_view()[k] == current[k]);
                }
            }
            i += 1;
        }
        assert(before.take(i as int) =~= before);
        assert(self.plugins.deep_view() =~= released(before));
        ended
    }
}

} // verus!
