use plugin_manager::{
    CategoryListing, EntryProbe, Exchange, InstallProbe, JsonRpcError, JsonRpcRequest,
    JsonRpcResponse, Launch, ManifestProbe, PluginApi, PluginDependencies, PluginManager,
    PluginManifest, PluginMetadata, PluginTree, ProcessHandle,
};
use serde_json::Value;
use std::path::PathBuf;

fn manifest(id: &str, name: &str) -> PluginManifest {
    PluginManifest {
        metadata: PluginMetadata {
            id: id.to_string(),
            name: name.to_string(),
            version: "0.1.0".to_string(),
            author: "someone".to_string(),
            description: String::new(),
            category: "custom".to_string(),
        },
        capabilities: vec![],
        dependencies: PluginDependencies { plugins: vec![], npm_packages: vec![] },
        api: PluginApi { protocol: "jsonrpc".to_string(), port: None, methods: vec![] },
        ui: None,
        auto_update: None,
    }
}

fn listing(manifests: Vec<PluginManifest>) -> CategoryListing {
    CategoryListing::Entries(
        manifests
            .into_iter()
            .map(|m| EntryProbe::Found { is_dir: true, manifest: ManifestProbe::Parsed(m) })
            .collect(),
    )
}

fn tree_with(core: Vec<PluginManifest>, custom: Vec<PluginManifest>) -> PluginTree {
    PluginTree {
        categories: [
            listing(core),
            CategoryListing::Missing,
            CategoryListing::Missing,
            listing(custom),
        ],
    }
}

fn probe(category: &str, id: &str, present: bool, entry_point_present: bool) -> InstallProbe {
    let directory = PathBuf::from("/plugins").join(category).join(id);
    let entry_point = directory.join("index.js");
    InstallProbe {
        entry_point_shown: format!("{:?}", entry_point),
        directory,
        present,
        entry_point,
        entry_point_present,
    }
}

fn install(id: &str, present: [bool; 4], entry_point_present: [bool; 4]) -> [InstallProbe; 4] {
    [
        probe("core", id, present[0], entry_point_present[0]),
        probe("document-generation", id, present[1], entry_point_present[1]),
        probe("ai-integrations", id, present[2], entry_point_present[2]),
        probe("custom", id, present[3], entry_point_present[3]),
    ]
}

fn in_custom(id: &str) -> [InstallProbe; 4] {
    install(id, [false, false, false, true], [false, false, false, true])
}

fn loaded(id: &str, pid: u32) -> PluginManager {
    let mut manager = PluginManager::new(PathBuf::from("/plugins"));
    let outcome = manager.load_plugin(
        id,
        &tree_with(vec![], vec![manifest(id, "Demo")]),
        &in_custom(id),
        |_launch: Launch| Ok(ProcessHandle { pid }),
    );
    assert_eq!(outcome, Ok(()));
    manager
}

fn reply(result: Option<Value>, error: Option<JsonRpcError>) -> Exchange {
    Exchange::Reply(JsonRpcResponse { jsonrpc: "2.0".to_string(), result, error, id: 1 })
}

#[test]
fn new_manager_has_nothing_loaded() {
    let manager = PluginManager::new(PathBuf::from("/plugins"));
    assert_eq!(manager.plugin_dir(), &PathBuf::from("/plugins"));
    assert_eq!(manager.get_plugin_status("anything"), Ok("not_loaded".to_string()));
    assert_eq!(manager.get_plugin_status(""), Ok("not_loaded".to_string()));
    assert!(manager.plugin("anything").is_none());
}

#[test]
fn loaded_plugin_is_running() {
    let manager = loaded("demo", 4242);
    assert_eq!(manager.get_plugin_status("demo"), Ok("running".to_string()));
    let record = manager.plugin("demo").unwrap();
    assert_eq!(record.manifest.metadata.id, "demo");
    assert_eq!(record.manifest.metadata.name, "Demo");
    assert_eq!(record.path, PathBuf::from("/plugins/custom/demo"));
    assert_eq!(record.process, Some(ProcessHandle { pid: 4242 }));
}

#[test]
fn status_of_another_id_stays_not_loaded() {
    let manager = loaded("demo", 1);
    assert_eq!(manager.get_plugin_status("other"), Ok("not_loaded".to_string()));
    assert_eq!(manager.get_plugin_status("dem"), Ok("not_loaded".to_string()));
    assert_eq!(manager.get_plugin_status("demo2"), Ok("not_loaded".to_string()));
}

#[test]
fn spawn_is_told_what_to_start() {
    let mut manager = PluginManager::new(PathBuf::from("/plugins"));
    let mut seen = None;
    let outcome = manager.load_plugin(
        "demo",
        &tree_with(vec![manifest("demo", "Demo")], vec![]),
        &install("demo", [false, true, false, true], [false, true, false, true]),
        |launch: Launch| {
            seen = Some(launch);
            Ok(ProcessHandle { pid: 9 })
        },
    );
    assert_eq!(outcome, Ok(()));
    let launch = seen.unwrap();
    assert_eq!(launch.program, "node");
    assert_eq!(launch.entry_point, PathBuf::from("/plugins/document-generation/demo/index.js"));
    assert_eq!(launch.directory, PathBuf::from("/plugins/document-generation/demo"));
    assert_eq!(
        manager.plugin("demo").unwrap().path,
        PathBuf::from("/plugins/document-generation/demo")
    );
}

#[test]
fn unknown_plugin_is_not_found() {
    let mut manager = loaded("demo", 1);
    let mut started = false;
    let outcome = manager.load_plugin(
        "ghost",
        &tree_with(vec![manifest("demo", "Demo")], vec![manifest("other", "Other")]),
        &in_custom("ghost"),
        |_launch: Launch| {
            started = true;
            Ok(ProcessHandle { pid: 2 })
        },
    );
    assert_eq!(outcome, Err("Plugin not found: ghost".to_string()));
    assert!(!started);
    assert_eq!(manager.get_plugin_status("ghost"), Ok("not_loaded".to_string()));
    assert_eq!(manager.get_plugin_status("demo"), Ok("running".to_string()));
    assert_eq!(manager.plugin("demo").unwrap().process, Some(ProcessHandle { pid: 1 }));
}

#[test]
fn nothing_discovered_means_not_found() {
    let mut manager = PluginManager::new(PathBuf::from("/plugins"));
    let outcome = manager.load_plugin(
        "demo",
        &tree_with(vec![], vec![]),
        &in_custom("demo"),
        |_launch: Launch| Ok(ProcessHandle { pid: 2 }),
    );
    assert_eq!(outcome, Err("Plugin not found: demo".to_string()));
    assert_eq!(manager.get_plugin_status("demo"), Ok("not_loaded".to_string()));
}

#[test]
fn failed_discovery_fails_the_load() {
    let mut manager = PluginManager::new(PathBuf::from("/plugins"));
    let scan = PluginTree {
        categories: [
            listing(vec![manifest("demo", "Demo")]),
            CategoryListing::Entries(vec![EntryProbe::Found {
                is_dir: true,
                manifest: ManifestProbe::Invalid("bad yaml".to_string()),
            }]),
            CategoryListing::Missing,
            CategoryListing::Missing,
        ],
    };
    let mut started = false;
    let outcome = manager.load_plugin("demo", &scan, &in_custom("demo"), |_launch: Launch| {
        started = true;
        Ok(ProcessHandle { pid: 2 })
    });
    assert_eq!(outcome, Err("Failed to parse manifest: bad yaml".to_string()));
    assert!(!started);
    assert_eq!(manager.get_plugin_status("demo"), Ok("not_loaded".to_string()));
}

#[test]
fn plugin_that_is_not_installed_has_no_path() {
    let mut manager = PluginManager::new(PathBuf::from("/plugins"));
    let mut started = false;
    let outcome = manager.load_plugin(
        "demo",
        &tree_with(vec![manifest("demo", "Demo")], vec![]),
        &install("demo", [false; 4], [true; 4]),
        |_launch: Launch| {
            started = true;
            Ok(ProcessHandle { pid: 2 })
        },
    );
    assert_eq!(outcome, Err("Plugin path not found: demo".to_string()));
    assert!(!started);
    assert_eq!(manager.get_plugin_status("demo"), Ok("not_loaded".to_string()));
}

#[test]
fn find_plugin_path_takes_the_first_category() {
    let manager = PluginManager::new(PathBuf::from("/plugins"));
    let probes = install("demo", [false, false, true, true], [false; 4]);
    let site = manager.find_plugin_path("demo", &probes).unwrap();
    assert_eq!(site.directory, PathBuf::from("/plugins/ai-integrations/demo"));
    let probes = install("demo", [true, true, true, true], [false; 4]);
    let site = manager.find_plugin_path("demo", &probes).unwrap();
    assert_eq!(site.directory, PathBuf::from("/plugins/core/demo"));
    let probes = install("demo", [false; 4], [false; 4]);
    assert_eq!(
        manager.find_plugin_path("demo", &probes).unwrap_err(),
        "Plugin path not found: demo"
    );
}

#[test]
fn missing_entry_point_fails_the_load() {
    let mut manager = PluginManager::new(PathBuf::from("/plugins"));
    let mut started = false;
    let outcome = manager.load_plugin(
        "demo",
        &tree_with(vec![manifest("demo", "Demo")], vec![]),
        &install("demo", [true, false, false, true], [false, false, false, true]),
        |_launch: Launch| {
            started = true;
            Ok(ProcessHandle { pid: 2 })
        },
    );
    assert_eq!(
        outcome,
        Err("Entry point not found: \"/plugins/core/demo/index.js\"".to_string())
    );
    assert!(!started);
    assert_eq!(manager.get_plugin_status("demo"), Ok("not_loaded".to_string()));
}

#[test]
fn failed_start_fails_the_load() {
    let mut manager = loaded("other", 5);
    let outcome = manager.load_plugin(
        "demo",
        &tree_with(vec![manifest("demo", "Demo")], vec![]),
        &in_custom("demo"),
        |_launch: Launch| Err("No such file or directory (os error 2)".to_string()),
    );
    assert_eq!(
        outcome,
        Err("Failed to start plugin: No such file or directory (os error 2)".to_string())
    );
    assert_eq!(manager.get_plugin_status("demo"), Ok("not_loaded".to_string()));
    assert_eq!(manager.get_plugin_status("other"), Ok("running".to_string()));
}

#[test]
fn first_manifest_with_the_id_is_taken() {
    let mut manager = PluginManager::new(PathBuf::from("/plugins"));
    let outcome = manager.load_plugin(
        "twin",
        &tree_with(
            vec![manifest("solo", "Solo"), manifest("twin", "First")],
            vec![manifest("twin", "Second")],
        ),
        &in_custom("twin"),
        |_launch: Launch| Ok(ProcessHandle { pid: 3 }),
    );
    assert_eq!(outcome, Ok(()));
    assert_eq!(manager.plugin("twin").unwrap().manifest.metadata.name, "First");
}

#[test]
fn loading_again_overwrites_the_record() {
    let mut manager = loaded("demo", 10);
    let outcome = manager.load_plugin(
        "other",
        &tree_with(vec![manifest("other", "Other")], vec![]),
        &in_custom("other"),
        |_launch: Launch| Ok(ProcessHandle { pid: 11 }),
    );
    assert_eq!(outcome, Ok(()));
    let outcome = manager.load_plugin(
        "demo",
        &tree_with(vec![manifest("demo", "Renamed")], vec![]),
        &install("demo", [true, false, false, false], [true, false, false, false]),
        |_launch: Launch| Ok(ProcessHandle { pid: 12 }),
    );
    assert_eq!(outcome, Ok(()));
    let record = manager.plugin("demo").unwrap();
    assert_eq!(record.manifest.metadata.name, "Renamed");
    assert_eq!(record.path, PathBuf::from("/plugins/core/demo"));
    assert_eq!(record.process, Some(ProcessHandle { pid: 12 }));
    assert_eq!(manager.plugin("other").unwrap().process, Some(ProcessHandle { pid: 11 }));
    let ended = manager.release_processes();
    assert_eq!(ended.len(), 2);
    assert_eq!(ended[0].plugin_id, "demo");
    assert_eq!(ended[0].process, ProcessHandle { pid: 12 });
    assert_eq!(ended[1].plugin_id, "other");
    assert_eq!(ended[1].process, ProcessHandle { pid: 11 });
}

#[test]
fn call_on_a_plugin_that_is_not_loaded_fails() {
    let manager = loaded("demo", 1);
    let mut asked = false;
    let outcome = manager.call_plugin_method(
        "ghost",
        "ping",
        Value::Null,
        |_process: ProcessHandle, _request: JsonRpcRequest| {
            asked = true;
            Exchange::StdinUnavailable
        },
    );
    assert_eq!(outcome, Err("Plugin not loaded: ghost".to_string()));
    assert!(!asked);
}

#[test]
fn ping_is_answered_with_pong() {
    let manager = loaded("demo", 77);
    let sent: Value =
        serde_json::from_str(r#"{"jsonrpc":"2.0","method":"ping","params":{},"id":1}"#).unwrap();
    let received: Value =
        serde_json::from_str(r#"{"jsonrpc":"2.0","result":"pong","id":1}"#).unwrap();
    let outcome = manager.call_plugin_method(
        "demo",
        "ping",
        Value::Object(serde_json::Map::new()),
        |process: ProcessHandle, request: JsonRpcRequest| {
            assert_eq!(process, ProcessHandle { pid: 77 });
            assert_eq!(sent["jsonrpc"], Value::from(request.jsonrpc));
            assert_eq!(sent["method"], Value::from(request.method));
            assert_eq!(sent["params"], request.params);
            assert_eq!(sent["id"], Value::from(request.id));
            reply(received.get("result").cloned(), None)
        },
    );
    assert_eq!(outcome, Ok(Value::String("pong".to_string())));
}

#[test]
fn plugin_error_fails_the_call() {
    let manager = loaded("demo", 77);
    let outcome = manager.call_plugin_method(
        "demo",
        "explode",
        Value::Null,
        |_process: ProcessHandle, _request: JsonRpcRequest| {
            reply(
                None,
                Some(JsonRpcError { code: -1, message: "boom".to_string(), data: None }),
            )
        },
    );
    let message = outcome.unwrap_err();
    assert!(message.contains("boom"));
    assert_eq!(message, "Plugin error: boom");
}

#[test]
fn transport_failure_fails_the_call() {
    let manager = loaded("demo", 77);
    let outcome = manager.call_plugin_method(
        "demo",
        "ping",
        Value::Null,
        |_process: ProcessHandle, _request: JsonRpcRequest| {
            Exchange::ReadFailed("unexpected end of file".to_string())
        },
    );
    assert_eq!(outcome, Err("Failed to read response: unexpected end of file".to_string()));
    assert_eq!(manager.get_plugin_status("demo"), Ok("running".to_string()));
}

#[test]
fn release_hands_out_every_process() {
    let mut manager = loaded("one", 100);
    for (id, pid) in [("two", 200), ("three", 300)] {
        let outcome = manager.load_plugin(
            id,
            &tree_with(vec![manifest(id, id)], vec![]),
            &in_custom(id),
            |_launch: Launch| Ok(ProcessHandle { pid }),
        );
        assert_eq!(outcome, Ok(()));
    }
    let ended = manager.release_processes();
    let pairs: Vec<(String, u32)> =
        ended.iter().map(|t| (t.plugin_id.clone(), t.process.pid)).collect();
    assert_eq!(
        pairs,
        [("one".to_string(), 100), ("two".to_string(), 200), ("three".to_string(), 300)]
    );
    assert!(manager.release_processes().is_empty());
}

#[test]
fn released_plugin_is_loaded_but_not_running() {
    let mut manager = loaded("demo", 8);
    manager.release_processes();
    assert_eq!(manager.get_plugin_status("demo"), Ok("loaded".to_string()));
    assert_eq!(manager.plugin("demo").unwrap().process, None);
    assert_eq!(manager.plugin("demo").unwrap().path, PathBuf::from("/plugins/custom/demo"));
    let mut asked = false;
    let outcome = manager.call_plugin_method(
        "demo",
        "ping",
        Value::Null,
        |_process: ProcessHandle, _request: JsonRpcRequest| {
            asked = true;
            Exchange::StdinUnavailable
        },
    );
    assert_eq!(outcome, Err("Plugin process not running".to_string()));
    assert!(!asked);
}

#[test]
fn release_on_an_empty_registry_hands_out_nothing() {
    let mut manager = PluginManager::new(PathBuf::from("/plugins"));
    assert!(manager.release_processes().is_empty());
    assert_eq!(manager.plugin_dir(), &PathBuf::from("/plugins"));
}

#[test]
fn plan_names_what_to_start() {
    let manager = PluginManager::new(PathBuf::from("/plugins"));
    let plan = manager
        .plan_load(
            "demo",
            &tree_with(vec![manifest("other", "Other")], vec![manifest("demo", "Demo")]),
            &install("demo", [false, false, true, false], [false, false, true, false]),
        )
        .unwrap();
    assert_eq!(plan.manifest.metadata.id, "demo");
    assert_eq!(plan.manifest.metadata.name, "Demo");
    assert_eq!(plan.launch.program, "node");
    assert_eq!(plan.launch.directory, PathBuf::from("/plugins/ai-integrations/demo"));
    assert_eq!(plan.launch.entry_point, PathBuf::from("/plugins/ai-integrations/demo/index.js"));
    assert_eq!(manager.get_plugin_status("demo"), Ok("not_loaded".to_string()));
}

#[test]
fn plan_fails_for_each_reason_in_turn() {
    let manager = PluginManager::new(PathBuf::from("/plugins"));
    let broken = PluginTree {
        categories: [
            CategoryListing::Unreadable("denied".to_string()),
            CategoryListing::Missing,
            CategoryListing::Missing,
            CategoryListing::Missing,
        ],
    };
    let nowhere = install("demo", [false; 4], [false; 4]);
    assert_eq!(
        manager.plan_load("demo", &broken, &nowhere).unwrap_err(),
        "Failed to read category dir: denied"
    );
    let empty = tree_with(vec![], vec![]);
    assert_eq!(manager.plan_load("demo", &empty, &nowhere).unwrap_err(), "Plugin not found: demo");
    let found = tree_with(vec![manifest("demo", "Demo")], vec![]);
    assert_eq!(
        manager.plan_load("demo", &found, &nowhere).unwrap_err(),
        "Plugin path not found: demo"
    );
    let bare = install("demo", [false, false, false, true], [true, true, true, false]);
    assert_eq!(
        manager.plan_load("demo", &found, &bare).unwrap_err(),
        "Entry point not found: \"/plugins/custom/demo/index.js\""
    );
}

#[test]
fn entry_point_is_looked_for_in_the_first_directory_only() {
    let manager = PluginManager::new(PathBuf::from("/plugins"));
    let found = tree_with(vec![manifest("demo", "Demo")], vec![]);
    let probes = install("demo", [true, false, false, true], [false, false, false, true]);
    assert_eq!(
        manager.plan_load("demo", &found, &probes).unwrap_err(),
        "Entry point not found: \"/plugins/core/demo/index.js\""
    );
}

#[test]
fn complete_load_files_the_record_or_reports_the_start() {
    let mut manager = PluginManager::new(PathBuf::from("/plugins"));
    let outcome = manager.complete_load(
        manifest("demo", "Demo"),
        PathBuf::from("/plugins/core/demo"),
        Err("permission denied".to_string()),
    );
    assert_eq!(outcome, Err("Failed to start plugin: permission denied".to_string()));
    assert_eq!(manager.get_plugin_status("demo"), Ok("not_loaded".to_string()));
    let outcome = manager.complete_load(
        manifest("demo", "Demo"),
        PathBuf::from("/plugins/core/demo"),
        Ok(ProcessHandle { pid: 31 }),
    );
    assert_eq!(outcome, Ok(()));
    assert_eq!(manager.get_plugin_status("demo"), Ok("running".to_string()));
    assert_eq!(manager.plugin("demo").unwrap().process, Some(ProcessHandle { pid: 31 }));
}

#[test]
fn prepare_call_names_the_process_and_the_request() {
    let manager = loaded("demo", 64);
    let (process, request) =
        manager.prepare_call("demo", "sum", Value::from(vec![1, 2])).unwrap();
    assert_eq!(process, ProcessHandle { pid: 64 });
    assert_eq!(request.jsonrpc, "2.0");
    assert_eq!(request.method, "sum");
    assert_eq!(request.params, Value::from(vec![1, 2]));
    assert_eq!(request.id, 1);
    assert_eq!(
        manager.prepare_call("ghost", "sum", Value::Null).unwrap_err(),
        "Plugin not loaded: ghost"
    );
}
