//! Where plugins live on disk: the fixed names the manager goes by.
//!
//! A plugin is installed at `<root>/<category>/<plugin id>/`. Its manifest
//! and its entry script sit directly inside that directory.

use vstd::prelude::*;

verus! {

/// Number of category directories under the plugin root.
pub const CATEGORY_COUNT: usize = 4;

/// The category directories, in the order in which they are scanned.
pub open spec fn category_names() -> Seq<Seq<char>> {
    seq!["core"@, "document-generation"@, "ai-integrations"@, "custom"@]
}

/// The category directories, in the order in which they are scanned.
pub fn categories() -> (names: [&'static str; 4])
    ensures
        names.deep_view() == category_names(),
{
    let names = ["core", "document-generation", "ai-integrations", "custom"];
    assert(names.deep_view() =~= category_names());
    names
}

/// Name of the manifest file inside a plugin's directory.
pub fn manifest_file_name() -> (name: &'static str)
    ensures
        name@ == "plugin.yaml"@,
{
    "plugin.yaml"
}

/// Name of the entry script inside a plugin's directory.
pub fn entry_point_name() -> (name: &'static str)
    ensures
        name@ == "index.js"@,
{
    "index.js"
}

/// The script runtime that runs an entry script. It is looked up on the
/// host's executable search path.
pub fn runtime_program() -> (name: &'static str)
    ensures
        name@ == "node"@,
{
    "node"
}

} // verus!
