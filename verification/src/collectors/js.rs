use vstd::prelude::*;
use crate::collectors::json::{Json, json_get, json_object, json_str, json_text_value, parse_json};
use crate::collectors::probe::opt_text;
use crate::models::category::Category;
use crate::models::item::{InventoryItem, PackageSource};
use crate::paths::{join_path, path_join};
use crate::text::{cat, owned};

verus! {

/// The npm collector: where the `npm` binary is, if anywhere.
pub struct JsCollector {
    pub npm_bin: Option<String>,
}

impl JsCollector {
    /// A collector for the `npm` binary found (see `which_binary`).
    pub fn new(npm_bin: Option<String>) -> (r: Self)
        ensures
            r.npm_bin == npm_bin,
    {
        JsCollector { npm_bin }
    }

    /// The collector's name.
    pub fn name(&self) -> (r: &'static str)
        ensures
            r@ == "node_npm"@,
    {
        "node_npm"
    }

    /// Whether npm was found.
    pub fn is_available(&self) -> (r: bool)
        ensures
            r == self.npm_bin is Some,
    {
        self.npm_bin.is_some()
    }
}

/// The item of one global package `name` with details `d`.
pub open spec fn npm_item(name: Seq<char>, d: Json, prefix: Seq<char>, it: InventoryItem) -> bool {
    &&& it.id@ == "npm:"@ + name
    &&& it.name@ == name
    &&& it.source == PackageSource::NpmGlobal
    &&& opt_text(it.version) == json_str(json_get(d, "version"@))
    &&& it.install_path@ == join_path(join_path(prefix, "lib/node_modules"@), name)
    &&& it.size_bytes == 0
    &&& it.last_accessed_at is None
    &&& it.last_modified_at is None
    &&& it.is_top_level
    &&& it.required_by@.len() == 0
    &&& it.category == Category::CliDeveloperTools
    &&& opt_text(it.uninstall_cmd) == Some("npm uninstall -g "@ + name)
    &&& opt_text(it.reinstall_cmd) == Some("npm install -g "@ + name)
}

/// The members of `doc["dependencies"]` when that is an object.
pub open spec fn npm_dependencies(doc: Json) -> Seq<(String, Json)> {
    match json_object(json_get(doc, "dependencies"@)) {
        Some(es) => es,
        None => Seq::empty(),
    }
}

fn npm_entry(name: &str, d: &Json, prefix: &str) -> (it: InventoryItem)
    ensures
        npm_item(name@, *d, prefix@, it),
{
    let version = match d.get("version") {
        Some(x) => match x.as_str() {
            Some(s) => Some(owned(s.as_str())),
            None => None,
        },
        None => None,
    };
    let lib = path_join(prefix, "lib/node_modules");
    InventoryItem {
        id: cat("npm:", name),
        name: owned(name),
        source: PackageSource::NpmGlobal,
        version,
        install_path: path_join(lib.as_str(), name),
        size_bytes: 0,
        last_accessed_at: None,
        last_modified_at: None,
        is_top_level: true,
        required_by: Vec::new(),
        category: Category::CliDeveloperTools,
        uninstall_cmd: Some(cat("npm uninstall -g ", name)),
        reinstall_cmd: Some(cat("npm install -g ", name)),
    }
}

/// The items of `npm list -g --json --depth=0`: one per global dependency, in order.
pub fn npm_items(doc: &Json, prefix: &str) -> (r: Vec<InventoryItem>)
    ensures
        r@.len() == npm_dependencies(*doc).len(),
        forall|k: int| 0 <= k < r@.len() ==> npm_item(
            npm_dependencies(*doc)[k].0@,
            npm_dependencies(*doc)[k].1,
            prefix@,
            #[trigger] r@[k],
        ),
{
    let empty: Vec<(String, Json)> = Vec::new();
    let es = match doc.get("dependencies") {
        Some(d) => match d.as_object() {
            Some(es) => es,
            None => &empty,
        },
        None => &empty,
    };
    assert(es@ == npm_dependencies(*doc));
    let mut r: Vec<InventoryItem> = Vec::new();
    let mut i: usize = 0;
    while i < es.len()
        invariant
            i <= es@.len(),
            r@.len() == i,
            forall|k: int| 0 <= k < i ==> npm_item(es@[k].0@, es@[k].1, prefix@, #[trigger] r@[k]),
        decreases es@.len() - i,
    {
        r.push(npm_entry(es[i].0.as_str(), &es[i].1, prefix));
        i = i + 1;
    }
    r
}

/// Reads the output of `npm list -g --json --depth=0`: its packages, or `None`
/// when the output is not JSON.
pub fn npm_output_items(stdout: &str, prefix: &str) -> (r: Option<Vec<InventoryItem>>)
    ensures
        match json_text_value(stdout@) {
            None => r is None,
            Some(doc) => r matches Some(v) && v@.len() == npm_dependencies(doc).len() && forall|k: int|
                0 <= k < v@.len() ==> npm_item(
                    npm_dependencies(doc)[k].0@,
                    npm_dependencies(doc)[k].1,
                    prefix@,
                    #[trigger] v@[k],
                ),
        },
{
    match parse_json(stdout) {
        None => None,
        Some(doc) => Some(npm_items(&doc, prefix)),
    }
}

} // verus!
