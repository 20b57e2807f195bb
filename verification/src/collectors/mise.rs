use vstd::prelude::*;
use crate::collectors::json::{Json, json_array, json_bool, json_get, json_str, json_text_value, parse_json};
use crate::collectors::brew::text_or_empty;
use crate::collectors::probe::opt_text;
use crate::models::category::Category;
use crate::models::item::{InventoryItem, PackageSource};
use crate::paths::{join_path, path_join};
use crate::text::{cat, cat3, chars_of, owned};

verus! {

/// The mise collector: where the `mise` binary is, if anywhere.
pub struct MiseCollector {
    pub mise_path: Option<String>,
}

impl MiseCollector {
    /// A collector for the `mise` binary found (see `which_binary`).
    pub fn new(mise_path: Option<String>) -> (r: Self)
        ensures
            r.mise_path == mise_path,
    {
        MiseCollector { mise_path }
    }

    /// The collector's name.
    pub fn name(&self) -> (r: &'static str)
        ensures
            r@ == "mise"@,
    {
        "mise"
    }

    /// Whether mise was found.
    pub fn is_available(&self) -> (r: bool)
        ensures
            r == self.mise_path is Some,
    {
        self.mise_path.is_some()
    }
}

/// Where mise keeps its data: `~/.local/share/mise`, or `/tmp` without a home.
pub open spec fn mise_data_dir_spec(home: Option<Seq<char>>) -> Seq<char> {
    match home {
        Some(h) => join_path(h, ".local/share/mise"@),
        None => "/tmp"@,
    }
}

/// Where mise keeps its data, given `$HOME`.
pub fn mise_data_dir(home: Option<String>) -> (r: String)
    ensures
        r@ == mise_data_dir_spec(opt_text(home)),
{
    match home {
        Some(h) => path_join(h.as_str(), ".local/share/mise"),
        None => owned("/tmp"),
    }
}

/// The version of a record of `mise ls --json` (empty when missing).
pub open spec fn record_version(v: Json) -> Seq<char> {
    text_or_empty(json_str(json_get(v, "version"@)))
}

/// Whether a record is kept: installed (by default yes) and with a version.
pub open spec fn record_kept(v: Json) -> bool {
    let installed = match json_bool(json_get(v, "installed"@)) {
        Some(b) => b,
        None => true,
    };
    installed && record_version(v).len() > 0
}

/// The item of a kept record of plugin `plugin`.
pub open spec fn mise_item(plugin: Seq<char>, v: Json, data_dir: Seq<char>, it: InventoryItem) -> bool {
    let version = record_version(v);
    &&& it.id@ == "mise:"@ + plugin + "@"@ + version
    &&& it.name@ == plugin + " ("@ + version + ")"@
    &&& it.source == PackageSource::MiseRuntime
    &&& opt_text(it.version) == Some(version)
    &&& it.install_path@ == match json_str(json_get(v, "install_path"@)) {
        Some(p) => p,
        None => join_path(join_path(join_path(data_dir, "installs"@), plugin), version),
    }
    &&& it.size_bytes == 0
    &&& it.last_accessed_at is None
    &&& it.last_modified_at is None
    &&& it.is_top_level == match json_bool(json_get(v, "active"@)) {
        Some(b) => b,
        None => false,
    }
    &&& it.required_by@.len() == 0
    &&& it.category == Category::LanguagesAndRuntimes
    &&& opt_text(it.uninstall_cmd) == Some("mise uninstall "@ + plugin + "@"@ + version)
    &&& opt_text(it.reinstall_cmd) == Some("mise use -g "@ + plugin + "@"@ + version)
}

/// `items` are the items of the kept records `vs` of one plugin, in order.
pub open spec fn plugin_items_ok(plugin: Seq<char>, vs: Seq<Json>, data_dir: Seq<char>, items: Seq<InventoryItem>) -> bool
    decreases vs.len(),
{
    if vs.len() == 0 {
        items.len() == 0
    } else if !record_kept(vs.last()) {
        plugin_items_ok(plugin, vs.drop_last(), data_dir, items)
    } else {
        items.len() > 0 && plugin_items_ok(plugin, vs.drop_last(), data_dir, items.drop_last()) && mise_item(
            plugin,
            vs.last(),
            data_dir,
            items.last(),
        )
    }
}

/// The records of a plugin: its value when that is an array.
pub open spec fn plugin_records(v: Json) -> Seq<Json> {
    match json_array(Some(v)) {
        Some(a) => a,
        None => Seq::empty(),
    }
}

/// `items` are the items of the plugins `es`, plugin after plugin.
pub open spec fn mise_items_ok(es: Seq<(String, Json)>, data_dir: Seq<char>, items: Seq<InventoryItem>) -> bool
    decreases es.len(),
{
    if es.len() == 0 {
        items.len() == 0
    } else {
        exists|k: int|
            0 <= k <= items.len() && mise_items_ok(es.drop_last(), data_dir, items.take(k)) && plugin_items_ok(
                es.last().0@,
                plugin_records(es.last().1),
                data_dir,
                items.skip(k),
            )
    }
}

/// The members of the document when it is an object.
pub open spec fn members_of(doc: Json) -> Seq<(String, Json)> {
    match doc {
        Json::Object(es) => es@,
        _ => Seq::empty(),
    }
}

fn record_entry(plugin: &str, v: &Json, data_dir: &str) -> (it: InventoryItem)
    ensures
        mise_item(plugin@, *v, data_dir@, it),
{
    let version = match v.get("version") {
        Some(x) => match x.as_str() {
            Some(s) => owned(s.as_str()),
            None => String::new(),
        },
        None => String::new(),
    };
    let active = match v.get("active") {
        Some(x) => match x.as_bool() {
            Some(b) => b,
            None => false,
        },
        None => false,
    };
    let given = match v.get("install_path") {
        Some(x) => match x.as_str() {
            Some(s) => Some(owned(s.as_str())),
            None => None,
        },
        None => None,
    };
    let install_path = match given {
        Some(p) => p,
        None => {
            let a = path_join(data_dir, "installs");
            let b = path_join(a.as_str(), plugin);
            path_join(b.as_str(), version.as_str())
        },
    };
    let at = cat3(plugin, "@", version.as_str());
    let mut name = cat(plugin, " (");
    crate::text::append_str(&mut name, version.as_str());
    crate::text::append_str(&mut name, ")");
    assert(("mise:"@ + at@) =~= "mise:"@ + plugin@ + "@"@ + version@);
    assert(("mise uninstall "@ + at@) =~= "mise uninstall "@ + plugin@ + "@"@ + version@);
    assert(("mise use -g "@ + at@) =~= "mise use -g "@ + plugin@ + "@"@ + version@);
    InventoryItem {
        id: cat("mise:", at.as_str()),
        name,
        source: PackageSource::MiseRuntime,
        version: Some(owned(version.as_str())),
        install_path,
        size_bytes: 0,
        last_accessed_at: None,
        last_modified_at: None,
        is_top_level: active,
        required_by: Vec::new(),
        category: Category::LanguagesAndRuntimes,
        uninstall_cmd: Some(cat("mise uninstall ", at.as_str())),
        reinstall_cmd: Some(cat("mise use -g ", at.as_str())),
    }
}

fn kept(v: &Json) -> (r: bool)
    ensures
        r == record_kept(*v),
{
    let installed = match v.get("installed") {
        Some(x) => match x.as_bool() {
            Some(b) => b,
            None => true,
        },
        None => true,
    };
    let version = match v.get("version") {
        Some(x) => match x.as_str() {
            Some(s) => chars_of(s.as_str()).len() > 0,
            None => false,
        },
        None => false,
    };
    installed && version
}

/// The items of `mise ls --json`: for each plugin, its installed versions.
pub fn mise_items(doc: &Json, data_dir: &str) -> (r: Vec<InventoryItem>)
    ensures
        mise_items_ok(members_of(*doc), data_dir@, r@),
{
    let empty: Vec<(String, Json)> = Vec::new();
    let es = match doc {
        Json::Object(es) => es,
        _ => &empty,
    };
    assert(es@ == members_of(*doc));
    let mut r: Vec<InventoryItem> = Vec::new();
    let mut i: usize = 0;
    while i < es.len()
        invariant
            i <= es@.len(),
            mise_items_ok(es@.take(i as int), data_dir@, r@),
        decreases es@.len() - i,
    {
        let plugin = es[i].0.as_str();
        let no_records: Vec<Json> = Vec::new();
        let vs = match es[i].1.as_array() {
            Some(a) => a,
            None => &no_records,
        };
        assert(vs@ == plugin_records(es@[i as int].1));
        let ghost start = r@;
        let ghost k0 = r@.len() as int;
        let mut j: usize = 0;
        assert(r@.take(k0) =~= start);
        assert(r@.skip(k0) =~= Seq::<InventoryItem>::empty());
        while j < vs.len()
            invariant
                j <= vs@.len(),
                0 <= k0 <= r@.len(),
                r@.take(k0) == start,
                i < es@.len(),
                mise_items_ok(es@.take(i as int), data_dir@, start),
                plugin@ == es@[i as int].0@,
                vs@ == plugin_records(es@[i as int].1),
                plugin_items_ok(plugin@, vs@.take(j as int), data_dir@, r@.skip(k0)),
            decreases vs@.len() - j,
        {
            let ghost t1 = vs@.take(j + 1);
            assert(t1.drop_last() =~= vs@.take(j as int));
            assert(t1.last() == vs@[j as int]);
            if kept(&vs[j]) {
                let ghost before = r@;
                r.push(record_entry(plugin, &vs[j], data_dir));
                assert(r@.take(k0) =~= before.take(k0));
                assert(r@.skip(k0).drop_last() =~= before.skip(k0));
            }
            j = j + 1;
        }
        assert(vs@.take(j as int) =~= vs@);
        proof {
            let t1 = es@.take(i + 1);
            assert(t1.drop_last() =~= es@.take(i as int));
            assert(t1.last() == es@[i as int]);
            assert(mise_items_ok(t1.drop_last(), data_dir@, r@.take(k0)));
            assert(plugin_items_ok(t1.last().0@, plugin_records(t1.last().1), data_dir@, r@.skip(k0)));
        }
        i = i + 1;
    }
    assert(es@.take(i as int) =~= es@);
    r
}

/// Reads the output of `mise ls --json`: its runtimes, or `None` when the output
/// is not JSON.
pub fn mise_output_items(stdout: &str, data_dir: &str) -> (r: Option<Vec<InventoryItem>>)
    ensures
        match json_text_value(stdout@) {
            None => r is None,
            Some(doc) => r matches Some(v) && mise_items_ok(members_of(doc), data_dir@, v@),
        },
{
    match parse_json(stdout) {
        None => None,
        Some(doc) => Some(mise_items(&doc, data_dir)),
    }
}

} // verus!
