use vstd::prelude::*;
use crate::collectors::json::{Json, json_array, json_get, json_object, json_str, json_text_value, parse_json};
use crate::collectors::probe::opt_text;
use crate::models::category::Category;
use crate::models::item::{InventoryItem, PackageSource};
use crate::paths::{join_path, path_join};
use crate::text::{cat, chars_of, owned, split_whitespace_chars, string_of, words_spec};

verus! {

/// The cargo collector: the cargo home directory.
pub struct CargoCollector {
    pub cargo_home: String,
}

/// `$CARGO_HOME`, else `~/.cargo`, else `/tmp`.
pub open spec fn cargo_home_spec(cargo_home: Option<Seq<char>>, home: Option<Seq<char>>) -> Seq<char> {
    match cargo_home {
        Some(c) => c,
        None => match home {
            Some(h) => join_path(h, ".cargo"@),
            None => "/tmp"@,
        },
    }
}

impl CargoCollector {
    /// A collector for the cargo home given by `$CARGO_HOME` or `$HOME`.
    pub fn new(cargo_home_env: Option<String>, home_env: Option<String>) -> (r: Self)
        ensures
            r.cargo_home@ == cargo_home_spec(opt_text(cargo_home_env), opt_text(home_env)),
    {
        let cargo_home = match cargo_home_env {
            Some(c) => c,
            None => match home_env {
                Some(h) => path_join(h.as_str(), ".cargo"),
                None => owned("/tmp"),
            },
        };
        CargoCollector { cargo_home }
    }

    /// The collector's name.
    pub fn name(&self) -> (r: &'static str)
        ensures
            r@ == "cargo"@,
    {
        "cargo"
    }

    /// The directory of installed binaries.
    pub fn bin_dir(&self) -> (r: String)
        ensures
            r@ == join_path(self.cargo_home@, "bin"@),
    {
        path_join(self.cargo_home.as_str(), "bin")
    }

    /// The install registry file, `.crates2.json`.
    pub fn crates_json_path(&self) -> (r: String)
        ensures
            r@ == join_path(self.cargo_home@, ".crates2.json"@),
    {
        path_join(self.cargo_home.as_str(), ".crates2.json")
    }

    /// Whether cargo is there: its binary directory or its install registry exists.
    pub fn is_available(&self, bin_dir_exists: bool, crates_json_exists: bool) -> (r: bool)
        ensures
            r == (bin_dir_exists || crates_json_exists),
    {
        bin_dir_exists || crates_json_exists
    }
}

/// The crate name of an install key such as `ripgrep 14.1.0 (registry+...)`: its
/// first word when it has two or more, else the whole key.
pub open spec fn key_name(key: Seq<char>) -> Seq<char> {
    if words_spec(key).len() >= 2 {
        words_spec(key)[0]
    } else {
        key
    }
}

/// The version of an install key: its second word, when it has two or more.
pub open spec fn key_version(key: Seq<char>) -> Option<Seq<char>> {
    if words_spec(key).len() >= 2 {
        Some(words_spec(key)[1])
    } else {
        None
    }
}

/// The strings among the elements.
pub open spec fn string_elems(vs: Seq<Json>) -> Seq<Seq<char>>
    decreases vs.len(),
{
    if vs.len() == 0 {
        Seq::empty()
    } else {
        string_elems(vs.drop_last()) + match json_str(Some(vs.last())) {
            Some(s) => seq![s],
            None => Seq::empty(),
        }
    }
}

/// The first binary an install lists, else the crate name.
pub open spec fn primary_bin(key: Seq<char>, val: Json) -> Seq<char> {
    let bins = match json_array(json_get(val, "bins"@)) {
        Some(v) => string_elems(v),
        None => Seq::empty(),
    };
    if bins.len() > 0 {
        bins[0]
    } else {
        key_name(key)
    }
}

/// The item of one install.
pub open spec fn cargo_item(key: Seq<char>, val: Json, cargo_home: Seq<char>, it: InventoryItem) -> bool {
    let name = key_name(key);
    &&& it.id@ == "cargo:"@ + name
    &&& it.name@ == name
    &&& it.source == PackageSource::CargoBin
    &&& opt_text(it.version) == key_version(key)
    &&& it.install_path@ == join_path(join_path(cargo_home, "bin"@), primary_bin(key, val))
    &&& it.size_bytes == 0
    &&& it.last_accessed_at is None
    &&& it.last_modified_at is None
    &&& it.is_top_level
    &&& it.required_by@.len() == 0
    &&& it.category == Category::CliDeveloperTools
    &&& opt_text(it.uninstall_cmd) == Some("cargo uninstall "@ + name)
    &&& opt_text(it.reinstall_cmd) == Some("cargo install "@ + name)
}

/// The members of `doc["installs"]` when that is an object.
pub open spec fn cargo_installs(doc: Json) -> Seq<(String, Json)> {
    match json_object(json_get(doc, "installs"@)) {
        Some(es) => es,
        None => Seq::empty(),
    }
}

fn first_string(vs: &Vec<Json>) -> (r: Option<String>)
    ensures
        r matches Some(s) ==> string_elems(vs@).len() > 0 && string_elems(vs@)[0] == s@,
        r is None ==> string_elems(vs@).len() == 0,
{
    let mut i: usize = 0;
    while i < vs.len()
        invariant
            i <= vs@.len(),
            string_elems(vs@.take(i as int)).len() == 0,
        decreases vs@.len() - i,
    {
        let ghost t1 = vs@.take(i + 1);
        assert(t1.drop_last() =~= vs@.take(i as int));
        assert(t1.last() == vs@[i as int]);
        proof {
            lemma_string_elems_prefix(vs@, i + 1);
        }
        match vs[i].as_str() {
            Some(s) => {
                assert(string_elems(t1) =~= seq![s@]);
                return Some(owned(s.as_str()));
            },
            None => {},
        }
        i = i + 1;
    }
    assert(vs@.take(i as int) =~= vs@);
    None
}

proof fn lemma_string_elems_prefix(vs: Seq<Json>, i: int)
    requires
        0 <= i <= vs.len(),
    ensures
        string_elems(vs.take(i)).len() <= string_elems(vs).len(),
        string_elems(vs.take(i)).len() > 0 ==> string_elems(vs)[0] == string_elems(vs.take(i))[0],
    decreases vs.len() - i,
{
    if i < vs.len() {
        lemma_string_elems_prefix(vs, i + 1);
        assert(vs.take(i + 1).drop_last() =~= vs.take(i));
    } else {
        assert(vs.take(i) =~= vs);
    }
}

fn install_entry(key: &str, val: &Json, cargo_home: &str) -> (it: InventoryItem)
    ensures
        cargo_item(key@, *val, cargo_home@, it),
{
    let kc = chars_of(key);
    let words = split_whitespace_chars(&kc);
    let (name, version) = if words.len() >= 2 {
        (string_of(words[0].as_slice()), Some(string_of(words[1].as_slice())))
    } else {
        (owned(key), None)
    };
    let first = match val.get("bins") {
        Some(b) => match b.as_array() {
            Some(vs) => first_string(vs),
            None => None,
        },
        None => None,
    };
    let primary = match first {
        Some(s) => s,
        None => owned(name.as_str()),
    };
    let bin = path_join(cargo_home, "bin");
    InventoryItem {
        id: cat("cargo:", name.as_str()),
        name: owned(name.as_str()),
        source: PackageSource::CargoBin,
        version,
        install_path: path_join(bin.as_str(), primary.as_str()),
        size_bytes: 0,
        last_accessed_at: None,
        last_modified_at: None,
        is_top_level: true,
        required_by: Vec::new(),
        category: Category::CliDeveloperTools,
        uninstall_cmd: Some(cat("cargo uninstall ", name.as_str())),
        reinstall_cmd: Some(cat("cargo install ", name.as_str())),
    }
}

/// The items of `.crates2.json`: one per install, in order.
pub fn cargo_items(doc: &Json, cargo_home: &str) -> (r: Vec<InventoryItem>)
    ensures
        r@.len() == cargo_installs(*doc).len(),
        forall|k: int| 0 <= k < r@.len() ==> cargo_item(
            cargo_installs(*doc)[k].0@,
            cargo_installs(*doc)[k].1,
            cargo_home@,
            #[trigger] r@[k],
        ),
{
    let empty: Vec<(String, Json)> = Vec::new();
    let es = match doc.get("installs") {
        Some(d) => match d.as_object() {
            Some(es) => es,
            None => &empty,
        },
        None => &empty,
    };
    assert(es@ == cargo_installs(*doc));
    let mut r: Vec<InventoryItem> = Vec::new();
    let mut i: usize = 0;
    while i < es.len()
        invariant
            i <= es@.len(),
            r@.len() == i,
            forall|k: int| 0 <= k < i ==> cargo_item(es@[k].0@, es@[k].1, cargo_home@, #[trigger] r@[k]),
        decreases es@.len() - i,
    {
        r.push(install_entry(es[i].0.as_str(), &es[i].1, cargo_home));
        i = i + 1;
    }
    r
}

/// Reads `.crates2.json`: its installed binaries, or `None` when the file is not JSON.
pub fn cargo_file_items(content: &str, cargo_home: &str) -> (r: Option<Vec<InventoryItem>>)
    ensures
        match json_text_value(content@) {
            None => r is None,
            Some(doc) => r matches Some(v) && v@.len() == cargo_installs(doc).len() && forall|k: int|
                0 <= k < v@.len() ==> cargo_item(
                    cargo_installs(doc)[k].0@,
                    cargo_installs(doc)[k].1,
                    cargo_home@,
                    #[trigger] v@[k],
                ),
        },
{
    match parse_json(content) {
        None => None,
        Some(doc) => Some(cargo_items(&doc, cargo_home)),
    }
}

} // verus!
