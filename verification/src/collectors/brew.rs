use vstd::prelude::*;
use crate::collectors::json::{Json, json_array, json_bool, json_get, json_str, json_text_value, parse_json};
use crate::collectors::probe::opt_text;
use crate::doc::strs;
use crate::models::category::Category;
use crate::models::item::{InventoryItem, PackageSource};
use crate::paths::{join_path, path_join};
use crate::text::{cat, chars_of, owned};

verus! {

/// The Homebrew collector: where the `brew` binary is, if anywhere.
pub struct BrewCollector {
    pub brew_path: Option<String>,
}

impl BrewCollector {
    /// A collector for the `brew` binary found (see `which_binary`).
    pub fn new(brew_path: Option<String>) -> (r: Self)
        ensures
            r.brew_path == brew_path,
    {
        BrewCollector { brew_path }
    }

    /// The collector's name.
    pub fn name(&self) -> (r: &'static str)
        ensures
            r@ == "homebrew"@,
    {
        "homebrew"
    }

    /// Whether Homebrew was found.
    pub fn is_available(&self) -> (r: bool)
        ensures
            r == self.brew_path is Some,
    {
        self.brew_path.is_some()
    }
}

/// A text, or the empty text.
pub open spec fn text_or_empty(o: Option<Seq<char>>) -> Seq<char> {
    match o {
        Some(s) => s,
        None => Seq::empty(),
    }
}

/// The elements of `doc[key]` when it is an array, else none.
pub open spec fn array_at(doc: Json, key: Seq<char>) -> Seq<Json> {
    match json_array(json_get(doc, key)) {
        Some(v) => v,
        None => Seq::empty(),
    }
}

/// A formula's name (empty when missing).
pub open spec fn formula_name(f: Json) -> Seq<char> {
    text_or_empty(json_str(json_get(f, "name"@)))
}

/// The first record of a formula's `installed` list, when there is one.
pub open spec fn first_install(f: Json) -> Option<Json> {
    match json_array(json_get(f, "installed"@)) {
        Some(v) => if v.len() > 0 {
            Some(v[0])
        } else {
            None
        },
        None => None,
    }
}

/// The installed version of a formula.
pub open spec fn formula_version(f: Json) -> Option<Seq<char>> {
    match first_install(f) {
        Some(i) => json_str(json_get(i, "version"@)),
        None => None,
    }
}

/// Whether a formula was installed on request (a formula without install
/// records counts as such); without the flag, whether it was not installed as a
/// dependency.
pub open spec fn formula_top_level(f: Json) -> bool {
    match first_install(f) {
        Some(i) => {
            let as_dep = match json_bool(json_get(i, "installed_as_dependency"@)) {
                Some(b) => b,
                None => false,
            };
            match json_bool(json_get(i, "installed_on_request"@)) {
                Some(b) => b,
                None => !as_dep,
            }
        },
        None => true,
    }
}

/// `<prefix>/Cellar/<name>/<version or "current">`.
pub open spec fn cellar_of(f: Json, prefix: Seq<char>) -> Seq<char> {
    let v = match formula_version(f) {
        Some(v) => v,
        None => "current"@,
    };
    join_path(join_path(join_path(prefix, "Cellar"@), formula_name(f)), v)
}

/// The ids of a formula's dependencies that are strings.
pub open spec fn dep_ids(ds: Seq<Json>) -> Seq<Seq<char>>
    decreases ds.len(),
{
    if ds.len() == 0 {
        Seq::empty()
    } else {
        dep_ids(ds.drop_last()) + match json_str(Some(ds.last())) {
            Some(d) => seq!["brew:"@ + d],
            None => Seq::empty(),
        }
    }
}

/// The inventory item of a named formula; `cellar_exists` tells whether its
/// Cellar directory exists.
pub open spec fn formula_item(f: Json, prefix: Seq<char>, cellar_exists: bool, it: InventoryItem) -> bool {
    let name = formula_name(f);
    &&& it.id@ == "brew:"@ + name
    &&& it.name@ == name
    &&& it.source == PackageSource::BrewFormula
    &&& opt_text(it.version) == formula_version(f)
    &&& it.install_path@ == (if cellar_exists {
        cellar_of(f, prefix)
    } else {
        join_path(join_path(prefix, "opt"@), name)
    })
    &&& it.size_bytes == 0
    &&& it.last_accessed_at is None
    &&& it.last_modified_at is None
    &&& it.is_top_level == formula_top_level(f)
    &&& strs(it.required_by@) == dep_ids(array_at(f, "dependencies"@))
    &&& it.category == Category::Uncategorized
    &&& opt_text(it.uninstall_cmd) == Some("brew uninstall "@ + name)
    &&& opt_text(it.reinstall_cmd) == Some("brew install "@ + name)
}

/// How many formulas have a name.
pub open spec fn named_count(fs: Seq<Json>) -> nat
    decreases fs.len(),
{
    if fs.len() == 0 {
        0
    } else {
        named_count(fs.drop_last()) + if formula_name(fs.last()).len() > 0 {
            1nat
        } else {
            0nat
        }
    }
}

/// `paths` are the Cellar paths of the named formulas, in order.
pub open spec fn cellars_ok(fs: Seq<Json>, prefix: Seq<char>, paths: Seq<Seq<char>>) -> bool
    decreases fs.len(),
{
    if fs.len() == 0 {
        paths.len() == 0
    } else if formula_name(fs.last()).len() == 0 {
        cellars_ok(fs.drop_last(), prefix, paths)
    } else {
        paths.len() > 0 && cellars_ok(fs.drop_last(), prefix, paths.drop_last()) && paths.last() == cellar_of(
            fs.last(),
            prefix,
        )
    }
}

/// `items` are the items of the named formulas, in order, `ex` telling for each
/// whether its Cellar path exists.
pub open spec fn formula_items_ok(fs: Seq<Json>, prefix: Seq<char>, ex: Seq<bool>, items: Seq<InventoryItem>) -> bool
    decreases fs.len(),
{
    if fs.len() == 0 {
        ex.len() == 0 && items.len() == 0
    } else if formula_name(fs.last()).len() == 0 {
        formula_items_ok(fs.drop_last(), prefix, ex, items)
    } else {
        &&& ex.len() > 0
        &&& items.len() > 0
        &&& formula_items_ok(fs.drop_last(), prefix, ex.drop_last(), items.drop_last())
        &&& formula_item(fs.last(), prefix, ex.last(), items.last())
    }
}

/// A cask's token (empty when missing).
pub open spec fn cask_token(c: Json) -> Seq<char> {
    text_or_empty(json_str(json_get(c, "token"@)))
}

/// The inventory item of a cask with a token.
pub open spec fn cask_item(c: Json, prefix: Seq<char>, it: InventoryItem) -> bool {
    let token = cask_token(c);
    &&& it.id@ == "brew:cask:"@ + token
    &&& it.name@ == token
    &&& it.source == PackageSource::BrewCask
    &&& opt_text(it.version) == json_str(json_get(c, "version"@))
    &&& it.install_path@ == join_path(join_path(prefix, "Caskroom"@), token)
    &&& it.size_bytes == 0
    &&& it.last_accessed_at is None
    &&& it.last_modified_at is None
    &&& it.is_top_level
    &&& it.required_by@.len() == 0
    &&& it.category == Category::GuiAppsAndMedia
    &&& opt_text(it.uninstall_cmd) == Some("brew uninstall --cask "@ + token)
    &&& opt_text(it.reinstall_cmd) == Some("brew install --cask "@ + token)
}

/// `items` are the items of the casks with a token, in order.
pub open spec fn cask_items_ok(cs: Seq<Json>, prefix: Seq<char>, items: Seq<InventoryItem>) -> bool
    decreases cs.len(),
{
    if cs.len() == 0 {
        items.len() == 0
    } else if cask_token(cs.last()).len() == 0 {
        cask_items_ok(cs.drop_last(), prefix, items)
    } else {
        items.len() > 0 && cask_items_ok(cs.drop_last(), prefix, items.drop_last()) && cask_item(
            cs.last(),
            prefix,
            items.last(),
        )
    }
}

/// `j[key]` as a string, or the empty string.
fn str_or_empty(j: &Json, key: &str) -> (r: String)
    ensures
        r@ == text_or_empty(json_str(json_get(*j, key@))),
{
    match j.get(key) {
        Some(v) => match v.as_str() {
            Some(s) => owned(s.as_str()),
            None => String::new(),
        },
        None => String::new(),
    }
}

/// `j[key]` as a string.
fn opt_str(j: &Json, key: &str) -> (r: Option<String>)
    ensures
        opt_text(r) == json_str(json_get(*j, key@)),
{
    match j.get(key) {
        Some(v) => match v.as_str() {
            Some(s) => Some(owned(s.as_str())),
            None => None,
        },
        None => None,
    }
}

/// `j[key]` as a boolean.
fn opt_bool(j: &Json, key: &str) -> (r: Option<bool>)
    ensures
        r == json_bool(json_get(*j, key@)),
{
    match j.get(key) {
        Some(v) => v.as_bool(),
        None => None,
    }
}

/// The elements of `j[key]` when it is an array.
fn array_of<'a>(j: &'a Json, key: &str) -> (r: Option<&'a Vec<Json>>)
    ensures
        r matches Some(v) ==> json_array(json_get(*j, key@)) == Some(v@),
        r is None ==> json_array(json_get(*j, key@)) is None,
{
    match j.get(key) {
        Some(v) => v.as_array(),
        None => None,
    }
}

fn first_install_exec(f: &Json) -> (r: Option<&Json>)
    ensures
        r matches Some(x) ==> first_install(*f) == Some(*x),
        r is None ==> first_install(*f) is None,
{
    match array_of(f, "installed") {
        Some(v) => if v.len() > 0 {
            Some(&v[0])
        } else {
            None
        },
        None => None,
    }
}

fn cellar_path(f: &Json, prefix: &str) -> (r: String)
    ensures
        r@ == cellar_of(*f, prefix@),
{
    let name = str_or_empty(f, "name");
    let ver = match first_install_exec(f) {
        Some(i) => opt_str(i, "version"),
        None => None,
    };
    let ver_str = match ver {
        Some(v) => v,
        None => owned("current"),
    };
    let a = path_join(prefix, "Cellar");
    let b = path_join(a.as_str(), name.as_str());
    path_join(b.as_str(), ver_str.as_str())
}

fn dependency_ids(ds: &Vec<Json>) -> (r: Vec<String>)
    ensures
        strs(r@) == dep_ids(ds@),
{
    let mut r: Vec<String> = Vec::new();
    let mut i: usize = 0;
    while i < ds.len()
        invariant
            i <= ds@.len(),
            strs(r@) == dep_ids(ds@.take(i as int)),
        decreases ds@.len() - i,
    {
        assert(ds@.take(i + 1).drop_last() =~= ds@.take(i as int));
        assert(ds@.take(i + 1).last() == ds@[i as int]);
        let ghost before = r@;
        match ds[i].as_str() {
            Some(d) => {
                r.push(cat("brew:", d.as_str()));
                assert(strs(r@) =~= strs(before) + seq!["brew:"@ + d@]);
            },
            None => {
                assert(strs(r@) =~= strs(before) + Seq::<Seq<char>>::empty());
            },
        }
        i = i + 1;
    }
    assert(ds@.take(i as int) =~= ds@);
    r
}

fn formula_entry(f: &Json, prefix: &str, cellar_exists: bool) -> (it: InventoryItem)
    ensures
        formula_item(*f, prefix@, cellar_exists, it),
{
    let name = str_or_empty(f, "name");
    let first = first_install_exec(f);
    let (version, is_top_level) = match first {
        Some(i) => {
            let ver = opt_str(i, "version");
            let as_dep = match opt_bool(i, "installed_as_dependency") {
                Some(b) => b,
                None => false,
            };
            let on_req = match opt_bool(i, "installed_on_request") {
                Some(b) => b,
                None => !as_dep,
            };
            (ver, on_req)
        },
        None => (None, true),
    };
    let install_path = if cellar_exists {
        cellar_path(f, prefix)
    } else {
        let o = path_join(prefix, "opt");
        path_join(o.as_str(), name.as_str())
    };
    let required_by = match array_of(f, "dependencies") {
        Some(ds) => dependency_ids(ds),
        None => {
            let v: Vec<String> = Vec::new();
            assert(strs(v@) =~= dep_ids(Seq::<Json>::empty()));
            v
        },
    };
    InventoryItem {
        id: cat("brew:", name.as_str()),
        name: owned(name.as_str()),
        source: PackageSource::BrewFormula,
        version,
        install_path,
        size_bytes: 0,
        last_accessed_at: None,
        last_modified_at: None,
        is_top_level,
        required_by,
        category: Category::Uncategorized,
        uninstall_cmd: Some(cat("brew uninstall ", name.as_str())),
        reinstall_cmd: Some(cat("brew install ", name.as_str())),
    }
}

fn cask_entry(c: &Json, prefix: &str) -> (it: InventoryItem)
    ensures
        cask_item(*c, prefix@, it),
{
    let token = str_or_empty(c, "token");
    let room = path_join(prefix, "Caskroom");
    InventoryItem {
        id: cat("brew:cask:", token.as_str()),
        name: owned(token.as_str()),
        source: PackageSource::BrewCask,
        version: opt_str(c, "version"),
        install_path: path_join(room.as_str(), token.as_str()),
        size_bytes: 0,
        last_accessed_at: None,
        last_modified_at: None,
        is_top_level: true,
        required_by: Vec::new(),
        category: Category::GuiAppsAndMedia,
        uninstall_cmd: Some(cat("brew uninstall --cask ", token.as_str())),
        reinstall_cmd: Some(cat("brew install --cask ", token.as_str())),
    }
}

fn has_name(j: &Json, key: &str) -> (r: bool)
    ensures
        r == (text_or_empty(json_str(json_get(*j, key@))).len() > 0),
{
    let s = str_or_empty(j, key);
    let c = chars_of(s.as_str());
    c.len() > 0
}

/// The Cellar paths to look for, one per named formula of `brew info --json=v2
/// --installed`, in order.
pub fn brew_cellar_paths(doc: &Json, prefix: &str) -> (r: Vec<String>)
    ensures
        cellars_ok(array_at(*doc, "formulae"@), prefix@, strs(r@)),
        r@.len() == named_count(array_at(*doc, "formulae"@)),
{
    let empty: Vec<Json> = Vec::new();
    let fs = match array_of(doc, "formulae") {
        Some(v) => v,
        None => &empty,
    };
    assert(fs@ == array_at(*doc, "formulae"@));
    let mut r: Vec<String> = Vec::new();
    let mut i: usize = 0;
    while i < fs.len()
        invariant
            i <= fs@.len(),
            cellars_ok(fs@.take(i as int), prefix@, strs(r@)),
            r@.len() == named_count(fs@.take(i as int)),
        decreases fs@.len() - i,
    {
        let ghost t1 = fs@.take(i + 1);
        assert(t1.drop_last() =~= fs@.take(i as int));
        assert(t1.last() == fs@[i as int]);
        if has_name(&fs[i], "name") {
            let ghost before = r@;
            r.push(cellar_path(&fs[i], prefix));
            assert(strs(r@).drop_last() =~= strs(before));
        }
        i = i + 1;
    }
    assert(fs@.take(i as int) =~= fs@);
    r
}

/// The items of `brew info --json=v2 --installed`: the named formulas, then the
/// casks with a token; `cellar_exists` tells, for each path of
/// `brew_cellar_paths`, whether it exists.
pub fn brew_items(doc: &Json, prefix: &str, cellar_exists: &Vec<bool>) -> (r: Vec<InventoryItem>)
    requires
        cellar_exists@.len() == named_count(array_at(*doc, "formulae"@)),
    ensures
        formula_items_ok(
            array_at(*doc, "formulae"@),
            prefix@,
            cellar_exists@,
            r@.take(named_count(array_at(*doc, "formulae"@)) as int),
        ),
        cask_items_ok(array_at(*doc, "casks"@), prefix@, r@.skip(named_count(array_at(*doc, "formulae"@)) as int)),
{
    let empty: Vec<Json> = Vec::new();
    let fs = match array_of(doc, "formulae") {
        Some(v) => v,
        None => &empty,
    };
    assert(fs@ == array_at(*doc, "formulae"@));
    let mut r: Vec<InventoryItem> = Vec::new();
    let mut n: usize = 0;
    let mut i: usize = 0;
    while i < fs.len()
        invariant
            i <= fs@.len(),
            n == named_count(fs@.take(i as int)),
            n == r@.len(),
            named_count(fs@) == cellar_exists@.len(),
            n <= cellar_exists@.len(),
            formula_items_ok(fs@.take(i as int), prefix@, cellar_exists@.take(n as int), r@),
        decreases fs@.len() - i,
    {
        let ghost t1 = fs@.take(i + 1);
        assert(t1.drop_last() =~= fs@.take(i as int));
        assert(t1.last() == fs@[i as int]);
        proof {
            lemma_named_count_prefix(fs@, i as int);
        }
        if has_name(&fs[i], "name") {
            let ghost before = r@;
            let total = cellar_exists.len();
            assert(n < total);
            let it = formula_entry(&fs[i], prefix, cellar_exists[n]);
            r.push(it);
            assert(r@.drop_last() =~= before);
            assert(cellar_exists@.take(n + 1).drop_last() =~= cellar_exists@.take(n as int));
            n = n + 1;
        }
        i = i + 1;
    }
    assert(fs@.take(i as int) =~= fs@);
    assert(cellar_exists@.take(n as int) =~= cellar_exists@);
    let nf = n;
    assert(r@.take(nf as int) =~= r@);
    let cs = match array_of(doc, "casks") {
        Some(v) => v,
        None => &empty,
    };
    assert(cs@ == array_at(*doc, "casks"@));
    let mut j: usize = 0;
    assert(r@.skip(nf as int) =~= Seq::<InventoryItem>::empty());
    assert(cs@.take(0) =~= Seq::<Json>::empty());
    while j < cs.len()
        invariant
            j <= cs@.len(),
            nf <= r@.len(),
            formula_items_ok(fs@, prefix@, cellar_exists@, r@.take(nf as int)),
            cask_items_ok(cs@.take(j as int), prefix@, r@.skip(nf as int)),
        decreases cs@.len() - j,
    {
        let ghost t1 = cs@.take(j + 1);
        assert(t1.drop_last() =~= cs@.take(j as int));
        assert(t1.last() == cs@[j as int]);
        if has_name(&cs[j], "token") {
            let ghost before = r@;
            r.push(cask_entry(&cs[j], prefix));
            assert(r@.take(nf as int) =~= before.take(nf as int));
            assert(r@.skip(nf as int).drop_last() =~= before.skip(nf as int));
        }
        j = j + 1;
    }
    assert(cs@.take(j as int) =~= cs@);
    r
}

proof fn lemma_named_count_prefix(fs: Seq<Json>, i: int)
    requires
        0 <= i <= fs.len(),
    ensures
        named_count(fs.take(i)) <= named_count(fs),
        i < fs.len() && formula_name(fs[i]).len() > 0 ==> named_count(fs.take(i)) < named_count(fs),
    decreases fs.len() - i,
{
    if i < fs.len() {
        lemma_named_count_prefix(fs, i + 1);
        assert(fs.take(i + 1).drop_last() =~= fs.take(i));
        assert(fs.take(i + 1).last() == fs[i]);
    } else {
        assert(fs.take(i) =~= fs);
    }
}

/// Reads the output of `brew info --json=v2 --installed`: its document and the
/// Cellar paths to look for; `None` when the output is not JSON.
pub fn brew_info(stdout: &str, prefix: &str) -> (r: Option<(Json, Vec<String>)>)
    ensures
        match json_text_value(stdout@) {
            None => r is None,
            Some(doc) => r matches Some(p) && p.0 == doc && cellars_ok(array_at(doc, "formulae"@), prefix@, strs(p.1@))
                && p.1@.len() == named_count(array_at(doc, "formulae"@)),
        },
{
    match parse_json(stdout) {
        None => None,
        Some(doc) => {
            let cellars = brew_cellar_paths(&doc, prefix);
            Some((doc, cellars))
        },
    }
}

/// A formula's item is top-level exactly as its first install record says it was
/// installed on request, whatever it says of being installed as a dependency;
/// without that flag, when it was not installed as a dependency; and a formula
/// with no install record is top-level.
pub proof fn formula_top_level_follows_request(f: Json, prefix: Seq<char>, ex: bool, it: InventoryItem)
    requires
        formula_item(f, prefix, ex, it),
    ensures
        json_array(json_get(f, "installed"@)) matches Some(v) ==> (v.len() > 0 ==> (json_bool(
            json_get(v[0], "installed_on_request"@),
        ) matches Some(b) ==> it.is_top_level == b)),
        json_array(json_get(f, "installed"@)) matches Some(v) ==> (v.len() > 0 ==> (json_bool(
            json_get(v[0], "installed_on_request"@),
        ) is None ==> (json_bool(json_get(v[0], "installed_as_dependency"@)) matches Some(d) ==> it.is_top_level
            == !d))),
        (json_array(json_get(f, "installed"@)) matches Some(v) ==> v.len() == 0) ==> it.is_top_level,
{
}

} // verus!
