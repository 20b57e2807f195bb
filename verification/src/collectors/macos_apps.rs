use vstd::prelude::*;
use crate::collectors::probe::{ListedEntry, opt_text};
use crate::doc::strs;
use crate::models::category::Category;
use crate::models::item::{InventoryItem, PackageSource};
use crate::paths::{extension_of, has_extension, join_path, path_join};
use crate::text::{
    append_str, cat, chars_of, occurs_at, owned, replace_char, replace_char_exec, seq_find,
    slice_to_vec, string_of, to_lower, trim_chars, trim_spec, unicode_lower,
};

verus! {

/// The application collector: the folders searched for application bundles.
pub struct MacAppsCollector {
    pub app_dirs: Vec<String>,
}

/// The per-user applications folder.
pub open spec fn user_apps_spec(home: Seq<char>) -> Seq<char> {
    join_path(home, "Applications"@)
}

/// The per-user applications folder, when the home directory is known.
pub fn user_apps_dir(home: &Option<String>) -> (r: Option<String>)
    ensures
        r matches Some(s) ==> home is Some && s@ == user_apps_spec(home->0@),
        r is None ==> home is None,
{
    match home {
        Some(h) => Some(path_join(h.as_str(), "Applications")),
        None => None,
    }
}

impl MacAppsCollector {
    /// `/Applications`, then the per-user folder when it exists.
    pub fn new(home: Option<String>, user_apps_exists: bool) -> (r: Self)
        ensures
            r.app_dirs@.len() >= 1,
            r.app_dirs@[0]@ == "/Applications"@,
            home is Some && user_apps_exists ==> r.app_dirs@.len() == 2 && r.app_dirs@[1]@ == user_apps_spec(
                home->0@,
            ),
            !(home is Some && user_apps_exists) ==> r.app_dirs@.len() == 1,
    {
        let mut app_dirs: Vec<String> = Vec::new();
        app_dirs.push(owned("/Applications"));
        match user_apps_dir(&home) {
            Some(u) => {
                if user_apps_exists {
                    app_dirs.push(u);
                }
            },
            None => {},
        }
        MacAppsCollector { app_dirs }
    }

    /// The collector's name.
    pub fn name(&self) -> (r: &'static str)
        ensures
            r@ == "macos_apps"@,
    {
        "macos_apps"
    }

    /// Whether any of the folders exists (`exists` tells, for each folder, whether it does).
    pub fn is_available(&self, exists: &Vec<bool>) -> (r: bool)
        requires
            exists@.len() == self.app_dirs@.len(),
        ensures
            r == exists@.contains(true),
    {
        let mut i: usize = 0;
        while i < exists.len()
            invariant
                i <= exists@.len(),
                forall|k: int| 0 <= k < i ==> !exists@[k],
            decreases exists@.len() - i,
        {
            if exists[i] {
                assert(exists@[i as int] == true);
                return true;
            }
            i = i + 1;
        }
        false
    }
}

/// Whether a folder entry is an application bundle: a directory named `*.app`.
pub open spec fn is_bundle(e: ListedEntry) -> bool {
    e.is_dir && extension_of(e.name@) == Some("app"@)
}

/// The bundle's name without the `.app` extension.
pub open spec fn bundle_stem(name: Seq<char>) -> Seq<char> {
    name.take(name.len() - 4)
}

/// The version that `Info.plist` gives: the trimmed text of the first `<string>`
/// after `CFBundleShortVersionString`, when it is not empty.
pub open spec fn plist_version_spec(content: Seq<char>) -> Option<Seq<char>> {
    let key = "CFBundleShortVersionString"@;
    let open = "<string>"@;
    let close = "</string>"@;
    if !(exists|p: int| occurs_at(content, key, p)) {
        None
    } else {
        let p = choose|p: int| occurs_at(content, key, p) && forall|q: int| 0 <= q < p ==> !occurs_at(content, key, q);
        let slice = content.skip(p);
        if !(exists|s: int| occurs_at(slice, open, s)) {
            None
        } else {
            let s = choose|s: int| occurs_at(slice, open, s) && forall|q: int| 0 <= q < s ==> !occurs_at(slice, open, q);
            let val = slice.skip(s + 8);
            if !(exists|e: int| occurs_at(val, close, e)) {
                None
            } else {
                let e = choose|e: int| occurs_at(val, close, e) && forall|q: int| 0 <= q < e ==> !occurs_at(val, close, q);
                let ver = trim_spec(val.take(e));
                if ver.len() > 0 {
                    Some(ver)
                } else {
                    None
                }
            }
        }
    }
}

/// The first occurrence of `t` in `s`, with its spec.
fn find_first(s: &Vec<char>, t: &str) -> (r: Option<usize>)
    ensures
        r matches Some(i) ==> occurs_at(s@, t@, i as int) && forall|q: int| 0 <= q < i ==> !occurs_at(s@, t@, q),
        r is None ==> !(exists|p: int| occurs_at(s@, t@, p)),
{
    let tc = chars_of(t);
    seq_find(s.as_slice(), tc.as_slice())
}

proof fn lemma_first_unique(s: Seq<char>, t: Seq<char>, i: int)
    requires
        occurs_at(s, t, i),
        forall|q: int| 0 <= q < i ==> !occurs_at(s, t, q),
    ensures
        (choose|p: int| occurs_at(s, t, p) && forall|q: int| 0 <= q < p ==> !occurs_at(s, t, q)) == i,
{
    let p = choose|p: int| occurs_at(s, t, p) && forall|q: int| 0 <= q < p ==> !occurs_at(s, t, q);
    assert(occurs_at(s, t, p) && forall|q: int| 0 <= q < p ==> !occurs_at(s, t, q));
    if p < i {
        assert(!occurs_at(s, t, p));
    }
    if p > i {
        assert(!occurs_at(s, t, i));
    }
}

/// The version that an `Info.plist` text gives, if any.
pub fn plist_version(content: &str) -> (r: Option<String>)
    ensures
        opt_text(r) == plist_version_spec(content@),
{
    proof {
        reveal_strlit("CFBundleShortVersionString");
        reveal_strlit("<string>");
        reveal_strlit("</string>");
    }
    let c = chars_of(content);
    let p = match find_first(&c, "CFBundleShortVersionString") {
        Some(p) => p,
        None => {
            return None;
        },
    };
    proof {
        lemma_first_unique(c@, "CFBundleShortVersionString"@, p as int);
    }
    let slice = slice_to_vec(c.as_slice(), p, c.len());
    assert(slice@ =~= c@.skip(p as int));
    let s = match find_first(&slice, "<string>") {
        Some(s) => s,
        None => {
            return None;
        },
    };
    proof {
        lemma_first_unique(slice@, "<string>"@, s as int);
    }
    let val = slice_to_vec(slice.as_slice(), s + 8, slice.len());
    assert(val@ =~= slice@.skip(s + 8));
    let e = match find_first(&val, "</string>") {
        Some(e) => e,
        None => {
            return None;
        },
    };
    proof {
        lemma_first_unique(val@, "</string>"@, e as int);
    }
    let inner = slice_to_vec(val.as_slice(), 0, e);
    assert(inner@ =~= val@.take(e as int));
    let ver = trim_chars(inner.as_slice());
    if ver.len() > 0 {
        Some(string_of(ver.as_slice()))
    } else {
        None
    }
}

/// The item of an application bundle in folder `dir`; `plist` is the text of its
/// `Contents/Info.plist`, when it could be read.
pub open spec fn app_item(dir: Seq<char>, e: ListedEntry, plist: Option<Seq<char>>, it: InventoryItem) -> bool {
    let path = join_path(dir, e.name@);
    let stem = bundle_stem(e.name@);
    &&& it.id@ == "app:"@ + replace_char(unicode_lower(stem), ' ', '-')
    &&& it.name@ == stem
    &&& it.source == PackageSource::MacApp
    &&& opt_text(it.version) == match plist {
        Some(t) => plist_version_spec(t),
        None => None,
    }
    &&& it.install_path@ == path
    &&& it.size_bytes == 0
    &&& it.last_accessed_at is None
    &&& it.last_modified_at is None
    &&& it.is_top_level
    &&& it.required_by@.len() == 0
    &&& it.category == Category::GuiAppsAndMedia
    &&& opt_text(it.uninstall_cmd) == Some("rm -rf \""@ + path + "\""@)
    &&& it.reinstall_cmd is None
}

/// The bundles among the entries, in order.
pub open spec fn bundles(es: Seq<ListedEntry>) -> Seq<ListedEntry>
    decreases es.len(),
{
    if es.len() == 0 {
        Seq::empty()
    } else if is_bundle(es.last()) {
        bundles(es.drop_last()).push(es.last())
    } else {
        bundles(es.drop_last())
    }
}

/// The `Info.plist` files of the bundles among the entries of folder `dir`, in order.
pub fn plist_paths(dir: &str, entries: &Vec<ListedEntry>) -> (r: Vec<String>)
    ensures
        r@.len() == bundles(entries@).len(),
        forall|k: int| 0 <= k < r@.len() ==> (#[trigger] r@[k])@ == join_path(
            join_path(dir@, bundles(entries@)[k].name@),
            "Contents/Info.plist"@,
        ),
{
    let mut r: Vec<String> = Vec::new();
    let mut i: usize = 0;
    while i < entries.len()
        invariant
            i <= entries@.len(),
            r@.len() == bundles(entries@.take(i as int)).len(),
            forall|k: int| 0 <= k < r@.len() ==> (#[trigger] r@[k])@ == join_path(
                join_path(dir@, bundles(entries@.take(i as int))[k].name@),
                "Contents/Info.plist"@,
            ),
        decreases entries@.len() - i,
    {
        let ghost t1 = entries@.take(i + 1);
        assert(t1.drop_last() =~= entries@.take(i as int));
        assert(t1.last() == entries@[i as int]);
        let e = &entries[i];
        if e.is_dir && has_extension(e.name.as_str(), "app") {
            let b = path_join(dir, e.name.as_str());
            r.push(path_join(b.as_str(), "Contents/Info.plist"));
        }
        i = i + 1;
    }
    assert(entries@.take(i as int) =~= entries@);
    r
}

fn bundle_item(dir: &str, e: &ListedEntry, plist: &Option<String>) -> (it: InventoryItem)
    requires
        is_bundle(*e),
    ensures
        app_item(dir@, *e, opt_text(*plist), it),
{
    let n = chars_of(e.name.as_str());
    proof {
        lemma_app_name_len(n@);
    }
    let stem_chars = slice_to_vec(n.as_slice(), 0, n.len() - 4);
    assert(stem_chars@ =~= bundle_stem(e.name@));
    let stem = string_of(stem_chars.as_slice());
    let lower = to_lower(stem.as_str());
    let lc = chars_of(lower.as_str());
    let dashed = replace_char_exec(lc.as_slice(), ' ', '-');
    let path = path_join(dir, e.name.as_str());
    let mut cmd = cat("rm -rf \"", path.as_str());
    append_str(&mut cmd, "\"");
    let version = match plist {
        Some(t) => plist_version(t.as_str()),
        None => None,
    };
    InventoryItem {
        id: cat("app:", string_of(dashed.as_slice()).as_str()),
        name: stem,
        source: PackageSource::MacApp,
        version,
        install_path: path,
        size_bytes: 0,
        last_accessed_at: None,
        last_modified_at: None,
        is_top_level: true,
        required_by: Vec::new(),
        category: Category::GuiAppsAndMedia,
        uninstall_cmd: Some(cmd),
        reinstall_cmd: None,
    }
}

/// The items of the bundles among the entries of folder `dir`, in order;
/// `plists` holds, for each path of `plist_paths`, the file's text when it could
/// be read.
pub fn app_items(dir: &str, entries: &Vec<ListedEntry>, plists: &Vec<Option<String>>) -> (r: Vec<InventoryItem>)
    requires
        plists@.len() == bundles(entries@).len(),
    ensures
        r@.len() == bundles(entries@).len(),
        forall|k: int| 0 <= k < r@.len() ==> app_item(dir@, bundles(entries@)[k], opt_text(plists@[k]), #[trigger] r@[k]),
{
    let mut r: Vec<InventoryItem> = Vec::new();
    let mut i: usize = 0;
    while i < entries.len()
        invariant
            i <= entries@.len(),
            plists@.len() == bundles(entries@).len(),
            r@.len() == bundles(entries@.take(i as int)).len(),
            bundles(entries@.take(i as int)).len() <= bundles(entries@).len(),
            forall|k: int| 0 <= k < r@.len() ==> bundles(entries@.take(i as int))[k] == bundles(entries@)[k],
            forall|k: int| 0 <= k < r@.len() ==> app_item(dir@, bundles(entries@)[k], opt_text(plists@[k]), #[trigger] r@[k]),
        decreases entries@.len() - i,
    {
        let ghost t1 = entries@.take(i + 1);
        assert(t1.drop_last() =~= entries@.take(i as int));
        assert(t1.last() == entries@[i as int]);
        proof {
            lemma_bundles_prefix(entries@, i + 1);
        }
        let e = &entries[i];
        if e.is_dir && has_extension(e.name.as_str(), "app") {
            let k = r.len();
            let it = bundle_item(dir, e, &plists[k]);
            let ghost before = r@;
            r.push(it);
            proof {
                assert forall|q: int| 0 <= q < r@.len() implies app_item(dir@, bundles(entries@)[q], opt_text(plists@[q]), #[trigger] r@[q]) by {
                    if q < k {
                        assert(r@[q] == before[q]);
                    }
                }
            }
        }
        i = i + 1;
    }
    assert(entries@.take(i as int) =~= entries@);
    r
}

proof fn lemma_app_name_len(n: Seq<char>)
    requires
        extension_of(n) == Some("app"@),
    ensures
        n.len() >= 4,
{
    reveal_strlit("app");
    let i = choose|i: int| 0 < i < n.len() && n[i] == '.' && forall|j: int| i < j < n.len() ==> n[j] != '.';
    assert(n.subrange(i + 1, n.len() as int).len() == 3);
}

proof fn lemma_bundles_prefix(es: Seq<ListedEntry>, i: int)
    requires
        0 <= i <= es.len(),
    ensures
        bundles(es.take(i)).len() <= bundles(es).len(),
        forall|k: int| 0 <= k < bundles(es.take(i)).len() ==> bundles(es.take(i))[k] == bundles(es)[k],
        i < es.len() && is_bundle(es[i]) ==> bundles(es.take(i)).len() < bundles(es).len()
            && bundles(es)[bundles(es.take(i)).len() as int] == es[i],
    decreases es.len() - i,
{
    if i < es.len() {
        lemma_bundles_prefix(es, i + 1);
        assert(es.take(i + 1).drop_last() =~= es.take(i));
        assert(es.take(i + 1).last() == es[i]);
    } else {
        assert(es.take(i) =~= es);
    }
}

} // verus!
