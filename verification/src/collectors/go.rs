use vstd::prelude::*;
use crate::collectors::probe::{ListedEntry, opt_text};
use crate::models::category::Category;
use crate::models::item::{InventoryItem, PackageSource};
use crate::paths::{join_path, path_join};
use crate::text::{append_str, cat, chars_of, owned};

verus! {

/// The Go collector: the directory where `go install` puts binaries.
pub struct GoCollector {
    pub go_bin_dir: String,
}

/// `$GOPATH/bin`, else `~/go/bin`, else `/tmp/go/bin`.
pub open spec fn go_bin_dir_spec(gopath: Option<Seq<char>>, home: Option<Seq<char>>) -> Seq<char> {
    match gopath {
        Some(g) => join_path(g, "bin"@),
        None => match home {
            Some(h) => join_path(h, "go/bin"@),
            None => "/tmp/go/bin"@,
        },
    }
}

impl GoCollector {
    /// A collector for the binary directory given by `$GOPATH` or `$HOME`.
    pub fn new(gopath: Option<String>, home: Option<String>) -> (r: Self)
        ensures
            r.go_bin_dir@ == go_bin_dir_spec(opt_text(gopath), opt_text(home)),
    {
        let go_bin_dir = match gopath {
            Some(g) => path_join(g.as_str(), "bin"),
            None => match home {
                Some(h) => path_join(h.as_str(), "go/bin"),
                None => owned("/tmp/go/bin"),
            },
        };
        GoCollector { go_bin_dir }
    }

    /// The collector's name.
    pub fn name(&self) -> (r: &'static str)
        ensures
            r@ == "go"@,
    {
        "go"
    }
}

/// Whether an entry of the binary directory is an installed binary: a regular
/// file whose name does not begin with `.`.
pub open spec fn go_entry_kept(e: ListedEntry) -> bool {
    e.is_file && !(e.name@.len() > 0 && e.name@[0] == '.')
}

/// The item of an installed binary.
pub open spec fn go_item(dir: Seq<char>, e: ListedEntry, it: InventoryItem) -> bool {
    let path = join_path(dir, e.name@);
    &&& it.id@ == "go:"@ + e.name@
    &&& it.name@ == e.name@
    &&& it.source == PackageSource::GoBin
    &&& it.version is None
    &&& it.install_path@ == path
    &&& it.size_bytes == 0
    &&& it.last_accessed_at is None
    &&& it.last_modified_at is None
    &&& it.is_top_level
    &&& it.required_by@.len() == 0
    &&& it.category == Category::CliDeveloperTools
    &&& opt_text(it.uninstall_cmd) == Some("rm \""@ + path + "\""@)
    &&& it.reinstall_cmd is None
}

/// `items` are the items of the binaries among `es`, in order.
pub open spec fn go_items_ok(dir: Seq<char>, es: Seq<ListedEntry>, items: Seq<InventoryItem>) -> bool
    decreases es.len(),
{
    if es.len() == 0 {
        items.len() == 0
    } else if !go_entry_kept(es.last()) {
        go_items_ok(dir, es.drop_last(), items)
    } else {
        items.len() > 0 && go_items_ok(dir, es.drop_last(), items.drop_last()) && go_item(dir, es.last(), items.last())
    }
}

/// The items of the binary directory's listing, in order.
pub fn go_items(dir: &str, entries: &Vec<ListedEntry>) -> (r: Vec<InventoryItem>)
    ensures
        go_items_ok(dir@, entries@, r@),
{
    let mut r: Vec<InventoryItem> = Vec::new();
    let mut i: usize = 0;
    while i < entries.len()
        invariant
            i <= entries@.len(),
            go_items_ok(dir@, entries@.take(i as int), r@),
        decreases entries@.len() - i,
    {
        let ghost t1 = entries@.take(i + 1);
        assert(t1.drop_last() =~= entries@.take(i as int));
        assert(t1.last() == entries@[i as int]);
        let e = &entries[i];
        let n = chars_of(e.name.as_str());
        let hidden = n.len() > 0 && n[0] == '.';
        if e.is_file && !hidden {
            let path = path_join(dir, e.name.as_str());
            let mut cmd = cat("rm \"", path.as_str());
            append_str(&mut cmd, "\"");
            let ghost before = r@;
            r.push(InventoryItem {
                id: cat("go:", e.name.as_str()),
                name: owned(e.name.as_str()),
                source: PackageSource::GoBin,
                version: None,
                install_path: path,
                size_bytes: 0,
                last_accessed_at: None,
                last_modified_at: None,
                is_top_level: true,
                required_by: Vec::new(),
                category: Category::CliDeveloperTools,
                uninstall_cmd: Some(cmd),
                reinstall_cmd: None,
            });
            assert(r@.drop_last() =~= before);
        }
        i = i + 1;
    }
    assert(entries@.take(i as int) =~= entries@);
    r
}

} // verus!
