use vstd::prelude::*;
use crate::collectors::json::{Json, json_get, json_str, json_text_value, parse_json};
use crate::collectors::brew::text_or_empty;
use crate::collectors::probe::{home_or_tmp, opt_text};
use crate::doc::strs;
use crate::models::category::Category;
use crate::models::item::{InventoryItem, PackageSource};
use crate::paths::{join_path, path_join};
use crate::text::{cat, chars_of, has_prefix, owned, split_chars, split_spec, starts_with, str_eq, string_of, trim_spec, trim_str};

verus! {

/// The build-cache and Docker collector: the home directory the caches live under.
pub struct CacheCollector {
    pub home_dir: String,
}

/// The cache directories looked at, under the home directory, in order.
pub open spec fn cache_dirs(home: Seq<char>) -> Seq<Seq<char>> {
    seq![
        join_path(home, ".cargo/registry/cache"@),
        join_path(home, "Library/Caches/Homebrew"@),
        join_path(home, ".cache/uv"@),
        join_path(home, "go/pkg/mod/cache"@),
    ]
}

/// The id, name and cleanup command of each cache directory, in the same order.
pub open spec fn cache_info(k: int) -> (Seq<char>, Seq<char>, Seq<char>) {
    if k == 0 {
        ("cache:cargo-registry"@, "Cargo Registry Download Cache"@,
            "cargo cache --autoclean 2>/dev/null || rm -rf ~/.cargo/registry/cache/*"@)
    } else if k == 1 {
        ("cache:brew-downloads"@, "Homebrew Bottle Download Cache"@, "brew cleanup --prune=all"@)
    } else if k == 2 {
        ("cache:uv-wheels"@, "UV Python Wheels & Source Cache"@, "uv cache clean"@)
    } else {
        ("cache:go-modcache"@, "Go Module Download Cache"@, "go clean -modcache"@)
    }
}

/// The item of the cache directory number `k`.
pub open spec fn cache_item(home: Seq<char>, k: int, it: InventoryItem) -> bool {
    &&& it.id@ == cache_info(k).0
    &&& it.name@ == cache_info(k).1
    &&& it.source == PackageSource::BuildCache
    &&& it.version is None
    &&& it.install_path@ == cache_dirs(home)[k]
    &&& it.size_bytes == 0
    &&& it.last_accessed_at is None
    &&& it.last_modified_at is None
    &&& it.is_top_level
    &&& it.required_by@.len() == 0
    &&& it.category == Category::BuildArtifactsAndCaches
    &&& opt_text(it.uninstall_cmd) == Some(cache_info(k).2)
    &&& it.reinstall_cmd is None
}

/// `items` are the items of the cache directories among the first `n` that exist, in order.
pub open spec fn cache_items_ok(home: Seq<char>, ex: Seq<bool>, n: int, items: Seq<InventoryItem>) -> bool
    decreases n,
{
    if n <= 0 {
        items.len() == 0
    } else if !ex[n - 1] {
        cache_items_ok(home, ex, n - 1, items)
    } else {
        items.len() > 0 && cache_items_ok(home, ex, n - 1, items.drop_last()) && cache_item(home, n - 1, items.last())
    }
}

impl CacheCollector {
    /// A collector for the caches under `$HOME` (or `/tmp`).
    pub fn new(home: Option<String>) -> (r: Self)
        ensures
            r.home_dir@ == home_or_tmp(opt_text(home)),
    {
        let home_dir = match home {
            Some(h) => h,
            None => owned("/tmp"),
        };
        CacheCollector { home_dir }
    }

    /// The collector's name.
    pub fn name(&self) -> (r: &'static str)
        ensures
            r@ == "build_caches_and_docker"@,
    {
        "build_caches_and_docker"
    }

    /// The collector always runs.
    pub fn is_available(&self) -> (r: bool)
        ensures
            r,
    {
        true
    }

    /// The cache directories to look for, in order.
    pub fn cache_paths(&self) -> (r: Vec<String>)
        ensures
            strs(r@) == cache_dirs(self.home_dir@),
    {
        let mut r: Vec<String> = Vec::new();
        r.push(path_join(self.home_dir.as_str(), ".cargo/registry/cache"));
        r.push(path_join(self.home_dir.as_str(), "Library/Caches/Homebrew"));
        r.push(path_join(self.home_dir.as_str(), ".cache/uv"));
        r.push(path_join(self.home_dir.as_str(), "go/pkg/mod/cache"));
        assert(strs(r@) =~= cache_dirs(self.home_dir@));
        r
    }

    /// The items of the cache directories that exist (`exists` tells, for each
    /// path of `cache_paths`, whether it does).
    pub fn cache_items(&self, exists: &Vec<bool>) -> (r: Vec<InventoryItem>)
        requires
            exists@.len() == 4,
        ensures
            cache_items_ok(self.home_dir@, exists@, 4, r@),
    {
        let paths = self.cache_paths();
        assert(paths@.len() == strs(paths@).len());
        let mut r: Vec<InventoryItem> = Vec::new();
        let mut k: usize = 0;
        while k < 4
            invariant
                k <= 4,
                exists@.len() == 4,
                paths@.len() == 4,
                strs(paths@) == cache_dirs(self.home_dir@),
                cache_items_ok(self.home_dir@, exists@, k as int, r@),
            decreases 4 - k,
        {
            if exists[k] {
                let (id, name, cmd) = if k == 0 {
                    ("cache:cargo-registry", "Cargo Registry Download Cache",
                        "cargo cache --autoclean 2>/dev/null || rm -rf ~/.cargo/registry/cache/*")
                } else if k == 1 {
                    ("cache:brew-downloads", "Homebrew Bottle Download Cache", "brew cleanup --prune=all")
                } else if k == 2 {
                    ("cache:uv-wheels", "UV Python Wheels & Source Cache", "uv cache clean")
                } else {
                    ("cache:go-modcache", "Go Module Download Cache", "go clean -modcache")
                };
                assert(strs(paths@)[k as int] == paths@[k as int]@);
                let ghost before = r@;
                r.push(InventoryItem {
                    id: owned(id),
                    name: owned(name),
                    source: PackageSource::BuildCache,
                    version: None,
                    install_path: owned(paths[k].as_str()),
                    size_bytes: 0,
                    last_accessed_at: None,
                    last_modified_at: None,
                    is_top_level: true,
                    required_by: Vec::new(),
                    category: Category::BuildArtifactsAndCaches,
                    uninstall_cmd: Some(owned(cmd)),
                    reinstall_cmd: None,
                });
                assert(r@.drop_last() =~= before);
            }
            k = k + 1;
        }
        r
    }
}

/// The type of a row of `docker system df --format '{{json .}}'` (empty when missing).
pub open spec fn df_type(row: Json) -> Seq<char> {
    text_or_empty(json_str(json_get(row, "Type"@)))
}

/// The reclaimable space of a row, as Docker prints it (empty when missing).
pub open spec fn df_reclaimable(row: Json) -> Seq<char> {
    text_or_empty(json_str(json_get(row, "Reclaimable"@)))
}

/// The id and cleanup command for a kind of reclaimable Docker data, if known.
pub open spec fn docker_kind(t: Seq<char>) -> Option<(Seq<char>, Seq<char>)> {
    if t == "Build Cache"@ {
        Some(("docker:build-cache"@, "docker builder prune -f"@))
    } else if t == "Images"@ {
        Some(("docker:dangling-images"@, "docker image prune -f"@))
    } else if t == "Containers"@ {
        Some(("docker:stopped-containers"@, "docker container prune -f"@))
    } else {
        None
    }
}

/// Whether a row is worth an item: something is reclaimable and its kind is known.
pub open spec fn docker_row_kept(row: Json) -> bool {
    let r = df_reclaimable(row);
    r.len() > 0 && !has_prefix(r, "0B"@) && docker_kind(df_type(row)) is Some
}

/// The item of a kept row.
pub open spec fn docker_item(row: Json, it: InventoryItem) -> bool {
    let k = docker_kind(df_type(row))->0;
    &&& it.id@ == k.0
    &&& it.name@ == "Docker Reclaimable "@ + df_type(row)
    &&& it.source == PackageSource::DockerImage
    &&& it.version is None
    &&& it.install_path@ == "/var/run/docker.sock"@
    &&& it.size_bytes == 0
    &&& it.last_accessed_at is None
    &&& it.last_modified_at is None
    &&& it.is_top_level
    &&& it.required_by@.len() == 0
    &&& it.category == Category::BuildArtifactsAndCaches
    &&& opt_text(it.uninstall_cmd) == Some(k.1)
    &&& it.reinstall_cmd is None
}

/// `items` are the items of the kept rows, in order.
pub open spec fn docker_items_ok(rows: Seq<Json>, items: Seq<InventoryItem>) -> bool
    decreases rows.len(),
{
    if rows.len() == 0 {
        items.len() == 0
    } else if !docker_row_kept(rows.last()) {
        docker_items_ok(rows.drop_last(), items)
    } else {
        items.len() > 0 && docker_items_ok(rows.drop_last(), items.drop_last()) && docker_item(rows.last(), items.last())
    }
}

fn text_of(row: &Json, key: &str) -> (r: String)
    ensures
        r@ == text_or_empty(json_str(json_get(*row, key@))),
{
    match row.get(key) {
        Some(x) => match x.as_str() {
            Some(s) => owned(s.as_str()),
            None => String::new(),
        },
        None => String::new(),
    }
}

/// The item of one row of `docker system df`, when it is kept.
pub fn docker_row(row: &Json) -> (r: Option<InventoryItem>)
    ensures
        r is Some <==> docker_row_kept(*row),
        r matches Some(it) ==> docker_item(*row, it),
{
    let t = text_of(row, "Type");
    let rec = text_of(row, "Reclaimable");
    if chars_of(rec.as_str()).len() == 0 || starts_with(rec.as_str(), "0B") {
        return None;
    }
    let (id, cmd) = if str_eq(t.as_str(), "Build Cache") {
        ("docker:build-cache", "docker builder prune -f")
    } else if str_eq(t.as_str(), "Images") {
        ("docker:dangling-images", "docker image prune -f")
    } else if str_eq(t.as_str(), "Containers") {
        ("docker:stopped-containers", "docker container prune -f")
    } else {
        return None;
    };
    Some(InventoryItem {
        id: owned(id),
        name: cat("Docker Reclaimable ", t.as_str()),
        source: PackageSource::DockerImage,
        version: None,
        install_path: owned("/var/run/docker.sock"),
        size_bytes: 0,
        last_accessed_at: None,
        last_modified_at: None,
        is_top_level: true,
        required_by: Vec::new(),
        category: Category::BuildArtifactsAndCaches,
        uninstall_cmd: Some(owned(cmd)),
        reinstall_cmd: None,
    })
}

/// The items of the rows of `docker system df`, in order.
pub fn docker_items(rows: &Vec<Json>) -> (r: Vec<InventoryItem>)
    ensures
        docker_items_ok(rows@, r@),
{
    let mut r: Vec<InventoryItem> = Vec::new();
    let mut i: usize = 0;
    while i < rows.len()
        invariant
            i <= rows@.len(),
            docker_items_ok(rows@.take(i as int), r@),
        decreases rows@.len() - i,
    {
        let ghost t1 = rows@.take(i + 1);
        assert(t1.drop_last() =~= rows@.take(i as int));
        assert(t1.last() == rows@[i as int]);
        match docker_row(&rows[i]) {
            Some(it) => {
                let ghost before = r@;
                r.push(it);
                assert(r@.drop_last() =~= before);
            },
            None => {},
        }
        i = i + 1;
    }
    assert(rows@.take(i as int) =~= rows@);
    r
}

/// The rows of `docker system df --format '{{json .}}'`: for each line, in order,
/// the document of its trimmed text, where that text is not empty and is JSON.
pub open spec fn docker_row_values(lines: Seq<Seq<char>>) -> Seq<Json>
    decreases lines.len(),
{
    if lines.len() == 0 {
        Seq::empty()
    } else {
        let prev = docker_row_values(lines.drop_last());
        let t = trim_spec(lines.last());
        if t.len() == 0 {
            prev
        } else {
            match json_text_value(t) {
                Some(j) => prev.push(j),
                None => prev,
            }
        }
    }
}

/// Reads the output of `docker system df` line by line (see `docker_row_values`).
pub fn docker_rows(stdout: &str) -> (r: Vec<Json>)
    ensures
        r@ == docker_row_values(split_spec(stdout@, seq!['\n'])),
{
    let cs = chars_of(stdout);
    let seps: Vec<char> = vec!['\n'];
    assert(seps@ =~= seq!['\n']);
    let lines = split_chars(cs.as_slice(), seps.as_slice());
    let ghost ls = split_spec(stdout@, seq!['\n']);
    let mut rows: Vec<Json> = Vec::new();
    let mut i: usize = 0;
    while i < lines.len()
        invariant
            i <= lines@.len(),
            lines@.len() == ls.len(),
            ls == split_spec(stdout@, seq!['\n']),
            forall|k: int| 0 <= k < lines@.len() ==> #[trigger] lines@[k]@ == ls[k],
            rows@ == docker_row_values(ls.take(i as int)),
        decreases lines@.len() - i,
    {
        proof {
            assert(ls.take(i + 1).drop_last() =~= ls.take(i as int));
            assert(ls.take(i + 1).last() == ls[i as int]);
        }
        let t = trim_str(string_of(lines[i].as_slice()).as_str());
        if chars_of(t.as_str()).len() > 0 {
            match parse_json(t.as_str()) {
                Some(j) => rows.push(j),
                None => {},
            }
        }
        i = i + 1;
    }
    assert(ls.take(i as int) =~= ls);
    rows
}

} // verus!
