use vstd::prelude::*;
use crate::doc::strs;
use crate::models::item::{AssociatedMetadata, InventoryItem, PackageSource};
use crate::order::{lex_lt, sort_indices, sorted_by_keys, key_views};
use crate::paths::{
    contains_path, contains_path_exec, extension_of, has_extension, join_path, path_eq,
    path_eq_exec, path_join,
};
use crate::text::{
    append_str, chars_of, lemma_split_first, has_prefix, has_substring, owned, replace_char, replace_char_exec,
    seq_eq, split_chars, split_spec, starts_with, str_eq, string_of, strip_leading,
    strip_leading_chars, to_lower, to_upper, trim_chars, trim_spec, unicode_lower, unicode_upper,
    utf8_len, utf8_len_at_least, contains_str,
};

verus! {

// ---------------------------------------------------------------------------
// Name normalization
// ---------------------------------------------------------------------------

/// The lower-cased name without leading `@`, with `/` and spaces turned into `-`.
pub open spec fn name_clean(lower: Seq<char>) -> Seq<char> {
    replace_char(replace_char(strip_leading(lower, '@'), '/', '-'), ' ', '-')
}

/// The part of the clean name before its first `@` (the clean name itself when that part is empty).
pub open spec fn stem_of(lower: Seq<char>) -> Seq<char> {
    let c = name_clean(lower);
    let first = split_spec(c, seq!['@'])[0];
    if first.len() == 0 {
        c
    } else {
        first
    }
}

/// A stem is searched for only when it is at least two bytes long once trimmed, and
/// neither `.` nor `..` (a stem holds no `/`, so `..` is its only parent step).
pub open spec fn stem_usable(stem: Seq<char>) -> bool {
    !(utf8_len(trim_spec(stem)) < 2 || stem == seq!['.'] || stem == seq!['.', '.'])
}

// ---------------------------------------------------------------------------
// Candidate paths
// ---------------------------------------------------------------------------

pub open spec fn config_candidates(home: Seq<char>, stem: Seq<char>) -> Seq<Seq<char>> {
    seq![
        join_path(home, ".config/"@ + stem),
        join_path(home, ".config/"@ + stem + ".toml"@),
        join_path(home, "."@ + stem + "rc"@),
        join_path(home, "."@ + stem),
        join_path(home, "Library/Preferences/"@ + stem + ".plist"@),
        join_path(home, "Library/Preferences/com."@ + stem + ".plist"@),
        "/opt/homebrew/etc/"@ + stem,
        "/usr/local/etc/"@ + stem,
    ]
}

pub open spec fn data_candidates(home: Seq<char>, name: Seq<char>, stem: Seq<char>) -> Seq<Seq<char>> {
    seq![
        join_path(home, "Library/Application Support/"@ + name),
        join_path(home, "Library/Application Support/"@ + stem),
        join_path(home, ".local/share/"@ + stem),
        "/opt/homebrew/var/"@ + stem,
        "/usr/local/var/"@ + stem,
    ]
}

pub open spec fn log_candidates(home: Seq<char>, name: Seq<char>, stem: Seq<char>) -> Seq<Seq<char>> {
    seq![
        join_path(home, "Library/Logs/"@ + name),
        join_path(home, "Library/Logs/"@ + stem),
        "/opt/homebrew/var/log/"@ + stem,
        "/usr/local/var/log/"@ + stem,
        "/var/log/"@ + stem,
    ]
}

pub open spec fn cache_candidates(home: Seq<char>, name: Seq<char>, stem: Seq<char>) -> Seq<Seq<char>> {
    seq![
        join_path(home, "Library/Caches/"@ + name),
        join_path(home, "Library/Caches/"@ + stem),
        join_path(home, ".cache/"@ + stem),
    ]
}

/// The paths to probe for one item.
pub struct MetadataCandidates {
    pub stem: String,
    pub configs: Vec<String>,
    pub data_dirs: Vec<String>,
    pub logs: Vec<String>,
    pub caches: Vec<String>,
}

/// One entry of a directory listing.
pub struct DirEntryInfo {
    pub name: String,
    pub is_dir: bool,
}

/// What the file system says of one path.
pub struct PathProbe {
    pub exists: bool,
    pub is_dir: bool,
    pub is_file: bool,
    /// The directory's entries, when it is a readable directory.
    pub entries: Vec<DirEntryInfo>,
}

/// The probes of all candidate paths, list by list.
pub struct CandidateProbes {
    pub configs: Vec<PathProbe>,
    pub data_dirs: Vec<PathProbe>,
    pub logs: Vec<PathProbe>,
    pub caches: Vec<PathProbe>,
}

// ---------------------------------------------------------------------------
// Assembly
// ---------------------------------------------------------------------------

/// Log files (`*.log`) and `logs` directories found among a directory's entries, added once each.
pub open spec fn add_entry_logs(logs: Seq<Seq<char>>, dir: Seq<char>, entries: Seq<DirEntryInfo>) -> Seq<Seq<char>>
    decreases entries.len(),
{
    if entries.len() == 0 {
        logs
    } else {
        let prev = add_entry_logs(logs, dir, entries.drop_last());
        let e = entries.last();
        let ep = join_path(dir, e.name@);
        let step = if extension_of(e.name@) == Some("log"@) && !contains_path(prev, ep) {
            prev.push(ep)
        } else {
            prev
        };
        if e.is_dir && e.name@ == "logs"@ && !contains_path(step, ep) {
            step.push(ep)
        } else {
            step
        }
    }
}

/// The configuration paths kept (and the logs found inside them) after the first `n` candidates.
pub open spec fn scan_configs(home: Seq<char>, cands: Seq<Seq<char>>, probes: Seq<PathProbe>, n: int) -> (Seq<Seq<char>>, Seq<Seq<char>>)
    decreases n,
{
    if n <= 0 {
        (Seq::empty(), Seq::empty())
    } else {
        let (cs, ls) = scan_configs(home, cands, probes, n - 1);
        let p = cands[n - 1];
        let pr = probes[n - 1];
        if pr.exists && !path_eq(p, home) && !path_eq(p, join_path(home, ".config"@)) && !contains_path(cs, p) {
            (cs.push(p), if pr.is_dir { add_entry_logs(ls, p, pr.entries@) } else { ls })
        } else {
            (cs, ls)
        }
    }
}

/// The data directories kept (and the logs, extended by those found inside them) after the first `n` candidates.
pub open spec fn scan_data(home: Seq<char>, install: Seq<char>, cands: Seq<Seq<char>>, probes: Seq<PathProbe>, n: int, logs0: Seq<Seq<char>>) -> (Seq<Seq<char>>, Seq<Seq<char>>)
    decreases n,
{
    if n <= 0 {
        (Seq::empty(), logs0)
    } else {
        let (ds, ls) = scan_data(home, install, cands, probes, n - 1, logs0);
        let p = cands[n - 1];
        let pr = probes[n - 1];
        if pr.exists && !path_eq(p, install) && !path_eq(p, home) && !contains_path(ds, p) {
            (ds.push(p), if pr.is_dir { add_entry_logs(ls, p, pr.entries@) } else { ls })
        } else {
            (ds, ls)
        }
    }
}

/// The logs after adding the first `n` log candidates.
pub open spec fn scan_logs(home: Seq<char>, cands: Seq<Seq<char>>, probes: Seq<PathProbe>, n: int, logs0: Seq<Seq<char>>) -> Seq<Seq<char>>
    decreases n,
{
    if n <= 0 {
        logs0
    } else {
        let ls = scan_logs(home, cands, probes, n - 1, logs0);
        let p = cands[n - 1];
        if probes[n - 1].exists && !path_eq(p, home) && !path_eq(p, join_path(home, "Library/Logs"@))
            && !contains_path(ls, p) {
            ls.push(p)
        } else {
            ls
        }
    }
}

/// The caches kept after the first `n` cache candidates.
pub open spec fn scan_caches(home: Seq<char>, install: Seq<char>, cands: Seq<Seq<char>>, probes: Seq<PathProbe>, n: int) -> Seq<Seq<char>>
    decreases n,
{
    if n <= 0 {
        Seq::empty()
    } else {
        let cs = scan_caches(home, install, cands, probes, n - 1);
        let p = cands[n - 1];
        if probes[n - 1].exists && !path_eq(p, install) && !path_eq(p, home) && !path_eq(
            p,
            join_path(home, ".cache"@),
        ) && !contains_path(cs, p) {
            cs.push(p)
        } else {
            cs
        }
    }
}


// ---------------------------------------------------------------------------
// Environment variables
// ---------------------------------------------------------------------------

/// Whether an environment variable belongs to the item's toolchain, by its key.
pub open spec fn env_key_matches(src: PackageSource, id: Seq<char>, k: Seq<char>) -> bool {
    match src {
        PackageSource::CargoBin => has_prefix(k, "CARGO_"@) || has_prefix(k, "RUST"@),
        PackageSource::Gem => has_prefix(k, "GEM_"@) || has_prefix(k, "BUNDLE_"@) || has_prefix(k, "RUBY"@),
        PackageSource::MiseRuntime => if has_prefix(id, "mise:ruby"@) {
            has_prefix(k, "GEM_"@) || has_prefix(k, "BUNDLE_"@) || has_prefix(k, "RUBY"@) || has_prefix(k, "MISE_"@)
        } else if has_prefix(id, "mise:node"@) {
            has_prefix(k, "NODE_"@) || has_prefix(k, "NPM_"@) || has_prefix(k, "MISE_"@)
        } else if has_prefix(id, "mise:python"@) {
            has_prefix(k, "PYTHON"@) || has_prefix(k, "VIRTUAL_ENV"@) || has_prefix(k, "MISE_"@)
        } else {
            has_prefix(k, "MISE_"@)
        },
        PackageSource::NpmGlobal => has_prefix(k, "NODE_"@) || has_prefix(k, "NPM_"@) || has_prefix(k, "BUN_"@),
        PackageSource::UvTool => has_prefix(k, "UV_"@) || has_prefix(k, "PYTHON"@) || k == "VIRTUAL_ENV"@,
        PackageSource::GoBin => has_prefix(k, "GO"@),
        PackageSource::BrewFormula | PackageSource::BrewCask => has_prefix(k, "HOMEBREW_"@),
        PackageSource::DockerImage => has_prefix(k, "DOCKER_"@),
        _ => false,
    }
}

/// The key of a variable holds the upper-cased stem (of at least three bytes).
pub open spec fn name_in_key(upper: Seq<char>, k: Seq<char>) -> bool {
    upper.len() > 0 && utf8_len(upper) >= 3 && has_substring(k, upper)
}

/// The variables selected from the first `n` of the environment, each key once (the first occurrence wins).
pub open spec fn env_selected(src: PackageSource, id: Seq<char>, upper: Seq<char>, env: Seq<(String, String)>, n: int) -> Seq<(String, String)>
    decreases n,
{
    if n <= 0 {
        Seq::empty()
    } else {
        let prev = env_selected(src, id, upper, env, n - 1);
        let kv = env[n - 1];
        if (env_key_matches(src, id, kv.0@) || name_in_key(upper, kv.0@)) && !(exists|j: int|
            0 <= j < prev.len() && prev[j].0@ == kv.0@) {
            prev.push(kv)
        } else {
            prev
        }
    }
}

/// The code points of a string, the order of which is the order of `String`.
pub open spec fn code_points(s: Seq<char>) -> Seq<u64> {
    s.map_values(|c: char| c as u64)
}

pub open spec fn env_sort_keys(v: Seq<(String, String)>) -> Seq<Seq<u64>> {
    v.map_values(|kv: (String, String)| code_points(kv.0@))
}

/// The upper-cased stem with `-` turned into `_`.
pub open spec fn env_name_of(stem: Seq<char>) -> Seq<char> {
    replace_char(unicode_upper(stem), '-', '_')
}

// ---------------------------------------------------------------------------
// Purge commands
// ---------------------------------------------------------------------------

/// `rm -rf "p"`.
pub open spec fn rm_dir_cmd(p: Seq<char>) -> Seq<char> {
    "rm -rf \""@ + p + "\""@
}

/// `rm -f "p"`.
pub open spec fn rm_file_cmd(p: Seq<char>) -> Seq<char> {
    "rm -f \""@ + p + "\""@
}

/// The path has a `..` component: it may name a directory above the one it spells.
pub open spec fn has_parent_step(p: Seq<char>) -> bool {
    split_spec(p, seq!['/']).contains(seq!['.', '.'])
}

/// The purge commands for the first `n` log paths: directories and files only, and
/// never a path with a `..` component.
pub open spec fn log_purges(logs: Seq<String>, probes: Seq<PathProbe>, n: int) -> Seq<Seq<char>>
    decreases n,
{
    if n <= 0 {
        Seq::empty()
    } else {
        let prev = log_purges(logs, probes, n - 1);
        if has_parent_step(logs[n - 1]@) {
            prev
        } else if probes[n - 1].is_dir {
            prev.push(rm_dir_cmd(logs[n - 1]@))
        } else if probes[n - 1].is_file {
            prev.push(rm_file_cmd(logs[n - 1]@))
        } else {
            prev
        }
    }
}

/// The purge commands for the first `n` cache paths: directories only, and never a
/// path with a `..` component.
pub open spec fn cache_purges(caches: Seq<String>, probes: Seq<PathProbe>, n: int) -> Seq<Seq<char>>
    decreases n,
{
    if n <= 0 {
        Seq::empty()
    } else {
        let prev = cache_purges(caches, probes, n - 1);
        if probes[n - 1].is_dir && !has_parent_step(caches[n - 1]@) {
            prev.push(rm_dir_cmd(caches[n - 1]@))
        } else {
            prev
        }
    }
}

/// A command removes one path (a directory or a file) that has no `..` component.
pub open spec fn removes_plain_path(cmd: Seq<char>) -> bool {
    exists|p: Seq<char>| !has_parent_step(p) && (cmd == rm_dir_cmd(p) || cmd == rm_file_cmd(p))
}

proof fn lemma_log_purges_plain(logs: Seq<String>, probes: Seq<PathProbe>, n: int)
    ensures
        forall|k: int| 0 <= k < log_purges(logs, probes, n).len() ==> removes_plain_path(
            #[trigger] log_purges(logs, probes, n)[k],
        ),
    decreases n,
{
    if n > 0 {
        lemma_log_purges_plain(logs, probes, n - 1);
        let prev = log_purges(logs, probes, n - 1);
        let p = logs[n - 1]@;
        assert forall|k: int| 0 <= k < log_purges(logs, probes, n).len() implies removes_plain_path(
            #[trigger] log_purges(logs, probes, n)[k],
        ) by {
            if k < prev.len() {
                assert(log_purges(logs, probes, n)[k] == prev[k]);
            } else {
                assert(!has_parent_step(p));
            }
        }
    }
}

proof fn lemma_cache_purges_plain(caches: Seq<String>, probes: Seq<PathProbe>, n: int)
    ensures
        forall|k: int| 0 <= k < cache_purges(caches, probes, n).len() ==> removes_plain_path(
            #[trigger] cache_purges(caches, probes, n)[k],
        ),
    decreases n,
{
    if n > 0 {
        lemma_cache_purges_plain(caches, probes, n - 1);
        let prev = cache_purges(caches, probes, n - 1);
        let p = caches[n - 1]@;
        assert forall|k: int| 0 <= k < cache_purges(caches, probes, n).len() implies removes_plain_path(
            #[trigger] cache_purges(caches, probes, n)[k],
        ) by {
            if k < prev.len() {
                assert(cache_purges(caches, probes, n)[k] == prev[k]);
            } else {
                assert(!has_parent_step(p));
            }
        }
    }
}

// ---------------------------------------------------------------------------
// Executable functions
// ---------------------------------------------------------------------------

fn cat(a: &str, b: &str) -> (r: String)
    ensures
        r@ == a@ + b@,
{
    let mut s = owned(a);
    append_str(&mut s, b);
    s
}

fn cat3(a: &str, b: &str, c: &str) -> (r: String)
    ensures
        r@ == a@ + b@ + c@,
{
    let mut s = owned(a);
    append_str(&mut s, b);
    append_str(&mut s, c);
    s
}

/// The stem of an already lower-cased name.
pub fn stem_from_lower(lower: &str) -> (r: String)
    ensures
        r@ == stem_of(lower@),
{
    let l = chars_of(lower);
    let a = strip_leading_chars(&l, '@');
    let b = replace_char_exec(&a, '/', '-');
    let c = replace_char_exec(&b, ' ', '-');
    let seps = vec!['@'];
    assert(seps@ =~= seq!['@']);
    let pieces = split_chars(&c, &seps);
    proof {
        crate::text::lemma_split_nonempty(c@, seq!['@']);
    }
    let first = &pieces[0];
    if first.len() == 0 {
        string_of(&c)
    } else {
        string_of(first)
    }
}

/// Whether a path has a `..` component.
pub fn parent_step(p: &str) -> (r: bool)
    ensures
        r == has_parent_step(p@),
{
    let cs = chars_of(p);
    let seps: Vec<char> = vec!['/'];
    let parts = split_chars(cs.as_slice(), seps.as_slice());
    assert(seps@ =~= seq!['/']);
    let mut i: usize = 0;
    while i < parts.len()
        invariant
            i <= parts@.len(),
            parts@.len() == split_spec(p@, seq!['/']).len(),
            forall|k: int| 0 <= k < parts@.len() ==> #[trigger] parts@[k]@ == split_spec(p@, seq!['/'])[k],
            forall|k: int| 0 <= k < i ==> split_spec(p@, seq!['/'])[k] != seq!['.', '.'],
        decreases parts@.len() - i,
    {
        let part = &parts[i];
        if part.len() == 2 && part[0] == '.' && part[1] == '.' {
            assert(part@ =~= seq!['.', '.']);
            assert(split_spec(p@, seq!['/'])[i as int] == seq!['.', '.']);
            return true;
        }
        assert(part@ != seq!['.', '.']);
        i = i + 1;
    }
    false
}

/// Whether a stem is long enough to search for.
pub fn is_stem_usable(stem: &str) -> (r: bool)
    ensures
        r == stem_usable(stem@),
{
    let c = chars_of(stem);
    let t = trim_chars(&c);
    let long_enough = utf8_len_at_least(&t, 2);
    let is_dot = c.len() == 1 && c[0] == '.';
    let is_dot_dot = c.len() == 2 && c[0] == '.' && c[1] == '.';
    proof {
        if c@ == seq!['.'] {
            assert(c@.len() == 1 && c@[0] == '.');
        }
        if is_dot {
            assert(c@ =~= seq!['.']);
        }
        if c@ == seq!['.', '.'] {
            assert(c@.len() == 2 && c@[0] == '.' && c@[1] == '.');
        }
        if is_dot_dot {
            assert(c@ =~= seq!['.', '.']);
        }
    }
    long_enough && !is_dot && !is_dot_dot
}

impl InventoryItem {
    /// The normalized name stem used to find an item's files.
    pub fn name_stem(&self) -> (r: String)
        ensures
            r@ == stem_of(unicode_lower(self.name@)),
    {
        let l = to_lower(self.name.as_str());
        stem_from_lower(l.as_str())
    }

    /// The paths to probe for the item's configs, data, logs and caches, or `None`
    /// when its stem is too short to search for.
    pub fn metadata_candidates(&self, home: &str) -> (r: Option<MetadataCandidates>)
        ensures
            r is None <==> !stem_usable(stem_of(unicode_lower(self.name@))),
            r matches Some(c) ==> {
                let stem = stem_of(unicode_lower(self.name@));
                &&& c.stem@ == stem
                &&& strs(c.configs@) == config_candidates(home@, stem)
                &&& strs(c.data_dirs@) == data_candidates(home@, self.name@, stem)
                &&& strs(c.logs@) == log_candidates(home@, self.name@, stem)
                &&& strs(c.caches@) == cache_candidates(home@, self.name@, stem)
            },
    {
        let stem = self.name_stem();
        if !is_stem_usable(stem.as_str()) {
            return None;
        }
        let st = stem.as_str();
        let name = self.name.as_str();
        let mut configs: Vec<String> = Vec::new();
        configs.push(path_join(home, cat(".config/", st).as_str()));
        configs.push(path_join(home, cat3(".config/", st, ".toml").as_str()));
        configs.push(path_join(home, cat3(".", st, "rc").as_str()));
        configs.push(path_join(home, cat(".", st).as_str()));
        configs.push(path_join(home, cat3("Library/Preferences/", st, ".plist").as_str()));
        configs.push(path_join(home, cat3("Library/Preferences/com.", st, ".plist").as_str()));
        configs.push(cat("/opt/homebrew/etc/", st));
        configs.push(cat("/usr/local/etc/", st));
        let mut data_dirs: Vec<String> = Vec::new();
        data_dirs.push(path_join(home, cat("Library/Application Support/", name).as_str()));
        data_dirs.push(path_join(home, cat("Library/Application Support/", st).as_str()));
        data_dirs.push(path_join(home, cat(".local/share/", st).as_str()));
        data_dirs.push(cat("/opt/homebrew/var/", st));
        data_dirs.push(cat("/usr/local/var/", st));
        let mut logs: Vec<String> = Vec::new();
        logs.push(path_join(home, cat("Library/Logs/", name).as_str()));
        logs.push(path_join(home, cat("Library/Logs/", st).as_str()));
        logs.push(cat("/opt/homebrew/var/log/", st));
        logs.push(cat("/usr/local/var/log/", st));
        logs.push(cat("/var/log/", st));
        let mut caches: Vec<String> = Vec::new();
        caches.push(path_join(home, cat("Library/Caches/", name).as_str()));
        caches.push(path_join(home, cat("Library/Caches/", st).as_str()));
        caches.push(path_join(home, cat(".cache/", st).as_str()));
        proof {
            let sv = stem@;
            assert(strs(configs@) =~= config_candidates(home@, sv));
            assert(strs(data_dirs@) =~= data_candidates(home@, self.name@, sv));
            assert(strs(logs@) =~= log_candidates(home@, self.name@, sv));
            assert(strs(caches@) =~= cache_candidates(home@, self.name@, sv));
        }
        Some(MetadataCandidates { stem, configs, data_dirs, logs, caches })
    }
}


/// Adds the log files and `logs` directories among `entries` of `dir`.
fn add_entry_logs_exec(logs: &mut Vec<String>, dir: &str, entries: &Vec<DirEntryInfo>)
    ensures
        strs(final(logs)@) == add_entry_logs(strs(old(logs)@), dir@, entries@),
{
    let ghost l0 = strs(logs@);
    let mut i: usize = 0;
    while i < entries.len()
        invariant
            i <= entries@.len(),
            l0 == strs(old(logs)@),
            strs(logs@) == add_entry_logs(l0, dir@, entries@.take(i as int)),
        decreases entries@.len() - i,
    {
        let e = &entries[i];
        let ep = path_join(dir, e.name.as_str());
        proof {
            assert(entries@.take(i + 1).drop_last() =~= entries@.take(i as int));
            assert(entries@.take(i + 1).last() == entries@[i as int]);
        }
        if has_extension(e.name.as_str(), "log") && !contains_path_exec(logs, ep.as_str()) {
            let ghost b = logs@;
            logs.push(ep.clone());
            assert(strs(logs@) =~= strs(b).push(ep@));
        }
        if e.is_dir && str_eq(e.name.as_str(), "logs") && !contains_path_exec(logs, ep.as_str()) {
            let ghost b = logs@;
            logs.push(ep.clone());
            assert(strs(logs@) =~= strs(b).push(ep@));
        }
        i = i + 1;
    }
    assert(entries@.take(i as int) =~= entries@);
}

/// Pushes `p` when it is not yet in the list.
fn push_path(list: &mut Vec<String>, p: &String)
    ensures
        strs(final(list)@) == strs(old(list)@).push(p@),
{
    list.push(p.clone());
    assert(strs(list@) =~= strs(old(list)@).push(p@));
}

/// Whether an environment key belongs to the item's toolchain.
pub fn env_key_matches_exec(src: PackageSource, id: &str, k: &str) -> (r: bool)
    ensures
        r == env_key_matches(src, id@, k@),
{
    match src {
        PackageSource::CargoBin => starts_with(k, "CARGO_") || starts_with(k, "RUST"),
        PackageSource::Gem => starts_with(k, "GEM_") || starts_with(k, "BUNDLE_") || starts_with(k, "RUBY"),
        PackageSource::MiseRuntime => {
            if starts_with(id, "mise:ruby") {
                starts_with(k, "GEM_") || starts_with(k, "BUNDLE_") || starts_with(k, "RUBY") || starts_with(k, "MISE_")
            } else if starts_with(id, "mise:node") {
                starts_with(k, "NODE_") || starts_with(k, "NPM_") || starts_with(k, "MISE_")
            } else if starts_with(id, "mise:python") {
                starts_with(k, "PYTHON") || starts_with(k, "VIRTUAL_ENV") || starts_with(k, "MISE_")
            } else {
                starts_with(k, "MISE_")
            }
        },
        PackageSource::NpmGlobal => starts_with(k, "NODE_") || starts_with(k, "NPM_") || starts_with(k, "BUN_"),
        PackageSource::UvTool => starts_with(k, "UV_") || starts_with(k, "PYTHON") || str_eq(k, "VIRTUAL_ENV"),
        PackageSource::GoBin => starts_with(k, "GO"),
        PackageSource::BrewFormula | PackageSource::BrewCask => starts_with(k, "HOMEBREW_"),
        PackageSource::DockerImage => starts_with(k, "DOCKER_"),
        _ => false,
    }
}

pub fn code_point_key(s: &str) -> (r: Vec<u64>)
    ensures
        r@ == code_points(s@),
{
    let c = chars_of(s);
    let mut r: Vec<u64> = Vec::new();
    let mut i: usize = 0;
    while i < c.len()
        invariant
            i <= c@.len(),
            c@ == s@,
            r@ == code_points(s@).take(i as int),
        decreases c@.len() - i,
    {
        r.push(c[i] as u64);
        assert(r@ =~= code_points(s@).take(i + 1));
        i = i + 1;
    }
    assert(r@ =~= code_points(s@));
    r
}

/// The environment variables of the item: selected by toolchain or by name, each
/// key once, ordered by key.
pub fn select_env_vars(src: PackageSource, id: &str, stem: &str, env: &Vec<(String, String)>) -> (r: Vec<(String, String)>)
    ensures
        exists|ord: Seq<usize>|
            #![trigger sorted_by_keys(env_sort_keys(env_selected(src, id@, env_name_of(stem@), env@, env@.len() as int)), ord)]
            {
                let sel = env_selected(src, id@, env_name_of(stem@), env@, env@.len() as int);
                &&& ord.len() == sel.len()
                &&& r@.len() == sel.len()
                &&& ord.no_duplicates()
                &&& forall|k: int| 0 <= k < ord.len() ==> ord[k] < sel.len()
                &&& sorted_by_keys(env_sort_keys(sel), ord)
                &&& forall|k: int| 0 <= k < ord.len() ==> #[trigger] r@[k] == sel[ord[k] as int]
            },
{
    let up = to_upper(stem);
    let upc = chars_of(up.as_str());
    let upc2 = replace_char_exec(&upc, '-', '_');
    let upper = string_of(&upc2);
    let ghost uv = env_name_of(stem@);
    assert(upper@ == uv);
    let upper_ok = upc2.len() > 0 && utf8_len_at_least(&upc2, 3);
    let mut sel: Vec<(String, String)> = Vec::new();
    let mut i: usize = 0;
    while i < env.len()
        invariant
            i <= env@.len(),
            upper@ == uv,
            upper_ok == (uv.len() > 0 && utf8_len(uv) >= 3),
            sel@ == env_selected(src, id@, uv, env@, i as int),
        decreases env@.len() - i,
    {
        let k = env[i].0.as_str();
        let is_match = env_key_matches_exec(src, id, k);
        let in_key = upper_ok && contains_str(k, upper.as_str());
        if is_match || in_key {
            let mut found = false;
            let mut j: usize = 0;
            while j < sel.len()
                invariant
                    j <= sel@.len(),
                    !found ==> forall|q: int| 0 <= q < j ==> sel@[q].0@ != k@,
                    found ==> exists|q: int| 0 <= q < sel@.len() && sel@[q].0@ == k@,
                decreases sel@.len() - j,
            {
                if str_eq(sel[j].0.as_str(), k) {
                    found = true;
                }
                j = j + 1;
            }
            if !found {
                sel.push((env[i].0.clone(), env[i].1.clone()));
            }
        }
        i = i + 1;
    }
    let n = sel.len();
    let mut keys: Vec<Vec<u64>> = Vec::new();
    let mut cand: Vec<usize> = Vec::new();
    let mut q: usize = 0;
    while q < n
        invariant
            n == sel@.len(),
            q <= n,
            keys@.len() == q,
            cand@.len() == q,
            forall|k: int| 0 <= k < q ==> cand@[k] == k,
            forall|k: int| 0 <= k < q ==> (#[trigger] keys@[k])@ == code_points(sel@[k].0@),
        decreases n - q,
    {
        keys.push(code_point_key(sel[q].0.as_str()));
        cand.push(q);
        q = q + 1;
    }
    proof {
        assert(key_views(keys@) =~= env_sort_keys(sel@));
    }
    let ord = sort_indices(&cand, &keys);
    let mut r: Vec<(String, String)> = Vec::new();
    let mut k: usize = 0;
    while k < ord.len()
        invariant
            n == sel@.len(),
            ord@.len() == n,
            ord@.to_set() == cand@.to_set(),
            forall|j: int| 0 <= j < n ==> cand@[j] == j,
            cand@.len() == n,
            k <= ord@.len(),
            r@.len() == k,
            forall|j: int| 0 <= j < k ==> #[trigger] r@[j] == sel@[ord@[j] as int],
        decreases ord@.len() - k,
    {
        proof {
            assert(ord@.to_set().contains(ord@[k as int]));
            assert(cand@.to_set().contains(ord@[k as int]));
        }
        let e = &sel[ord[k]];
        r.push((e.0.clone(), e.1.clone()));
        k = k + 1;
    }
    proof {
        assert forall|j: int| 0 <= j < ord@.len() implies ord@[j] < sel@.len() by {
            assert(ord@.to_set().contains(ord@[j]));
            assert(cand@.to_set().contains(ord@[j]));
        }
    }
    r
}


/// The metadata that the probes and the environment yield for the candidates.
pub open spec fn assembled(
    home: Seq<char>,
    install: Seq<char>,
    c: MetadataCandidates,
    p: CandidateProbes,
    m: AssociatedMetadata,
) -> bool {
    let (cs, ls1) = scan_configs(home, strs(c.configs@), p.configs@, c.configs@.len() as int);
    let (ds, ls2) = scan_data(home, install, strs(c.data_dirs@), p.data_dirs@, c.data_dirs@.len() as int, ls1);
    &&& strs(m.configs@) == cs
    &&& strs(m.data_dirs@) == ds
    &&& strs(m.logs@) == scan_logs(home, strs(c.logs@), p.logs@, c.logs@.len() as int, ls2)
    &&& strs(m.caches@) == scan_caches(home, install, strs(c.caches@), p.caches@, c.caches@.len() as int)
}

impl InventoryItem {
    /// Assembles the item's associated metadata from what the file system says of
    /// each candidate path and from the environment (in the order the process sees it).
    pub fn assemble_metadata(
        &self,
        home: &str,
        cands: &MetadataCandidates,
        probes: &CandidateProbes,
        env: &Vec<(String, String)>,
    ) -> (r: AssociatedMetadata)
        requires
            probes.configs@.len() == cands.configs@.len(),
            probes.data_dirs@.len() == cands.data_dirs@.len(),
            probes.logs@.len() == cands.logs@.len(),
            probes.caches@.len() == cands.caches@.len(),
        ensures
            assembled(home@, self.install_path@, *cands, *probes, r),
            exists|ord: Seq<usize>|
                #![trigger sorted_by_keys(env_sort_keys(env_selected(self.source, self.id@, env_name_of(cands.stem@), env@, env@.len() as int)), ord)]
                {
                    let sel = env_selected(self.source, self.id@, env_name_of(cands.stem@), env@, env@.len() as int);
                    &&& ord.len() == sel.len()
                    &&& r.env_vars@.len() == sel.len()
                    &&& ord.no_duplicates()
                    &&& forall|k: int| 0 <= k < ord.len() ==> ord[k] < sel.len()
                    &&& sorted_by_keys(env_sort_keys(sel), ord)
                    &&& forall|k: int| 0 <= k < ord.len() ==> #[trigger] r.env_vars@[k] == sel[ord[k] as int]
                },
    {
        let dot_config = path_join(home, ".config");
        let lib_logs = path_join(home, "Library/Logs");
        let dot_cache = path_join(home, ".cache");
        let install = self.install_path.as_str();
        // 1. configs, with the logs inside them
        let mut configs: Vec<String> = Vec::new();
        let mut logs: Vec<String> = Vec::new();
        let ghost cc = strs(cands.configs@);
        let mut i: usize = 0;
        while i < cands.configs.len()
            invariant
                i <= cands.configs@.len(),
                probes.configs@.len() == cands.configs@.len(),
                cc == strs(cands.configs@),
                dot_config@ == join_path(home@, ".config"@),
                (strs(configs@), strs(logs@)) == scan_configs(home@, cc, probes.configs@, i as int),
            decreases cands.configs@.len() - i,
        {
            let p = &cands.configs[i];
            let pr = &probes.configs[i];
            assert(cc[i as int] == p@);
            if pr.exists && !path_eq_exec(p.as_str(), home) && !path_eq_exec(p.as_str(), dot_config.as_str())
                && !contains_path_exec(&configs, p.as_str()) {
                push_path(&mut configs, p);
                if pr.is_dir {
                    add_entry_logs_exec(&mut logs, p.as_str(), &pr.entries);
                }
            }
            i = i + 1;
        }
        // 2. data directories, with the logs inside them
        let ghost ls1 = strs(logs@);
        let mut data_dirs: Vec<String> = Vec::new();
        let ghost dc = strs(cands.data_dirs@);
        let mut i: usize = 0;
        while i < cands.data_dirs.len()
            invariant
                i <= cands.data_dirs@.len(),
                probes.data_dirs@.len() == cands.data_dirs@.len(),
                dc == strs(cands.data_dirs@),
                install@ == self.install_path@,
                (strs(data_dirs@), strs(logs@)) == scan_data(home@, install@, dc, probes.data_dirs@, i as int, ls1),
            decreases cands.data_dirs@.len() - i,
        {
            let p = &cands.data_dirs[i];
            let pr = &probes.data_dirs[i];
            assert(dc[i as int] == p@);
            if pr.exists && !path_eq_exec(p.as_str(), install) && !path_eq_exec(p.as_str(), home)
                && !contains_path_exec(&data_dirs, p.as_str()) {
                push_path(&mut data_dirs, p);
                if pr.is_dir {
                    add_entry_logs_exec(&mut logs, p.as_str(), &pr.entries);
                }
            }
            i = i + 1;
        }
        // 3. log candidates
        let ghost ls2 = strs(logs@);
        let ghost lc = strs(cands.logs@);
        let mut i: usize = 0;
        while i < cands.logs.len()
            invariant
                i <= cands.logs@.len(),
                probes.logs@.len() == cands.logs@.len(),
                lc == strs(cands.logs@),
                lib_logs@ == join_path(home@, "Library/Logs"@),
                strs(logs@) == scan_logs(home@, lc, probes.logs@, i as int, ls2),
            decreases cands.logs@.len() - i,
        {
            let p = &cands.logs[i];
            assert(lc[i as int] == p@);
            if probes.logs[i].exists && !path_eq_exec(p.as_str(), home) && !path_eq_exec(p.as_str(), lib_logs.as_str())
                && !contains_path_exec(&logs, p.as_str()) {
                push_path(&mut logs, p);
            }
            i = i + 1;
        }
        // 4. caches
        let mut caches: Vec<String> = Vec::new();
        let ghost kc = strs(cands.caches@);
        let mut i: usize = 0;
        while i < cands.caches.len()
            invariant
                i <= cands.caches@.len(),
                probes.caches@.len() == cands.caches@.len(),
                kc == strs(cands.caches@),
                install@ == self.install_path@,
                dot_cache@ == join_path(home@, ".cache"@),
                strs(caches@) == scan_caches(home@, install@, kc, probes.caches@, i as int),
            decreases cands.caches@.len() - i,
        {
            let p = &cands.caches[i];
            assert(kc[i as int] == p@);
            if probes.caches[i].exists && !path_eq_exec(p.as_str(), install) && !path_eq_exec(p.as_str(), home)
                && !path_eq_exec(p.as_str(), dot_cache.as_str()) && !contains_path_exec(&caches, p.as_str()) {
                push_path(&mut caches, p);
            }
            i = i + 1;
        }
        // 5. environment variables
        let env_vars = select_env_vars(self.source, self.id.as_str(), cands.stem.as_str(), env);
        AssociatedMetadata { configs, data_dirs, logs, caches, env_vars }
    }

    /// Commands that purge only the item's log files and cache directories (never its
    /// configurations), given what the file system says of each log and cache path.
    pub fn generate_targeted_log_purge_cmds(
        meta: &AssociatedMetadata,
        log_probes: &Vec<PathProbe>,
        cache_probes: &Vec<PathProbe>,
    ) -> (r: Vec<String>)
        requires
            log_probes@.len() == meta.logs@.len(),
            cache_probes@.len() == meta.caches@.len(),
        ensures
            strs(r@) == log_purges(meta.logs@, log_probes@, meta.logs@.len() as int) + cache_purges(
                meta.caches@,
                cache_probes@,
                meta.caches@.len() as int,
            ),
            forall|k: int| 0 <= k < r@.len() ==> removes_plain_path(#[trigger] r@[k]@),
    {
        let mut cmds: Vec<String> = Vec::new();
        let mut i: usize = 0;
        while i < meta.logs.len()
            invariant
                i <= meta.logs@.len(),
                log_probes@.len() == meta.logs@.len(),
                strs(cmds@) == log_purges(meta.logs@, log_probes@, i as int),
            decreases meta.logs@.len() - i,
        {
            if parent_step(meta.logs[i].as_str()) {
            } else if log_probes[i].is_dir {
                push_path(&mut cmds, &cat3("rm -rf \"", meta.logs[i].as_str(), "\""));
            } else if log_probes[i].is_file {
                push_path(&mut cmds, &cat3("rm -f \"", meta.logs[i].as_str(), "\""));
            }
            i = i + 1;
        }
        let ghost part1 = strs(cmds@);
        let mut j: usize = 0;
        while j < meta.caches.len()
            invariant
                j <= meta.caches@.len(),
                cache_probes@.len() == meta.caches@.len(),
                strs(cmds@) == part1 + cache_purges(meta.caches@, cache_probes@, j as int),
            decreases meta.caches@.len() - j,
        {
            let ghost before = strs(cmds@);
            if cache_probes[j].is_dir && !parent_step(meta.caches[j].as_str()) {
                push_path(&mut cmds, &cat3("rm -rf \"", meta.caches[j].as_str(), "\""));
            }
            assert(strs(cmds@) =~= part1 + cache_purges(meta.caches@, cache_probes@, j + 1));
            j = j + 1;
        }
        proof {
            let a = log_purges(meta.logs@, log_probes@, meta.logs@.len() as int);
            let b = cache_purges(meta.caches@, cache_probes@, meta.caches@.len() as int);
            lemma_log_purges_plain(meta.logs@, log_probes@, meta.logs@.len() as int);
            lemma_cache_purges_plain(meta.caches@, cache_probes@, meta.caches@.len() as int);
            assert forall|k: int| 0 <= k < cmds@.len() implies removes_plain_path(#[trigger] cmds@[k]@) by {
                assert(strs(cmds@)[k] == cmds@[k]@);
                if k < a.len() {
                    assert((a + b)[k] == a[k]);
                } else {
                    assert((a + b)[k] == b[k - a.len()]);
                }
            }
        }
        cmds
    }
}


proof fn lemma_rm_dir_injective(p: Seq<char>, q: Seq<char>)
    requires
        rm_dir_cmd(p) == rm_dir_cmd(q),
    ensures
        p == q,
{
    reveal_strlit("rm -rf \"");
    reveal_strlit("\"");
    assert("rm -rf \""@.len() == 8);
    assert("\""@.len() == 1);
    let a = rm_dir_cmd(p);
    assert(a.len() == 9 + p.len());
    assert(rm_dir_cmd(q).len() == 9 + q.len());
    assert(p.len() == q.len());
    assert(p =~= a.subrange(8, 8 + p.len() as int));
    assert(q =~= rm_dir_cmd(q).subrange(8, 8 + q.len() as int));
}

proof fn lemma_rm_file_injective(p: Seq<char>, q: Seq<char>)
    requires
        rm_file_cmd(p) == rm_file_cmd(q),
    ensures
        p == q,
{
    reveal_strlit("rm -f \"");
    reveal_strlit("\"");
    assert("rm -f \""@.len() == 7);
    assert("\""@.len() == 1);
    let a = rm_file_cmd(p);
    assert(a.len() == 8 + p.len());
    assert(rm_file_cmd(q).len() == 8 + q.len());
    assert(p.len() == q.len());
    assert(p =~= a.subrange(7, 7 + p.len() as int));
    assert(q =~= rm_file_cmd(q).subrange(7, 7 + q.len() as int));
}

proof fn lemma_rm_kinds_differ(p: Seq<char>, q: Seq<char>)
    ensures
        rm_dir_cmd(p) != rm_file_cmd(q),
{
    reveal_strlit("rm -rf \"");
    reveal_strlit("rm -f \"");
    assert(rm_dir_cmd(p)[4] == 'r');
    assert(rm_file_cmd(q)[4] == 'f');
}

proof fn lemma_log_purges_name(logs: Seq<String>, probes: Seq<PathProbe>, n: int, c: Seq<char>)
    requires
        0 <= n <= logs.len(),
        n <= probes.len(),
        forall|j: int| 0 <= j < logs.len() ==> logs[j]@ != c,
    ensures
        !log_purges(logs, probes, n).contains(rm_dir_cmd(c)),
        !log_purges(logs, probes, n).contains(rm_file_cmd(c)),
    decreases n,
{
    if n > 0 {
        lemma_log_purges_name(logs, probes, n - 1, c);
        let prev = log_purges(logs, probes, n - 1);
        let p = logs[n - 1]@;
        if log_purges(logs, probes, n).contains(rm_dir_cmd(c)) {
            let w = choose|w: int| 0 <= w < log_purges(logs, probes, n).len() && log_purges(logs, probes, n)[w] == rm_dir_cmd(c);
            if w < prev.len() {
                assert(prev[w] == rm_dir_cmd(c));
            } else if probes[n - 1].is_dir {
                lemma_rm_dir_injective(p, c);
            } else {
                lemma_rm_kinds_differ(c, p);
            }
        }
        if log_purges(logs, probes, n).contains(rm_file_cmd(c)) {
            let w = choose|w: int| 0 <= w < log_purges(logs, probes, n).len() && log_purges(logs, probes, n)[w] == rm_file_cmd(c);
            if w < prev.len() {
                assert(prev[w] == rm_file_cmd(c));
            } else if probes[n - 1].is_dir {
                lemma_rm_kinds_differ(p, c);
            } else {
                lemma_rm_file_injective(p, c);
            }
        }
    }
}

proof fn lemma_cache_purges_name(caches: Seq<String>, probes: Seq<PathProbe>, n: int, c: Seq<char>)
    requires
        0 <= n <= caches.len(),
        n <= probes.len(),
        forall|j: int| 0 <= j < caches.len() ==> caches[j]@ != c,
    ensures
        !cache_purges(caches, probes, n).contains(rm_dir_cmd(c)),
        !cache_purges(caches, probes, n).contains(rm_file_cmd(c)),
    decreases n,
{
    if n > 0 {
        lemma_cache_purges_name(caches, probes, n - 1, c);
        let prev = cache_purges(caches, probes, n - 1);
        let p = caches[n - 1]@;
        if cache_purges(caches, probes, n).contains(rm_dir_cmd(c)) {
            let w = choose|w: int| 0 <= w < cache_purges(caches, probes, n).len() && cache_purges(caches, probes, n)[w] == rm_dir_cmd(c);
            if w < prev.len() {
                assert(prev[w] == rm_dir_cmd(c));
            } else {
                lemma_rm_dir_injective(p, c);
            }
        }
        if cache_purges(caches, probes, n).contains(rm_file_cmd(c)) {
            let w = choose|w: int| 0 <= w < cache_purges(caches, probes, n).len() && cache_purges(caches, probes, n)[w] == rm_file_cmd(c);
            if w < prev.len() {
                assert(prev[w] == rm_file_cmd(c));
            } else {
                lemma_rm_kinds_differ(p, c);
            }
        }
    }
}

/// Configurations are preserved: the purge commands remove no path but the item's
/// log and cache paths, so a path (such as a configuration file) that is neither
/// is never the target of a purge command.
pub proof fn purge_spares_other_paths(meta: AssociatedMetadata, log_probes: Seq<PathProbe>, cache_probes: Seq<PathProbe>, c: Seq<char>)
    requires
        log_probes.len() == meta.logs@.len(),
        cache_probes.len() == meta.caches@.len(),
        forall|j: int| 0 <= j < meta.logs@.len() ==> meta.logs@[j]@ != c,
        forall|j: int| 0 <= j < meta.caches@.len() ==> meta.caches@[j]@ != c,
    ensures
        !(log_purges(meta.logs@, log_probes, meta.logs@.len() as int) + cache_purges(meta.caches@, cache_probes, meta.caches@.len() as int)).contains(rm_dir_cmd(c)),
        !(log_purges(meta.logs@, log_probes, meta.logs@.len() as int) + cache_purges(meta.caches@, cache_probes, meta.caches@.len() as int)).contains(rm_file_cmd(c)),
{
    let a = log_purges(meta.logs@, log_probes, meta.logs@.len() as int);
    let b = cache_purges(meta.caches@, cache_probes, meta.caches@.len() as int);
    lemma_log_purges_name(meta.logs@, log_probes, meta.logs@.len() as int, c);
    lemma_cache_purges_name(meta.caches@, cache_probes, meta.caches@.len() as int, c);
    if (a + b).contains(rm_dir_cmd(c)) {
        let w = choose|w: int| 0 <= w < (a + b).len() && (a + b)[w] == rm_dir_cmd(c);
        if w < a.len() {
            assert(a[w] == rm_dir_cmd(c));
        } else {
            assert(b[w - a.len()] == rm_dir_cmd(c));
        }
    }
    if (a + b).contains(rm_file_cmd(c)) {
        let w = choose|w: int| 0 <= w < (a + b).len() && (a + b)[w] == rm_file_cmd(c);
        if w < a.len() {
            assert(a[w] == rm_file_cmd(c));
        } else {
            assert(b[w - a.len()] == rm_file_cmd(c));
        }
    }
}

/// The stem of a lower-cased name is the part before its first `@` (for a name
/// that does not start with `@` and holds no `/` or space): `postgresql@16`
/// has the stem `postgresql`.
pub proof fn stem_is_name_before_at(lower: Seq<char>, p: int)
    requires
        0 < p < lower.len(),
        lower[p] == '@',
        forall|i: int| 0 <= i < p ==> lower[i] != '@',
        forall|i: int| 0 <= i < lower.len() ==> lower[i] != '/' && lower[i] != ' ',
    ensures
        stem_of(lower) == lower.take(p),
{
    assert(strip_leading(lower, '@') == lower);
    assert(replace_char(lower, '/', '-') =~= lower);
    assert(replace_char(lower, ' ', '-') =~= lower);
    assert(name_clean(lower) == lower);
    let x = lower.take(p);
    let y = lower.skip(p + 1);
    assert(x + seq!['@'] + y =~= lower);
    assert forall|i: int| 0 <= i < x.len() implies !seq!['@'].contains(#[trigger] x[i]) by {
        if seq!['@'].contains(x[i]) {
            let k = choose|k: int| 0 <= k < 1 && seq!['@'][k] == x[i];
        }
    }
    assert(seq!['@'].contains('@')) by {
        assert(seq!['@'][0] == '@');
    }
    lemma_split_first(x, '@', y, seq!['@']);
}

/// An item's files are looked for both under its name and under its stem:
/// `~/Library/Caches/<name>`, `~/Library/Caches/<stem>` and `~/.cache/<stem>` for
/// caches, `~/Library/Logs/<name>` and `~/Library/Logs/<stem>` for logs, and
/// `~/Library/Application Support/<name>` and `<stem>` for data.
pub proof fn candidates_cover_name_and_stem(home: Seq<char>, name: Seq<char>, stem: Seq<char>)
    ensures
        cache_candidates(home, name, stem).contains(join_path(home, "Library/Caches/"@ + name)),
        cache_candidates(home, name, stem).contains(join_path(home, "Library/Caches/"@ + stem)),
        cache_candidates(home, name, stem).contains(join_path(home, ".cache/"@ + stem)),
        log_candidates(home, name, stem).contains(join_path(home, "Library/Logs/"@ + name)),
        log_candidates(home, name, stem).contains(join_path(home, "Library/Logs/"@ + stem)),
        data_candidates(home, name, stem).contains(join_path(home, "Library/Application Support/"@ + name)),
        data_candidates(home, name, stem).contains(join_path(home, "Library/Application Support/"@ + stem)),
{
    assert(cache_candidates(home, name, stem)[0] == join_path(home, "Library/Caches/"@ + name));
    assert(cache_candidates(home, name, stem)[1] == join_path(home, "Library/Caches/"@ + stem));
    assert(cache_candidates(home, name, stem)[2] == join_path(home, ".cache/"@ + stem));
    assert(log_candidates(home, name, stem)[0] == join_path(home, "Library/Logs/"@ + name));
    assert(log_candidates(home, name, stem)[1] == join_path(home, "Library/Logs/"@ + stem));
    assert(data_candidates(home, name, stem)[0] == join_path(home, "Library/Application Support/"@ + name));
    assert(data_candidates(home, name, stem)[1] == join_path(home, "Library/Application Support/"@ + stem));
}

} // verus!
