use vstd::prelude::*;
use crate::models::category::Category;
use crate::text::{all_ascii, ascii_lower, str_eq, starts_with, to_lower, unicode_lower, owned, append_str, u64_decimal, decimal, has_prefix};
use crate::size::{format_bytes, format_bytes_spec};
use crate::clock::current_time;

verus! {

/// Represents the origin ecosystem of an installed package or tool
#[derive(Debug, Clone, Copy, PartialEq, Eq, Structural, PartialOrd, Ord, Hash)]
pub enum PackageSource {
    BrewFormula,
    BrewCask,
    MiseRuntime,
    CargoBin,
    Gem,
    NpmGlobal,
    UvTool,
    GoBin,
    MacApp,
    BuildCache,
    DockerImage,
}

pub open spec fn source_label(s: PackageSource) -> Seq<char> {
    match s {
        PackageSource::BrewFormula => "brew:formula"@,
        PackageSource::BrewCask => "brew:cask"@,
        PackageSource::MiseRuntime => "mise:runtime"@,
        PackageSource::CargoBin => "cargo:bin"@,
        PackageSource::Gem => "gem:ruby"@,
        PackageSource::NpmGlobal => "npm:global"@,
        PackageSource::UvTool => "uv:python"@,
        PackageSource::GoBin => "go:bin"@,
        PackageSource::MacApp => "macos:app"@,
        PackageSource::BuildCache => "cache:build"@,
        PackageSource::DockerImage => "docker:image"@,
    }
}

pub open spec fn source_icon(s: PackageSource) -> Seq<char> {
    match s {
        PackageSource::BrewFormula => "🍺"@,
        PackageSource::BrewCask => "📦"@,
        PackageSource::MiseRuntime => "⚡"@,
        PackageSource::CargoBin => "🦀"@,
        PackageSource::Gem => "💎"@,
        PackageSource::NpmGlobal => "🌐"@,
        PackageSource::UvTool => "🐍"@,
        PackageSource::GoBin => "🐹"@,
        PackageSource::MacApp => "🍎"@,
        PackageSource::BuildCache => "🧹"@,
        PackageSource::DockerImage => "🐳"@,
    }
}

/// Whether a lower-cased ecosystem query names the ecosystem of `s`.
pub open spec fn source_matches(s: PackageSource, q: Seq<char>) -> bool {
    match s {
        PackageSource::BrewFormula | PackageSource::BrewCask => q == "brew"@ || q == "homebrew"@,
        PackageSource::MiseRuntime => q == "mise"@ || q == "runtime"@ || q == "runtimes"@,
        PackageSource::CargoBin => q == "cargo"@ || q == "rust"@ || q == "rs"@,
        PackageSource::Gem => q == "gem"@ || q == "ruby"@ || q == "rb"@,
        PackageSource::NpmGlobal => q == "npm"@ || q == "node"@ || q == "js"@ || q == "javascript"@
            || q == "ts"@,
        PackageSource::UvTool => q == "uv"@ || q == "python"@ || q == "py"@ || q == "pip"@,
        PackageSource::GoBin => q == "go"@ || q == "golang"@,
        PackageSource::MacApp => q == "app"@ || q == "apps"@ || q == "macos"@ || q == "gui"@,
        PackageSource::BuildCache => q == "cache"@ || q == "caches"@ || q == "build"@,
        PackageSource::DockerImage => q == "docker"@ || q == "container"@ || q == "containers"@,
    }
}

impl PackageSource {
    pub fn label(&self) -> (r: &'static str)
        ensures
            r@ == source_label(*self),
    {
        match self {
            PackageSource::BrewFormula => "brew:formula",
            PackageSource::BrewCask => "brew:cask",
            PackageSource::MiseRuntime => "mise:runtime",
            PackageSource::CargoBin => "cargo:bin",
            PackageSource::Gem => "gem:ruby",
            PackageSource::NpmGlobal => "npm:global",
            PackageSource::UvTool => "uv:python",
            PackageSource::GoBin => "go:bin",
            PackageSource::MacApp => "macos:app",
            PackageSource::BuildCache => "cache:build",
            PackageSource::DockerImage => "docker:image",
        }
    }

    pub fn icon(&self) -> (r: &'static str)
        ensures
            r@ == source_icon(*self),
    {
        match self {
            PackageSource::BrewFormula => "🍺",
            PackageSource::BrewCask => "📦",
            PackageSource::MiseRuntime => "⚡",
            PackageSource::CargoBin => "🦀",
            PackageSource::Gem => "💎",
            PackageSource::NpmGlobal => "🌐",
            PackageSource::UvTool => "🐍",
            PackageSource::GoBin => "🐹",
            PackageSource::MacApp => "🍎",
            PackageSource::BuildCache => "🧹",
            PackageSource::DockerImage => "🐳",
        }
    }

    /// Whether an already lower-cased query names this ecosystem.
    pub fn matches_lowercase_query(&self, q: &str) -> (r: bool)
        ensures
            r == source_matches(*self, q@),
    {
        match self {
            PackageSource::BrewFormula | PackageSource::BrewCask => str_eq(q, "brew") || str_eq(
                q,
                "homebrew",
            ),
            PackageSource::MiseRuntime => str_eq(q, "mise") || str_eq(q, "runtime") || str_eq(
                q,
                "runtimes",
            ),
            PackageSource::CargoBin => str_eq(q, "cargo") || str_eq(q, "rust") || str_eq(q, "rs"),
            PackageSource::Gem => str_eq(q, "gem") || str_eq(q, "ruby") || str_eq(q, "rb"),
            PackageSource::NpmGlobal => str_eq(q, "npm") || str_eq(q, "node") || str_eq(q, "js")
                || str_eq(q, "javascript") || str_eq(q, "ts"),
            PackageSource::UvTool => str_eq(q, "uv") || str_eq(q, "python") || str_eq(q, "py")
                || str_eq(q, "pip"),
            PackageSource::GoBin => str_eq(q, "go") || str_eq(q, "golang"),
            PackageSource::MacApp => str_eq(q, "app") || str_eq(q, "apps") || str_eq(q, "macos")
                || str_eq(q, "gui"),
            PackageSource::BuildCache => str_eq(q, "cache") || str_eq(q, "caches") || str_eq(
                q,
                "build",
            ),
            PackageSource::DockerImage => str_eq(q, "docker") || str_eq(q, "container") || str_eq(
                q,
                "containers",
            ),
        }
    }

    /// Whether an ecosystem query (any case) names this ecosystem.
    pub fn matches_ecosystem(&self, eco: &str) -> (r: bool)
        ensures
            r == source_matches(*self, unicode_lower(eco@)),
            all_ascii(eco@) ==> r == source_matches(*self, ascii_lower(eco@)),
    {
        let q = to_lower(eco);
        self.matches_lowercase_query(q.as_str())
    }
}

/// Represents the factual dependency status of an installed package
#[derive(Debug, Clone, Copy, PartialEq, Eq, Structural)]
pub enum PackageStatus {
    TopLevel,
    Orphan,
    Dependency { required_by_count: usize },
    BuildCache,
    ActiveRuntime,
}

pub open spec fn status_label(s: PackageStatus) -> Seq<char> {
    match s {
        PackageStatus::TopLevel => "📦 Top-Level"@,
        PackageStatus::Orphan => "🧹 Orphan (0 refs)"@,
        PackageStatus::Dependency { required_by_count } => "⛓️ Dep ("@ + decimal(
            required_by_count as nat,
        ) + " refs)"@,
        PackageStatus::BuildCache => "💾 Cache"@,
        PackageStatus::ActiveRuntime => "⚡ Active Runtime"@,
    }
}

impl PackageStatus {
    pub fn label(&self) -> (r: String)
        ensures
            r@ == status_label(*self),
    {
        match self {
            PackageStatus::TopLevel => owned("📦 Top-Level"),
            PackageStatus::Orphan => owned("🧹 Orphan (0 refs)"),
            PackageStatus::Dependency { required_by_count } => {
                let mut s = owned("⛓️ Dep (");
                let n = u64_decimal(*required_by_count as u64);
                append_str(&mut s, n.as_str());
                append_str(&mut s, " refs)");
                s
            },
            PackageStatus::BuildCache => owned("💾 Cache"),
            PackageStatus::ActiveRuntime => owned("⚡ Active Runtime"),
        }
    }
}

/// A point in time, as seconds and nanoseconds since the Unix epoch (UTC).
#[derive(Debug, Clone, Copy, PartialEq, Eq, Structural)]
pub struct Timestamp {
    pub secs: i64,
    pub nanos: u32,
}

pub open spec fn nanos_between(from: Timestamp, to: Timestamp) -> int {
    (to.secs - from.secs) * 1_000_000_000 + (to.nanos - from.nanos)
}

/// Whole days elapsed from `from` to `to`, never negative.
pub open spec fn days_between(from: Timestamp, to: Timestamp) -> int {
    let d = nanos_between(from, to);
    if d <= 0 {
        0
    } else {
        d / 86_400_000_000_000
    }
}

/// Whole days elapsed from `from` to `to`, never negative.
pub fn elapsed_days(from: Timestamp, to: Timestamp) -> (r: i64)
    ensures
        r == days_between(from, to),
{
    let a: i128 = to.secs as i128 - from.secs as i128;
    assert(-0x1_0000_0000_0000_0000int < a < 0x1_0000_0000_0000_0000int);
    assert(-0x1_0000_0000_0000_0000_0000_0000int < a * 1_000_000_000 < 0x1_0000_0000_0000_0000_0000_0000int) by (nonlinear_arith)
        requires -0x1_0000_0000_0000_0000int < a < 0x1_0000_0000_0000_0000int;
    let d: i128 = a * 1_000_000_000 + (to.nanos as i128 - from.nanos as i128);
    if d <= 0 {
        0
    } else {
        let days = d / 86_400_000_000_000;
        assert(days < 0x7fff_ffff_ffff_ffffint) by (nonlinear_arith)
            requires
                days as int == (d as int) / 86_400_000_000_000int,
                0 < d < 0x1_0000_0000_0000_0000_0000_0001int,
        ;
        days as i64
    }
}

/// Associated files, configs, data, logs, and environment variables
#[derive(Debug)]
pub struct AssociatedMetadata {
    pub configs: Vec<String>,
    pub data_dirs: Vec<String>,
    pub logs: Vec<String>,
    pub caches: Vec<String>,
    pub env_vars: Vec<(String, String)>,
}

/// Normalized canonical data model representing an installed software item
#[derive(Debug)]
pub struct InventoryItem {
    pub id: String,
    pub name: String,
    pub source: PackageSource,
    pub version: Option<String>,
    pub install_path: String,
    pub size_bytes: u64,
    pub last_accessed_at: Option<Timestamp>,
    pub last_modified_at: Option<Timestamp>,
    pub is_top_level: bool,
    pub required_by: Vec<String>,
    pub category: Category,
    pub uninstall_cmd: Option<String>,
    pub reinstall_cmd: Option<String>,
}

/// A copy of an optional string.
pub fn clone_opt_string(o: &Option<String>) -> (r: Option<String>)
    ensures
        r == *o,
{
    match o {
        Some(s) => Some(s.clone()),
        None => None,
    }
}

/// A copy of a list of strings.
pub fn clone_strings(v: &Vec<String>) -> (r: Vec<String>)
    ensures
        r@ == v@,
{
    let mut r: Vec<String> = Vec::new();
    let mut i: usize = 0;
    while i < v.len()
        invariant
            i <= v@.len(),
            r@ == v@.take(i as int),
        decreases v@.len() - i,
    {
        r.push(v[i].clone());
        assert(v@.take(i as int).push(v@[i as int]) =~= v@.take(i + 1));
        i = i + 1;
    }
    assert(v@.take(v@.len() as int) =~= v@);
    r
}

/// A copy of a list of string pairs.
pub fn clone_pairs(v: &Vec<(String, String)>) -> (r: Vec<(String, String)>)
    ensures
        r@ == v@,
{
    let mut r: Vec<(String, String)> = Vec::new();
    let mut i: usize = 0;
    while i < v.len()
        invariant
            i <= v@.len(),
            r@ == v@.take(i as int),
        decreases v@.len() - i,
    {
        let p = (v[i].0.clone(), v[i].1.clone());
        r.push(p);
        assert(v@.take(i as int).push(v@[i as int]) =~= v@.take(i + 1));
        i = i + 1;
    }
    assert(v@.take(v@.len() as int) =~= v@);
    r
}

/// Two metadata records hold the same paths and variables.
pub open spec fn same_meta(a: AssociatedMetadata, b: AssociatedMetadata) -> bool {
    &&& a.configs@ == b.configs@
    &&& a.data_dirs@ == b.data_dirs@
    &&& a.logs@ == b.logs@
    &&& a.caches@ == b.caches@
    &&& a.env_vars@ == b.env_vars@
}

impl Clone for AssociatedMetadata {
    fn clone(&self) -> (r: Self)
        ensures
            same_meta(r, *self),
    {
        AssociatedMetadata {
            configs: clone_strings(&self.configs),
            data_dirs: clone_strings(&self.data_dirs),
            logs: clone_strings(&self.logs),
            caches: clone_strings(&self.caches),
            env_vars: clone_pairs(&self.env_vars),
        }
    }
}

impl AssociatedMetadata {
    /// Metadata with nothing found.
    pub fn empty() -> (r: Self)
        ensures
            r.configs@.len() == 0,
            r.data_dirs@.len() == 0,
            r.logs@.len() == 0,
            r.caches@.len() == 0,
            r.env_vars@.len() == 0,
    {
        AssociatedMetadata {
            configs: Vec::new(),
            data_dirs: Vec::new(),
            logs: Vec::new(),
            caches: Vec::new(),
            env_vars: Vec::new(),
        }
    }
}

/// Two items agree on every field (lists compared by their contents).
pub open spec fn same_item(a: InventoryItem, b: InventoryItem) -> bool {
    &&& a.id == b.id
    &&& a.name == b.name
    &&& a.source == b.source
    &&& a.version == b.version
    &&& a.install_path == b.install_path
    &&& a.size_bytes == b.size_bytes
    &&& a.last_accessed_at == b.last_accessed_at
    &&& a.last_modified_at == b.last_modified_at
    &&& a.is_top_level == b.is_top_level
    &&& a.required_by@ == b.required_by@
    &&& a.category == b.category
    &&& a.uninstall_cmd == b.uninstall_cmd
    &&& a.reinstall_cmd == b.reinstall_cmd
}

impl Clone for InventoryItem {
    fn clone(&self) -> (r: Self)
        ensures
            same_item(r, *self),
    {
        InventoryItem {
            id: self.id.clone(),
            name: self.name.clone(),
            source: self.source,
            version: clone_opt_string(&self.version),
            install_path: self.install_path.clone(),
            size_bytes: self.size_bytes,
            last_accessed_at: self.last_accessed_at,
            last_modified_at: self.last_modified_at,
            is_top_level: self.is_top_level,
            required_by: clone_strings(&self.required_by),
            category: self.category,
            uninstall_cmd: clone_opt_string(&self.uninstall_cmd),
            reinstall_cmd: clone_opt_string(&self.reinstall_cmd),
        }
    }
}

/// The objective package relationship status of an item.
pub open spec fn status_of(i: InventoryItem) -> PackageStatus {
    if i.source == PackageSource::BuildCache || i.source == PackageSource::DockerImage {
        PackageStatus::BuildCache
    } else if i.source == PackageSource::MiseRuntime && i.is_top_level {
        PackageStatus::ActiveRuntime
    } else if i.required_by@.len() > 0 {
        PackageStatus::Dependency { required_by_count: i.required_by@.len() as usize }
    } else if !i.is_top_level {
        PackageStatus::Orphan
    } else {
        PackageStatus::TopLevel
    }
}

pub open spec fn is_orphan_item(i: InventoryItem) -> bool {
    status_of(i) is Orphan
}

pub open spec fn is_cache_item(i: InventoryItem) -> bool {
    status_of(i) is BuildCache
}

/// Whether a lower-cased ecosystem query matches an item: by its source, or by
/// the prefix of its id for a few language aliases.
pub open spec fn item_matches(i: InventoryItem, q: Seq<char>) -> bool {
    source_matches(i.source, q) || (q == "ruby"@ && has_prefix(i.id@, "mise:ruby"@)) || (q
        == "rust"@ && has_prefix(i.id@, "cargo:"@)) || (q == "python"@ && has_prefix(
        i.id@,
        "uv:"@,
    )) || (q == "go"@ && has_prefix(i.id@, "go:"@)) || (q == "node"@ && has_prefix(
        i.id@,
        "npm:"@,
    ))
}

/// Days since the last access at the moment `now`, if the access time is known.
pub open spec fn inactivity_at(i: InventoryItem, now: Timestamp) -> Option<int> {
    match i.last_accessed_at {
        Some(t) => Some(days_between(t, now)),
        None => None,
    }
}

/// The text shown for an item's last use, given its inactivity in days.
pub open spec fn last_access_text(days: Option<int>) -> Seq<char> {
    match days {
        Some(d) => if d == 0 {
            "Today"@
        } else if d == 1 {
            "1d ago"@
        } else {
            decimal(d as nat) + "d ago"@
        },
        None => "Unknown"@,
    }
}

impl InventoryItem {
    /// Formats disk footprint into human-readable unit
    pub fn formatted_size(&self) -> (r: String)
        ensures
            r@ == format_bytes_spec(self.size_bytes as nat),
    {
        format_bytes(self.size_bytes)
    }

    /// Inactivity in whole days at the moment `now`.
    pub fn inactivity_days_at(&self, now: Timestamp) -> (r: Option<i64>)
        ensures
            r matches Some(d) ==> inactivity_at(*self, now) == Some(d as int),
            r is None <==> inactivity_at(*self, now) is None,
    {
        match self.last_accessed_at {
            Some(t) => Some(elapsed_days(t, now)),
            None => None,
        }
    }

    /// Computes inactivity in days from the access time, at the current clock.
    pub fn inactivity_days(&self) -> (r: Option<i64>)
        ensures
            r is None <==> self.last_accessed_at is None,
            r matches Some(d) ==> d >= 0,
    {
        let now = current_time();
        self.inactivity_days_at(now)
    }

    /// The last access as shown to users, at the moment `now`.
    pub fn formatted_last_accessed_at(&self, now: Timestamp) -> (r: String)
        ensures
            r@ == last_access_text(inactivity_at(*self, now)),
    {
        match self.inactivity_days_at(now) {
            Some(days) => {
                if days == 0 {
                    owned("Today")
                } else if days == 1 {
                    owned("1d ago")
                } else {
                    let mut s = u64_decimal(days as u64);
                    append_str(&mut s, "d ago");
                    s
                }
            },
            None => owned("Unknown"),
        }
    }

    /// Formats last access time as a human-friendly string, at the current clock.
    pub fn formatted_last_accessed(&self) -> (r: String)
        ensures
            self.last_accessed_at is None ==> r@ == "Unknown"@,
            self.last_accessed_at is Some ==> exists|now: Timestamp|
                r@ == last_access_text(inactivity_at(*self, now)),
    {
        let now = current_time();
        self.formatted_last_accessed_at(now)
    }

    /// Returns the objective package relationship status
    pub fn status(&self) -> (r: PackageStatus)
        ensures
            r == status_of(*self),
    {
        if self.source == PackageSource::BuildCache || self.source == PackageSource::DockerImage {
            PackageStatus::BuildCache
        } else if self.source == PackageSource::MiseRuntime && self.is_top_level {
            PackageStatus::ActiveRuntime
        } else if self.required_by.len() > 0 {
            PackageStatus::Dependency { required_by_count: self.required_by.len() }
        } else if !self.is_top_level {
            PackageStatus::Orphan
        } else {
            PackageStatus::TopLevel
        }
    }

    /// Returns true if this package is an unreferenced orphan dependency
    pub fn is_orphan(&self) -> (r: bool)
        ensures
            r == is_orphan_item(*self),
    {
        match self.status() {
            PackageStatus::Orphan => true,
            _ => false,
        }
    }

    /// Returns true if this item is a build cache or dangling image
    pub fn is_cache(&self) -> (r: bool)
        ensures
            r == is_cache_item(*self),
    {
        match self.status() {
            PackageStatus::BuildCache => true,
            _ => false,
        }
    }

    /// Checks an already lower-cased ecosystem query against this item.
    pub fn matches_lowercase_query(&self, q: &str) -> (r: bool)
        ensures
            r == item_matches(*self, q@),
    {
        self.source.matches_lowercase_query(q) || (str_eq(q, "ruby") && starts_with(
            self.id.as_str(),
            "mise:ruby",
        )) || (str_eq(q, "rust") && starts_with(self.id.as_str(), "cargo:")) || (str_eq(
            q,
            "python",
        ) && starts_with(self.id.as_str(), "uv:")) || (str_eq(q, "go") && starts_with(
            self.id.as_str(),
            "go:",
        )) || (str_eq(q, "node") && starts_with(self.id.as_str(), "npm:"))
    }

    /// Checks if item matches an ecosystem query (any case)
    pub fn matches_ecosystem(&self, eco: &str) -> (r: bool)
        ensures
            r == item_matches(*self, unicode_lower(eco@)),
    {
        let q = to_lower(eco);
        self.matches_lowercase_query(q.as_str())
    }
}

/// An ecosystem query is matched without regard to ASCII case: lower-casing an
/// ASCII query again changes nothing, so `matches_ecosystem(e)` and
/// `matches_ecosystem` of `e` lower-cased agree.
pub proof fn ecosystem_query_ignores_case(s: PackageSource, e: Seq<char>)
    requires
        all_ascii(e),
    ensures
        all_ascii(ascii_lower(e)),
        ascii_lower(ascii_lower(e)) == ascii_lower(e),
        source_matches(s, ascii_lower(ascii_lower(e))) == source_matches(s, ascii_lower(e)),
{
    assert(ascii_lower(ascii_lower(e)) =~= ascii_lower(e));
}

/// Each source answers to the part of its label before `:` (for example `brew`
/// for `brew:formula`).
pub proof fn label_names_its_ecosystem(s: PackageSource)
    ensures
        exists|i: int|
            0 <= i < source_label(s).len() && source_label(s)[i] == ':' && source_matches(s, source_label(s).take(i)),
{
    reveal_strlit("app");
    reveal_strlit("apps");
    reveal_strlit("brew");
    reveal_strlit("build");
    reveal_strlit("cache");
    reveal_strlit("caches");
    reveal_strlit("cargo");
    reveal_strlit("container");
    reveal_strlit("containers");
    reveal_strlit("docker");
    reveal_strlit("gem");
    reveal_strlit("go");
    reveal_strlit("golang");
    reveal_strlit("gui");
    reveal_strlit("homebrew");
    reveal_strlit("javascript");
    reveal_strlit("js");
    reveal_strlit("macos");
    reveal_strlit("mise");
    reveal_strlit("node");
    reveal_strlit("npm");
    reveal_strlit("pip");
    reveal_strlit("py");
    reveal_strlit("python");
    reveal_strlit("rb");
    reveal_strlit("rs");
    reveal_strlit("ruby");
    reveal_strlit("runtime");
    reveal_strlit("runtimes");
    reveal_strlit("rust");
    reveal_strlit("ts");
    reveal_strlit("uv");
    match s {
        PackageSource::BrewFormula => {
            reveal_strlit("brew:formula");
            assert(source_label(s).take(4) =~= "brew"@);
            assert(source_label(s)[4] == ':');
        },
        PackageSource::BrewCask => {
            reveal_strlit("brew:cask");
            assert(source_label(s).take(4) =~= "brew"@);
            assert(source_label(s)[4] == ':');
        },
        PackageSource::MiseRuntime => {
            reveal_strlit("mise:runtime");
            assert(source_label(s).take(4) =~= "mise"@);
            assert(source_label(s)[4] == ':');
        },
        PackageSource::CargoBin => {
            reveal_strlit("cargo:bin");
            assert(source_label(s).take(5) =~= "cargo"@);
            assert(source_label(s)[5] == ':');
        },
        PackageSource::Gem => {
            reveal_strlit("gem:ruby");
            assert(source_label(s).take(3) =~= "gem"@);
            assert(source_label(s)[3] == ':');
        },
        PackageSource::NpmGlobal => {
            reveal_strlit("npm:global");
            assert(source_label(s).take(3) =~= "npm"@);
            assert(source_label(s)[3] == ':');
        },
        PackageSource::UvTool => {
            reveal_strlit("uv:python");
            assert(source_label(s).take(2) =~= "uv"@);
            assert(source_label(s)[2] == ':');
        },
        PackageSource::GoBin => {
            reveal_strlit("go:bin");
            assert(source_label(s).take(2) =~= "go"@);
            assert(source_label(s)[2] == ':');
        },
        PackageSource::MacApp => {
            reveal_strlit("macos:app");
            assert(source_label(s).take(5) =~= "macos"@);
            assert(source_label(s)[5] == ':');
        },
        PackageSource::BuildCache => {
            reveal_strlit("cache:build");
            assert(source_label(s).take(5) =~= "cache"@);
            assert(source_label(s)[5] == ':');
        },
        PackageSource::DockerImage => {
            reveal_strlit("docker:image");
            assert(source_label(s).take(6) =~= "docker"@);
            assert(source_label(s)[6] == ':');
        },
    }
}

proof fn lemma_only_mise_runtime(q: Seq<char>, b: PackageSource)
    requires
        source_matches(PackageSource::MiseRuntime, q),
        source_matches(b, q),
    ensures
        b == PackageSource::MiseRuntime,
{
    reveal_strlit("app");
    reveal_strlit("apps");
    reveal_strlit("brew");
    reveal_strlit("build");
    reveal_strlit("cache");
    reveal_strlit("caches");
    reveal_strlit("cargo");
    reveal_strlit("container");
    reveal_strlit("containers");
    reveal_strlit("docker");
    reveal_strlit("gem");
    reveal_strlit("go");
    reveal_strlit("golang");
    reveal_strlit("gui");
    reveal_strlit("homebrew");
    reveal_strlit("javascript");
    reveal_strlit("js");
    reveal_strlit("macos");
    reveal_strlit("mise");
    reveal_strlit("node");
    reveal_strlit("npm");
    reveal_strlit("pip");
    reveal_strlit("py");
    reveal_strlit("python");
    reveal_strlit("rb");
    reveal_strlit("rs");
    reveal_strlit("ruby");
    reveal_strlit("runtime");
    reveal_strlit("runtimes");
    reveal_strlit("rust");
    reveal_strlit("ts");
    reveal_strlit("uv");
    assert("app"@.len() == 3);
    assert("apps"@.len() == 4);
    assert("brew"@.len() == 4);
    assert("build"@.len() == 5);
    assert("cache"@.len() == 5);
    assert("caches"@.len() == 6);
    assert("cargo"@.len() == 5);
    assert("container"@.len() == 9);
    assert("containers"@.len() == 10);
    assert("docker"@.len() == 6);
    assert("gem"@.len() == 3);
    assert("go"@.len() == 2);
    assert("golang"@.len() == 6);
    assert("gui"@.len() == 3);
    assert("homebrew"@.len() == 8);
    assert("javascript"@.len() == 10);
    assert("js"@.len() == 2);
    assert("macos"@.len() == 5);
    assert("mise"@.len() == 4);
    assert("node"@.len() == 4);
    assert("npm"@.len() == 3);
    assert("pip"@.len() == 3);
    assert("py"@.len() == 2);
    assert("python"@.len() == 6);
    assert("rb"@.len() == 2);
    assert("rs"@.len() == 2);
    assert("ruby"@.len() == 4);
    assert("runtime"@.len() == 7);
    assert("runtimes"@.len() == 8);
    assert("rust"@.len() == 4);
    assert("ts"@.len() == 2);
    assert("uv"@.len() == 2);
    assert("mise"@[0] != "apps"@[0]);
    assert("mise"@[0] != "brew"@[0]);
    assert("mise"@[0] != "node"@[0]);
    assert("mise"@[0] != "ruby"@[0]);
    assert("mise"@[0] != "rust"@[0]);
    assert("runtimes"@[0] != "homebrew"@[0]);
    match b {
        PackageSource::BrewFormula => {},
        PackageSource::BrewCask => {},
        PackageSource::MiseRuntime => {},
        PackageSource::CargoBin => {},
        PackageSource::Gem => {},
        PackageSource::NpmGlobal => {},
        PackageSource::UvTool => {},
        PackageSource::GoBin => {},
        PackageSource::MacApp => {},
        PackageSource::BuildCache => {},
        PackageSource::DockerImage => {},
    }
}

proof fn lemma_only_cargo_bin(q: Seq<char>, b: PackageSource)
    requires
        source_matches(PackageSource::CargoBin, q),
        source_matches(b, q),
    ensures
        b == PackageSource::CargoBin,
{
    reveal_strlit("app");
    reveal_strlit("apps");
    reveal_strlit("brew");
    reveal_strlit("build");
    reveal_strlit("cache");
    reveal_strlit("caches");
    reveal_strlit("cargo");
    reveal_strlit("container");
    reveal_strlit("containers");
    reveal_strlit("docker");
    reveal_strlit("gem");
    reveal_strlit("go");
    reveal_strlit("golang");
    reveal_strlit("gui");
    reveal_strlit("homebrew");
    reveal_strlit("javascript");
    reveal_strlit("js");
    reveal_strlit("macos");
    reveal_strlit("mise");
    reveal_strlit("node");
    reveal_strlit("npm");
    reveal_strlit("pip");
    reveal_strlit("py");
    reveal_strlit("python");
    reveal_strlit("rb");
    reveal_strlit("rs");
    reveal_strlit("ruby");
    reveal_strlit("runtime");
    reveal_strlit("runtimes");
    reveal_strlit("rust");
    reveal_strlit("ts");
    reveal_strlit("uv");
    assert("app"@.len() == 3);
    assert("apps"@.len() == 4);
    assert("brew"@.len() == 4);
    assert("build"@.len() == 5);
    assert("cache"@.len() == 5);
    assert("caches"@.len() == 6);
    assert("cargo"@.len() == 5);
    assert("container"@.len() == 9);
    assert("containers"@.len() == 10);
    assert("docker"@.len() == 6);
    assert("gem"@.len() == 3);
    assert("go"@.len() == 2);
    assert("golang"@.len() == 6);
    assert("gui"@.len() == 3);
    assert("homebrew"@.len() == 8);
    assert("javascript"@.len() == 10);
    assert("js"@.len() == 2);
    assert("macos"@.len() == 5);
    assert("mise"@.len() == 4);
    assert("node"@.len() == 4);
    assert("npm"@.len() == 3);
    assert("pip"@.len() == 3);
    assert("py"@.len() == 2);
    assert("python"@.len() == 6);
    assert("rb"@.len() == 2);
    assert("rs"@.len() == 2);
    assert("ruby"@.len() == 4);
    assert("runtime"@.len() == 7);
    assert("runtimes"@.len() == 8);
    assert("rust"@.len() == 4);
    assert("ts"@.len() == 2);
    assert("uv"@.len() == 2);
    assert("cargo"@[0] != "build"@[0]);
    assert("cargo"@[2] != "cache"@[2]);
    assert("cargo"@[0] != "macos"@[0]);
    assert("rust"@[0] != "apps"@[0]);
    assert("rust"@[0] != "brew"@[0]);
    assert("rust"@[0] != "mise"@[0]);
    assert("rust"@[0] != "node"@[0]);
    assert("rust"@[2] != "ruby"@[2]);
    assert("rs"@[0] != "go"@[0]);
    assert("rs"@[0] != "js"@[0]);
    assert("rs"@[0] != "py"@[0]);
    assert("rs"@[1] != "rb"@[1]);
    assert("rs"@[0] != "ts"@[0]);
    assert("rs"@[0] != "uv"@[0]);
    match b {
        PackageSource::BrewFormula => {},
        PackageSource::BrewCask => {},
        PackageSource::MiseRuntime => {},
        PackageSource::CargoBin => {},
        PackageSource::Gem => {},
        PackageSource::NpmGlobal => {},
        PackageSource::UvTool => {},
        PackageSource::GoBin => {},
        PackageSource::MacApp => {},
        PackageSource::BuildCache => {},
        PackageSource::DockerImage => {},
    }
}

proof fn lemma_only_gem(q: Seq<char>, b: PackageSource)
    requires
        source_matches(PackageSource::Gem, q),
        source_matches(b, q),
    ensures
        b == PackageSource::Gem,
{
    reveal_strlit("app");
    reveal_strlit("apps");
    reveal_strlit("brew");
    reveal_strlit("build");
    reveal_strlit("cache");
    reveal_strlit("caches");
    reveal_strlit("cargo");
    reveal_strlit("container");
    reveal_strlit("containers");
    reveal_strlit("docker");
    reveal_strlit("gem");
    reveal_strlit("go");
    reveal_strlit("golang");
    reveal_strlit("gui");
    reveal_strlit("homebrew");
    reveal_strlit("javascript");
    reveal_strlit("js");
    reveal_strlit("macos");
    reveal_strlit("mise");
    reveal_strlit("node");
    reveal_strlit("npm");
    reveal_strlit("pip");
    reveal_strlit("py");
    reveal_strlit("python");
    reveal_strlit("rb");
    reveal_strlit("rs");
    reveal_strlit("ruby");
    reveal_strlit("runtime");
    reveal_strlit("runtimes");
    reveal_strlit("rust");
    reveal_strlit("ts");
    reveal_strlit("uv");
    assert("app"@.len() == 3);
    assert("apps"@.len() == 4);
    assert("brew"@.len() == 4);
    assert("build"@.len() == 5);
    assert("cache"@.len() == 5);
    assert("caches"@.len() == 6);
    assert("cargo"@.len() == 5);
    assert("container"@.len() == 9);
    assert("containers"@.len() == 10);
    assert("docker"@.len() == 6);
    assert("gem"@.len() == 3);
    assert("go"@.len() == 2);
    assert("golang"@.len() == 6);
    assert("gui"@.len() == 3);
    assert("homebrew"@.len() == 8);
    assert("javascript"@.len() == 10);
    assert("js"@.len() == 2);
    assert("macos"@.len() == 5);
    assert("mise"@.len() == 4);
    assert("node"@.len() == 4);
    assert("npm"@.len() == 3);
    assert("pip"@.len() == 3);
    assert("py"@.len() == 2);
    assert("python"@.len() == 6);
    assert("rb"@.len() == 2);
    assert("rs"@.len() == 2);
    assert("ruby"@.len() == 4);
    assert("runtime"@.len() == 7);
    assert("runtimes"@.len() == 8);
    assert("rust"@.len() == 4);
    assert("ts"@.len() == 2);
    assert("uv"@.len() == 2);
    assert("gem"@[0] != "app"@[0]);
    assert("gem"@[1] != "gui"@[1]);
    assert("gem"@[0] != "npm"@[0]);
    assert("gem"@[0] != "pip"@[0]);
    assert("ruby"@[0] != "apps"@[0]);
    assert("ruby"@[0] != "brew"@[0]);
    assert("ruby"@[0] != "mise"@[0]);
    assert("ruby"@[0] != "node"@[0]);
    assert("ruby"@[2] != "rust"@[2]);
    assert("rb"@[0] != "go"@[0]);
    assert("rb"@[0] != "js"@[0]);
    assert("rb"@[0] != "py"@[0]);
    assert("rb"@[1] != "rs"@[1]);
    assert("rb"@[0] != "ts"@[0]);
    assert("rb"@[0] != "uv"@[0]);
    match b {
        PackageSource::BrewFormula => {},
        PackageSource::BrewCask => {},
        PackageSource::MiseRuntime => {},
        PackageSource::CargoBin => {},
        PackageSource::Gem => {},
        PackageSource::NpmGlobal => {},
        PackageSource::UvTool => {},
        PackageSource::GoBin => {},
        PackageSource::MacApp => {},
        PackageSource::BuildCache => {},
        PackageSource::DockerImage => {},
    }
}

proof fn lemma_only_npm_global(q: Seq<char>, b: PackageSource)
    requires
        source_matches(PackageSource::NpmGlobal, q),
        source_matches(b, q),
    ensures
        b == PackageSource::NpmGlobal,
{
    reveal_strlit("app");
    reveal_strlit("apps");
    reveal_strlit("brew");
    reveal_strlit("build");
    reveal_strlit("cache");
    reveal_strlit("caches");
    reveal_strlit("cargo");
    reveal_strlit("container");
    reveal_strlit("containers");
    reveal_strlit("docker");
    reveal_strlit("gem");
    reveal_strlit("go");
    reveal_strlit("golang");
    reveal_strlit("gui");
    reveal_strlit("homebrew");
    reveal_strlit("javascript");
    reveal_strlit("js");
    reveal_strlit("macos");
    reveal_strlit("mise");
    reveal_strlit("node");
    reveal_strlit("npm");
    reveal_strlit("pip");
    reveal_strlit("py");
    reveal_strlit("python");
    reveal_strlit("rb");
    reveal_strlit("rs");
    reveal_strlit("ruby");
    reveal_strlit("runtime");
    reveal_strlit("runtimes");
    reveal_strlit("rust");
    reveal_strlit("ts");
    reveal_strlit("uv");
    assert("app"@.len() == 3);
    assert("apps"@.len() == 4);
    assert("brew"@.len() == 4);
    assert("build"@.len() == 5);
    assert("cache"@.len() == 5);
    assert("caches"@.len() == 6);
    assert("cargo"@.len() == 5);
    assert("container"@.len() == 9);
    assert("containers"@.len() == 10);
    assert("docker"@.len() == 6);
    assert("gem"@.len() == 3);
    assert("go"@.len() == 2);
    assert("golang"@.len() == 6);
    assert("gui"@.len() == 3);
    assert("homebrew"@.len() == 8);
    assert("javascript"@.len() == 10);
    assert("js"@.len() == 2);
    assert("macos"@.len() == 5);
    assert("mise"@.len() == 4);
    assert("node"@.len() == 4);
    assert("npm"@.len() == 3);
    assert("pip"@.len() == 3);
    assert("py"@.len() == 2);
    assert("python"@.len() == 6);
    assert("rb"@.len() == 2);
    assert("rs"@.len() == 2);
    assert("ruby"@.len() == 4);
    assert("runtime"@.len() == 7);
    assert("runtimes"@.len() == 8);
    assert("rust"@.len() == 4);
    assert("ts"@.len() == 2);
    assert("uv"@.len() == 2);
    assert("npm"@[0] != "app"@[0]);
    assert("npm"@[0] != "gem"@[0]);
    assert("npm"@[0] != "gui"@[0]);
    assert("npm"@[0] != "pip"@[0]);
    assert("node"@[0] != "apps"@[0]);
    assert("node"@[0] != "brew"@[0]);
    assert("node"@[0] != "mise"@[0]);
    assert("node"@[0] != "ruby"@[0]);
    assert("node"@[0] != "rust"@[0]);
    assert("js"@[0] != "go"@[0]);
    assert("js"@[0] != "py"@[0]);
    assert("js"@[0] != "rb"@[0]);
    assert("js"@[0] != "rs"@[0]);
    assert("js"@[0] != "uv"@[0]);
    assert("javascript"@[0] != "containers"@[0]);
    assert("ts"@[0] != "go"@[0]);
    assert("ts"@[0] != "py"@[0]);
    assert("ts"@[0] != "rb"@[0]);
    assert("ts"@[0] != "rs"@[0]);
    assert("ts"@[0] != "uv"@[0]);
    match b {
        PackageSource::BrewFormula => {},
        PackageSource::BrewCask => {},
        PackageSource::MiseRuntime => {},
        PackageSource::CargoBin => {},
        PackageSource::Gem => {},
        PackageSource::NpmGlobal => {},
        PackageSource::UvTool => {},
        PackageSource::GoBin => {},
        PackageSource::MacApp => {},
        PackageSource::BuildCache => {},
        PackageSource::DockerImage => {},
    }
}

proof fn lemma_only_uv_tool(q: Seq<char>, b: PackageSource)
    requires
        source_matches(PackageSource::UvTool, q),
        source_matches(b, q),
    ensures
        b == PackageSource::UvTool,
{
    reveal_strlit("app");
    reveal_strlit("apps");
    reveal_strlit("brew");
    reveal_strlit("build");
    reveal_strlit("cache");
    reveal_strlit("caches");
    reveal_strlit("cargo");
    reveal_strlit("container");
    reveal_strlit("containers");
    reveal_strlit("docker");
    reveal_strlit("gem");
    reveal_strlit("go");
    reveal_strlit("golang");
    reveal_strlit("gui");
    reveal_strlit("homebrew");
    reveal_strlit("javascript");
    reveal_strlit("js");
    reveal_strlit("macos");
    reveal_strlit("mise");
    reveal_strlit("node");
    reveal_strlit("npm");
    reveal_strlit("pip");
    reveal_strlit("py");
    reveal_strlit("python");
    reveal_strlit("rb");
    reveal_strlit("rs");
    reveal_strlit("ruby");
    reveal_strlit("runtime");
    reveal_strlit("runtimes");
    reveal_strlit("rust");
    reveal_strlit("ts");
    reveal_strlit("uv");
    assert("app"@.len() == 3);
    assert("apps"@.len() == 4);
    assert("brew"@.len() == 4);
    assert("build"@.len() == 5);
    assert("cache"@.len() == 5);
    assert("caches"@.len() == 6);
    assert("cargo"@.len() == 5);
    assert("container"@.len() == 9);
    assert("containers"@.len() == 10);
    assert("docker"@.len() == 6);
    assert("gem"@.len() == 3);
    assert("go"@.len() == 2);
    assert("golang"@.len() == 6);
    assert("gui"@.len() == 3);
    assert("homebrew"@.len() == 8);
    assert("javascript"@.len() == 10);
    assert("js"@.len() == 2);
    assert("macos"@.len() == 5);
    assert("mise"@.len() == 4);
    assert("node"@.len() == 4);
    assert("npm"@.len() == 3);
    assert("pip"@.len() == 3);
    assert("py"@.len() == 2);
    assert("python"@.len() == 6);
    assert("rb"@.len() == 2);
    assert("rs"@.len() == 2);
    assert("ruby"@.len() == 4);
    assert("runtime"@.len() == 7);
    assert("runtimes"@.len() == 8);
    assert("rust"@.len() == 4);
    assert("ts"@.len() == 2);
    assert("uv"@.len() == 2);
    assert("uv"@[0] != "go"@[0]);
    assert("uv"@[0] != "js"@[0]);
    assert("uv"@[0] != "rb"@[0]);
    assert("uv"@[0] != "rs"@[0]);
    assert("uv"@[0] != "ts"@[0]);
    assert("python"@[0] != "caches"@[0]);
    assert("python"@[0] != "docker"@[0]);
    assert("python"@[0] != "golang"@[0]);
    assert("py"@[0] != "go"@[0]);
    assert("py"@[0] != "js"@[0]);
    assert("py"@[0] != "rb"@[0]);
    assert("py"@[0] != "rs"@[0]);
    assert("py"@[0] != "ts"@[0]);
    assert("pip"@[0] != "app"@[0]);
    assert("pip"@[0] != "gem"@[0]);
    assert("pip"@[0] != "gui"@[0]);
    assert("pip"@[0] != "npm"@[0]);
    match b {
        PackageSource::BrewFormula => {},
        PackageSource::BrewCask => {},
        PackageSource::MiseRuntime => {},
        PackageSource::CargoBin => {},
        PackageSource::Gem => {},
        PackageSource::NpmGlobal => {},
        PackageSource::UvTool => {},
        PackageSource::GoBin => {},
        PackageSource::MacApp => {},
        PackageSource::BuildCache => {},
        PackageSource::DockerImage => {},
    }
}

proof fn lemma_only_go_bin(q: Seq<char>, b: PackageSource)
    requires
        source_matches(PackageSource::GoBin, q),
        source_matches(b, q),
    ensures
        b == PackageSource::GoBin,
{
    reveal_strlit("app");
    reveal_strlit("apps");
    reveal_strlit("brew");
    reveal_strlit("build");
    reveal_strlit("cache");
    reveal_strlit("caches");
    reveal_strlit("cargo");
    reveal_strlit("container");
    reveal_strlit("containers");
    reveal_strlit("docker");
    reveal_strlit("gem");
    reveal_strlit("go");
    reveal_strlit("golang");
    reveal_strlit("gui");
    reveal_strlit("homebrew");
    reveal_strlit("javascript");
    reveal_strlit("js");
    reveal_strlit("macos");
    reveal_strlit("mise");
    reveal_strlit("node");
    reveal_strlit("npm");
    reveal_strlit("pip");
    reveal_strlit("py");
    reveal_strlit("python");
    reveal_strlit("rb");
    reveal_strlit("rs");
    reveal_strlit("ruby");
    reveal_strlit("runtime");
    reveal_strlit("runtimes");
    reveal_strlit("rust");
    reveal_strlit("ts");
    reveal_strlit("uv");
    assert("app"@.len() == 3);
    assert("apps"@.len() == 4);
    assert("brew"@.len() == 4);
    assert("build"@.len() == 5);
    assert("cache"@.len() == 5);
    assert("caches"@.len() == 6);
    assert("cargo"@.len() == 5);
    assert("container"@.len() == 9);
    assert("containers"@.len() == 10);
    assert("docker"@.len() == 6);
    assert("gem"@.len() == 3);
    assert("go"@.len() == 2);
    assert("golang"@.len() == 6);
    assert("gui"@.len() == 3);
    assert("homebrew"@.len() == 8);
    assert("javascript"@.len() == 10);
    assert("js"@.len() == 2);
    assert("macos"@.len() == 5);
    assert("mise"@.len() == 4);
    assert("node"@.len() == 4);
    assert("npm"@.len() == 3);
    assert("pip"@.len() == 3);
    assert("py"@.len() == 2);
    assert("python"@.len() == 6);
    assert("rb"@.len() == 2);
    assert("rs"@.len() == 2);
    assert("ruby"@.len() == 4);
    assert("runtime"@.len() == 7);
    assert("runtimes"@.len() == 8);
    assert("rust"@.len() == 4);
    assert("ts"@.len() == 2);
    assert("uv"@.len() == 2);
    assert("go"@[0] != "js"@[0]);
    assert("go"@[0] != "py"@[0]);
    assert("go"@[0] != "rb"@[0]);
    assert("go"@[0] != "rs"@[0]);
    assert("go"@[0] != "ts"@[0]);
    assert("go"@[0] != "uv"@[0]);
    assert("golang"@[0] != "caches"@[0]);
    assert("golang"@[0] != "docker"@[0]);
    assert("golang"@[0] != "python"@[0]);
    match b {
        PackageSource::BrewFormula => {},
        PackageSource::BrewCask => {},
        PackageSource::MiseRuntime => {},
        PackageSource::CargoBin => {},
        PackageSource::Gem => {},
        PackageSource::NpmGlobal => {},
        PackageSource::UvTool => {},
        PackageSource::GoBin => {},
        PackageSource::MacApp => {},
        PackageSource::BuildCache => {},
        PackageSource::DockerImage => {},
    }
}

proof fn lemma_only_mac_app(q: Seq<char>, b: PackageSource)
    requires
        source_matches(PackageSource::MacApp, q),
        source_matches(b, q),
    ensures
        b == PackageSource::MacApp,
{
    reveal_strlit("app");
    reveal_strlit("apps");
    reveal_strlit("brew");
    reveal_strlit("build");
    reveal_strlit("cache");
    reveal_strlit("caches");
    reveal_strlit("cargo");
    reveal_strlit("container");
    reveal_strlit("containers");
    reveal_strlit("docker");
    reveal_strlit("gem");
    reveal_strlit("go");
    reveal_strlit("golang");
    reveal_strlit("gui");
    reveal_strlit("homebrew");
    reveal_strlit("javascript");
    reveal_strlit("js");
    reveal_strlit("macos");
    reveal_strlit("mise");
    reveal_strlit("node");
    reveal_strlit("npm");
    reveal_strlit("pip");
    reveal_strlit("py");
    reveal_strlit("python");
    reveal_strlit("rb");
    reveal_strlit("rs");
    reveal_strlit("ruby");
    reveal_strlit("runtime");
    reveal_strlit("runtimes");
    reveal_strlit("rust");
    reveal_strlit("ts");
    reveal_strlit("uv");
    assert("app"@.len() == 3);
    assert("apps"@.len() == 4);
    assert("brew"@.len() == 4);
    assert("build"@.len() == 5);
    assert("cache"@.len() == 5);
    assert("caches"@.len() == 6);
    assert("cargo"@.len() == 5);
    assert("container"@.len() == 9);
    assert("containers"@.len() == 10);
    assert("docker"@.len() == 6);
    assert("gem"@.len() == 3);
    assert("go"@.len() == 2);
    assert("golang"@.len() == 6);
    assert("gui"@.len() == 3);
    assert("homebrew"@.len() == 8);
    assert("javascript"@.len() == 10);
    assert("js"@.len() == 2);
    assert("macos"@.len() == 5);
    assert("mise"@.len() == 4);
    assert("node"@.len() == 4);
    assert("npm"@.len() == 3);
    assert("pip"@.len() == 3);
    assert("py"@.len() == 2);
    assert("python"@.len() == 6);
    assert("rb"@.len() == 2);
    assert("rs"@.len() == 2);
    assert("ruby"@.len() == 4);
    assert("runtime"@.len() == 7);
    assert("runtimes"@.len() == 8);
    assert("rust"@.len() == 4);
    assert("ts"@.len() == 2);
    assert("uv"@.len() == 2);
    assert("app"@[0] != "gem"@[0]);
    assert("app"@[0] != "npm"@[0]);
    assert("app"@[0] != "pip"@[0]);
    assert("apps"@[0] != "brew"@[0]);
    assert("apps"@[0] != "mise"@[0]);
    assert("apps"@[0] != "node"@[0]);
    assert("apps"@[0] != "ruby"@[0]);
    assert("apps"@[0] != "rust"@[0]);
    assert("macos"@[0] != "build"@[0]);
    assert("macos"@[0] != "cache"@[0]);
    assert("macos"@[0] != "cargo"@[0]);
    assert("gui"@[1] != "gem"@[1]);
    assert("gui"@[0] != "npm"@[0]);
    assert("gui"@[0] != "pip"@[0]);
    match b {
        PackageSource::BrewFormula => {},
        PackageSource::BrewCask => {},
        PackageSource::MiseRuntime => {},
        PackageSource::CargoBin => {},
        PackageSource::Gem => {},
        PackageSource::NpmGlobal => {},
        PackageSource::UvTool => {},
        PackageSource::GoBin => {},
        PackageSource::MacApp => {},
        PackageSource::BuildCache => {},
        PackageSource::DockerImage => {},
    }
}

proof fn lemma_only_build_cache(q: Seq<char>, b: PackageSource)
    requires
        source_matches(PackageSource::BuildCache, q),
        source_matches(b, q),
    ensures
        b == PackageSource::BuildCache,
{
    reveal_strlit("app");
    reveal_strlit("apps");
    reveal_strlit("brew");
    reveal_strlit("build");
    reveal_strlit("cache");
    reveal_strlit("caches");
    reveal_strlit("cargo");
    reveal_strlit("container");
    reveal_strlit("containers");
    reveal_strlit("docker");
    reveal_strlit("gem");
    reveal_strlit("go");
    reveal_strlit("golang");
    reveal_strlit("gui");
    reveal_strlit("homebrew");
    reveal_strlit("javascript");
    reveal_strlit("js");
    reveal_strlit("macos");
    reveal_strlit("mise");
    reveal_strlit("node");
    reveal_strlit("npm");
    reveal_strlit("pip");
    reveal_strlit("py");
    reveal_strlit("python");
    reveal_strlit("rb");
    reveal_strlit("rs");
    reveal_strlit("ruby");
    reveal_strlit("runtime");
    reveal_strlit("runtimes");
    reveal_strlit("rust");
    reveal_strlit("ts");
    reveal_strlit("uv");
    assert("app"@.len() == 3);
    assert("apps"@.len() == 4);
    assert("brew"@.len() == 4);
    assert("build"@.len() == 5);
    assert("cache"@.len() == 5);
    assert("caches"@.len() == 6);
    assert("cargo"@.len() == 5);
    assert("container"@.len() == 9);
    assert("containers"@.len() == 10);
    assert("docker"@.len() == 6);
    assert("gem"@.len() == 3);
    assert("go"@.len() == 2);
    assert("golang"@.len() == 6);
    assert("gui"@.len() == 3);
    assert("homebrew"@.len() == 8);
    assert("javascript"@.len() == 10);
    assert("js"@.len() == 2);
    assert("macos"@.len() == 5);
    assert("mise"@.len() == 4);
    assert("node"@.len() == 4);
    assert("npm"@.len() == 3);
    assert("pip"@.len() == 3);
    assert("py"@.len() == 2);
    assert("python"@.len() == 6);
    assert("rb"@.len() == 2);
    assert("rs"@.len() == 2);
    assert("ruby"@.len() == 4);
    assert("runtime"@.len() == 7);
    assert("runtimes"@.len() == 8);
    assert("rust"@.len() == 4);
    assert("ts"@.len() == 2);
    assert("uv"@.len() == 2);
    assert("cache"@[2] != "cargo"@[2]);
    assert("cache"@[0] != "macos"@[0]);
    assert("caches"@[0] != "docker"@[0]);
    assert("caches"@[0] != "golang"@[0]);
    assert("caches"@[0] != "python"@[0]);
    assert("build"@[0] != "cargo"@[0]);
    assert("build"@[0] != "macos"@[0]);
    match b {
        PackageSource::BrewFormula => {},
        PackageSource::BrewCask => {},
        PackageSource::MiseRuntime => {},
        PackageSource::CargoBin => {},
        PackageSource::Gem => {},
        PackageSource::NpmGlobal => {},
        PackageSource::UvTool => {},
        PackageSource::GoBin => {},
        PackageSource::MacApp => {},
        PackageSource::BuildCache => {},
        PackageSource::DockerImage => {},
    }
}

proof fn lemma_only_docker_image(q: Seq<char>, b: PackageSource)
    requires
        source_matches(PackageSource::DockerImage, q),
        source_matches(b, q),
    ensures
        b == PackageSource::DockerImage,
{
    reveal_strlit("app");
    reveal_strlit("apps");
    reveal_strlit("brew");
    reveal_strlit("build");
    reveal_strlit("cache");
    reveal_strlit("caches");
    reveal_strlit("cargo");
    reveal_strlit("container");
    reveal_strlit("containers");
    reveal_strlit("docker");
    reveal_strlit("gem");
    reveal_strlit("go");
    reveal_strlit("golang");
    reveal_strlit("gui");
    reveal_strlit("homebrew");
    reveal_strlit("javascript");
    reveal_strlit("js");
    reveal_strlit("macos");
    reveal_strlit("mise");
    reveal_strlit("node");
    reveal_strlit("npm");
    reveal_strlit("pip");
    reveal_strlit("py");
    reveal_strlit("python");
    reveal_strlit("rb");
    reveal_strlit("rs");
    reveal_strlit("ruby");
    reveal_strlit("runtime");
    reveal_strlit("runtimes");
    reveal_strlit("rust");
    reveal_strlit("ts");
    reveal_strlit("uv");
    assert("app"@.len() == 3);
    assert("apps"@.len() == 4);
    assert("brew"@.len() == 4);
    assert("build"@.len() == 5);
    assert("cache"@.len() == 5);
    assert("caches"@.len() == 6);
    assert("cargo"@.len() == 5);
    assert("container"@.len() == 9);
    assert("containers"@.len() == 10);
    assert("docker"@.len() == 6);
    assert("gem"@.len() == 3);
    assert("go"@.len() == 2);
    assert("golang"@.len() == 6);
    assert("gui"@.len() == 3);
    assert("homebrew"@.len() == 8);
    assert("javascript"@.len() == 10);
    assert("js"@.len() == 2);
    assert("macos"@.len() == 5);
    assert("mise"@.len() == 4);
    assert("node"@.len() == 4);
    assert("npm"@.len() == 3);
    assert("pip"@.len() == 3);
    assert("py"@.len() == 2);
    assert("python"@.len() == 6);
    assert("rb"@.len() == 2);
    assert("rs"@.len() == 2);
    assert("ruby"@.len() == 4);
    assert("runtime"@.len() == 7);
    assert("runtimes"@.len() == 8);
    assert("rust"@.len() == 4);
    assert("ts"@.len() == 2);
    assert("uv"@.len() == 2);
    assert("docker"@[0] != "caches"@[0]);
    assert("docker"@[0] != "golang"@[0]);
    assert("docker"@[0] != "python"@[0]);
    assert("containers"@[0] != "javascript"@[0]);
    match b {
        PackageSource::BrewFormula => {},
        PackageSource::BrewCask => {},
        PackageSource::MiseRuntime => {},
        PackageSource::CargoBin => {},
        PackageSource::Gem => {},
        PackageSource::NpmGlobal => {},
        PackageSource::UvTool => {},
        PackageSource::GoBin => {},
        PackageSource::MacApp => {},
        PackageSource::BuildCache => {},
        PackageSource::DockerImage => {},
    }
}

/// No query names two ecosystems, but for the two Homebrew sources: the sources
/// that answer to one query are none, one, or exactly the formula and the cask.
pub proof fn ecosystem_aliases_are_disjoint(q: Seq<char>, a: PackageSource, b: PackageSource)
    requires
        source_matches(a, q),
        source_matches(b, q),
        a != b,
    ensures
        a == PackageSource::BrewFormula || a == PackageSource::BrewCask,
        b == PackageSource::BrewFormula || b == PackageSource::BrewCask,
{
    match a {
        PackageSource::BrewFormula | PackageSource::BrewCask => {},
        PackageSource::MiseRuntime => lemma_only_mise_runtime(q, b),
        PackageSource::CargoBin => lemma_only_cargo_bin(q, b),
        PackageSource::Gem => lemma_only_gem(q, b),
        PackageSource::NpmGlobal => lemma_only_npm_global(q, b),
        PackageSource::UvTool => lemma_only_uv_tool(q, b),
        PackageSource::GoBin => lemma_only_go_bin(q, b),
        PackageSource::MacApp => lemma_only_mac_app(q, b),
        PackageSource::BuildCache => lemma_only_build_cache(q, b),
        PackageSource::DockerImage => lemma_only_docker_image(q, b),
    }
    match b {
        PackageSource::BrewFormula | PackageSource::BrewCask => {},
        PackageSource::MiseRuntime => lemma_only_mise_runtime(q, a),
        PackageSource::CargoBin => lemma_only_cargo_bin(q, a),
        PackageSource::Gem => lemma_only_gem(q, a),
        PackageSource::NpmGlobal => lemma_only_npm_global(q, a),
        PackageSource::UvTool => lemma_only_uv_tool(q, a),
        PackageSource::GoBin => lemma_only_go_bin(q, a),
        PackageSource::MacApp => lemma_only_mac_app(q, a),
        PackageSource::BuildCache => lemma_only_build_cache(q, a),
        PackageSource::DockerImage => lemma_only_docker_image(q, a),
    }
}


/// Ruby gems answer the ecosystem names `ruby`, `gem` and `rb` (in any ASCII
/// case, by `matches_ecosystem`'s ASCII clause).
pub proof fn gems_answer_ruby(it: InventoryItem)
    requires
        it.source == PackageSource::Gem,
    ensures
        item_matches(it, "ruby"@),
        item_matches(it, "gem"@),
        item_matches(it, "rb"@),
        source_matches(PackageSource::Gem, "ruby"@),
{
}

} // verus!
