use vstd::prelude::*;
use crate::clock::current_time;
use crate::doc::strs;
use crate::engine::dep_graph::{lists, lists_exec};
use crate::models::category::{Category, category_name};
use crate::models::item::{
    InventoryItem, PackageSource, Timestamp, inactivity_at, is_cache_item, is_orphan_item,
    item_matches, source_label,
};
use crate::models::tombstone::PackageTombstone;
use crate::models::metadata::{code_points, code_point_key};
use crate::order::{key_views, lemma_ranks_total, ranks_before, sort_indices, sorted_by_keys};
use crate::size::{format_bytes, format_bytes_spec};
use crate::cleanup::script_gen::{total_size, checked_total_size};
use crate::models::item::same_item;
use crate::text::{
    append_str, chars_of, contains_str, decimal, has_substring, owned, str_eq, to_lower, to_upper,
    trim_spec, trim_start_spec, trim_str, u64_decimal, u128_decimal, unicode_lower, unicode_upper, push_char,
};

verus! {

#[derive(Debug, Clone, Copy, PartialEq, Eq, Structural)]
pub enum InputMode {
    Normal,
    FilterMenu,
    EcosystemMenu,
    CategoryMenu,
    SortMenu,
    MarkMenu,
    Searching,
    HistoryView,
    HelpModal,
}

#[derive(Debug, Clone, Copy, PartialEq, Eq, Structural)]
pub enum SortOrder {
    SizeDesc,
    NameAsc,
    LastUsedDesc,
    SourceAsc,
    CategoryAsc,
}

pub open spec fn sort_label(s: SortOrder) -> Seq<char> {
    match s {
        SortOrder::SizeDesc => "Disk Size (Largest first)"@,
        SortOrder::NameAsc => "Package Name (A-Z)"@,
        SortOrder::LastUsedDesc => "Inactivity (Longest unused first)"@,
        SortOrder::SourceAsc => "Source Ecosystem (A-Z)"@,
        SortOrder::CategoryAsc => "Category Domain (A-Z)"@,
    }
}

impl SortOrder {
    pub fn label(&self) -> (r: &'static str)
        ensures
            r@ == sort_label(*self),
    {
        match self {
            SortOrder::SizeDesc => "Disk Size (Largest first)",
            SortOrder::NameAsc => "Package Name (A-Z)",
            SortOrder::LastUsedDesc => "Inactivity (Longest unused first)",
            SortOrder::SourceAsc => "Source Ecosystem (A-Z)",
            SortOrder::CategoryAsc => "Category Domain (A-Z)",
        }
    }
}

/// The spinner animation frames.
pub open spec fn spinner_frame(i: int) -> Seq<char> {
    if i == 0 { "⠋"@ } else if i == 1 { "⠙"@ } else if i == 2 { "⠹"@ } else if i == 3 { "⠸"@ }
    else if i == 4 { "⠼"@ } else if i == 5 { "⠴"@ } else if i == 6 { "⠦"@ } else if i == 7 { "⠧"@ }
    else if i == 8 { "⠇"@ } else { "⠏"@ }
}

/// The number of spinner frames.
pub const SPINNER_FRAME_COUNT: usize = 10;

/// Progress reported by the background audit.
pub enum AuditEvent {
    StageUpdate { stage_name: String, discovered_count: usize },
    IncrementalBatch { items: Vec<InventoryItem> },
    AuditComplete { final_items: Vec<InventoryItem>, elapsed_ms: u128 },
}

pub struct App {
    pub items: Vec<InventoryItem>,
    pub filtered_indices: Vec<usize>,
    pub selected_index: usize,
    pub marked_for_prune: Vec<String>,
    pub active_ecosystems: Vec<String>,
    pub active_categories: Vec<Category>,
    pub only_orphans: bool,
    pub only_caches: bool,
    pub only_top_level: bool,
    pub min_inactivity_days: Option<u64>,
    pub search_query: String,
    pub active_sort: SortOrder,
    pub input_mode: InputMode,
    /// (message, is_success)
    pub status_message: Option<(String, bool)>,
    pub tombstones: Vec<PackageTombstone>,
    pub selected_tombstone_idx: usize,
    pub is_loading: bool,
    pub spin_idx: usize,
    pub current_stage: String,
}

// ---------------------------------------------------------------------------
// What the filters select and how the selection is ordered
// ---------------------------------------------------------------------------

pub open spec fn eco_ok(ecos: Seq<String>, item: InventoryItem) -> bool {
    ecos.len() == 0 || exists|e: int| 0 <= e < ecos.len() && item_matches(item, unicode_lower(ecos[e]@))
}

pub open spec fn cat_ok(cats: Seq<Category>, item: InventoryItem) -> bool {
    cats.len() == 0 || cats.contains(item.category)
}

/// Days of inactivity used by the filters and the sort: unknown counts as zero.
pub open spec fn days_or_zero(item: InventoryItem, now: Timestamp) -> int {
    match inactivity_at(item, now) {
        Some(d) => d,
        None => 0,
    }
}

/// With a threshold of `m` days, only items inactive for more than `m` days pass.
pub open spec fn inactivity_ok(min: Option<u64>, item: InventoryItem, now: Timestamp) -> bool {
    match min {
        Some(m) => days_or_zero(item, now) > m,
        None => true,
    }
}

/// The lower-cased, trimmed search text matches the item's name, id, category or source label.
/// The search `t` (already trimmed) finds the item: empty, or its lower-cased
/// form occurs in the lower-cased name, ID, category name or source label.
pub open spec fn query_ok(t: Seq<char>, item: InventoryItem) -> bool {
    let q = unicode_lower(t);
    t.len() == 0 || has_substring(unicode_lower(item.name@), q) || has_substring(unicode_lower(item.id@), q)
        || has_substring(unicode_lower(category_name(item.category)), q) || has_substring(
        unicode_lower(source_label(item.source)),
        q,
    )
}

/// Whether the dashboard's filters let `item` through at time `now`.
pub open spec fn visible(app: App, item: InventoryItem, now: Timestamp) -> bool {
    &&& eco_ok(app.active_ecosystems@, item)
    &&& cat_ok(app.active_categories@, item)
    &&& (app.only_orphans ==> is_orphan_item(item))
    &&& (app.only_caches ==> is_cache_item(item))
    &&& (app.only_top_level ==> item.is_top_level)
    &&& inactivity_ok(app.min_inactivity_days, item, now)
    &&& query_ok(trim_spec(app.search_query@), item)
}

pub open spec fn source_rank(s: PackageSource) -> u64 {
    match s {
        PackageSource::BrewFormula => 0,
        PackageSource::BrewCask => 1,
        PackageSource::MiseRuntime => 2,
        PackageSource::CargoBin => 3,
        PackageSource::Gem => 4,
        PackageSource::NpmGlobal => 5,
        PackageSource::UvTool => 6,
        PackageSource::GoBin => 7,
        PackageSource::MacApp => 8,
        PackageSource::BuildCache => 9,
        PackageSource::DockerImage => 10,
    }
}

pub open spec fn category_rank(c: Category) -> u64 {
    match c {
        Category::LanguagesAndRuntimes => 0,
        Category::DatabasesAndStorage => 1,
        Category::CliDeveloperTools => 2,
        Category::InfrastructureAndCloud => 3,
        Category::BuildAndPackageManagers => 4,
        Category::GuiAppsAndMedia => 5,
        Category::BuildArtifactsAndCaches => 6,
        Category::SystemAndLibraries => 7,
        Category::Uncategorized => 8,
    }
}

/// The sort key of an item: items sort by increasing key (so descending orders use
/// complements); names by their lower-cased code points, as `String` orders them;
/// enums by declaration order, as their derived `Ord` does.
pub open spec fn sort_key(item: InventoryItem, order: SortOrder, now: Timestamp) -> Seq<u64> {
    match order {
        SortOrder::SizeDesc => seq![(0xffff_ffff_ffff_ffffint - item.size_bytes) as u64],
        SortOrder::NameAsc => code_points(unicode_lower(item.name@)),
        SortOrder::LastUsedDesc => seq![
            (0xffff_ffff_ffff_ffffint - days_or_zero(item, now)) as u64,
            (0xffff_ffff_ffff_ffffint - item.size_bytes) as u64,
        ],
        SortOrder::SourceAsc => seq![source_rank(item.source)],
        SortOrder::CategoryAsc => seq![category_rank(item.category)],
    }
}

pub open spec fn sort_keys(items: Seq<InventoryItem>, order: SortOrder, now: Timestamp) -> Seq<Seq<u64>> {
    items.map_values(|i: InventoryItem| sort_key(i, order, now))
}

/// The visible items' indices, each once, in sort order (ties by position): what
/// the dashboard lists at time `now`.
pub open spec fn listed(app: App, now: Timestamp, idx: Seq<usize>) -> bool {
    &&& idx.no_duplicates()
    &&& forall|k: int| 0 <= k < idx.len() ==> idx[k] < app.items@.len() && visible(app, app.items@[idx[k] as int], now)
    &&& forall|i: int| 0 <= i < app.items@.len() && visible(app, app.items@[i], now) ==> idx.contains(i as usize)
    &&& sorted_by_keys(sort_keys(app.items@, app.active_sort, now), idx)
}

/// The selection after the list changed length: kept when still in range, else moved to the last row.
pub open spec fn clamped(sel: usize, len: nat) -> usize {
    if sel >= len {
        if len == 0 { 0 } else { (len - 1) as usize }
    } else {
        sel
    }
}

/// `b` is `a` with the list recomputed at some time `now` (and the selection clamped);
/// every other field is as in `a`.
pub open spec fn refiltered(a: App, b: App) -> bool {
    &&& same_state(a, b)
    &&& exists|now: Timestamp| listed(b, now, b.filtered_indices@)
    &&& b.selected_index == clamped(a.selected_index, b.filtered_indices@.len())
}

/// The fields other than the list, the selection and the status agree.
pub open spec fn same_state(a: App, b: App) -> bool {
    &&& a.items@ == b.items@
    &&& a.marked_for_prune@ == b.marked_for_prune@
    &&& same_filters(a, b)
    &&& a.input_mode == b.input_mode
    &&& a.tombstones@ == b.tombstones@
    &&& a.selected_tombstone_idx == b.selected_tombstone_idx
    &&& a.is_loading == b.is_loading
    &&& a.spin_idx == b.spin_idx
    &&& a.current_stage == b.current_stage
}

/// The filter and sort settings agree.
pub open spec fn same_filters(a: App, b: App) -> bool {
    &&& a.active_ecosystems@ == b.active_ecosystems@
    &&& a.active_categories@ == b.active_categories@
    &&& a.only_orphans == b.only_orphans
    &&& a.only_caches == b.only_caches
    &&& a.only_top_level == b.only_top_level
    &&& a.min_inactivity_days == b.min_inactivity_days
    &&& a.search_query == b.search_query
    &&& a.active_sort == b.active_sort
}


// ---------------------------------------------------------------------------
// Filtering and sorting
// ---------------------------------------------------------------------------

fn rank_of_source(s: PackageSource) -> (r: u64)
    ensures
        r == source_rank(s),
{
    match s {
        PackageSource::BrewFormula => 0,
        PackageSource::BrewCask => 1,
        PackageSource::MiseRuntime => 2,
        PackageSource::CargoBin => 3,
        PackageSource::Gem => 4,
        PackageSource::NpmGlobal => 5,
        PackageSource::UvTool => 6,
        PackageSource::GoBin => 7,
        PackageSource::MacApp => 8,
        PackageSource::BuildCache => 9,
        PackageSource::DockerImage => 10,
    }
}

fn rank_of_category(c: Category) -> (r: u64)
    ensures
        r == category_rank(c),
{
    match c {
        Category::LanguagesAndRuntimes => 0,
        Category::DatabasesAndStorage => 1,
        Category::CliDeveloperTools => 2,
        Category::InfrastructureAndCloud => 3,
        Category::BuildAndPackageManagers => 4,
        Category::GuiAppsAndMedia => 5,
        Category::BuildArtifactsAndCaches => 6,
        Category::SystemAndLibraries => 7,
        Category::Uncategorized => 8,
    }
}

fn one_key(a: u64) -> (r: Vec<u64>)
    ensures
        r@ == seq![a],
{
    let mut v: Vec<u64> = Vec::new();
    v.push(a);
    assert(v@ =~= seq![a]);
    v
}

fn days_or_zero_exec(item: &InventoryItem, now: Timestamp) -> (r: i64)
    ensures
        r == days_or_zero(*item, now),
        r >= 0,
{
    match item.inactivity_days_at(now) {
        Some(d) => d,
        None => 0,
    }
}

/// The sort key of one item under `order`.
pub(crate) fn sort_key_of(item: &InventoryItem, order: SortOrder, now: Timestamp) -> (r: Vec<u64>)
    ensures
        r@ == sort_key(*item, order, now),
{
    match order {
        SortOrder::SizeDesc => one_key(u64::MAX - item.size_bytes),
        SortOrder::NameAsc => {
            let l = to_lower(item.name.as_str());
            code_point_key(l.as_str())
        },
        SortOrder::LastUsedDesc => {
            let d = days_or_zero_exec(item, now);
            let mut v: Vec<u64> = Vec::new();
            v.push(u64::MAX - d as u64);
            v.push(u64::MAX - item.size_bytes);
            assert(v@ =~= sort_key(*item, order, now));
            v
        },
        SortOrder::SourceAsc => one_key(rank_of_source(item.source)),
        SortOrder::CategoryAsc => one_key(rank_of_category(item.category)),
    }
}

fn eco_pass(ecos: &Vec<String>, item: &InventoryItem) -> (r: bool)
    ensures
        r == eco_ok(ecos@, *item),
{
    if ecos.len() == 0 {
        return true;
    }
    let mut i: usize = 0;
    while i < ecos.len()
        invariant
            i <= ecos@.len(),
            forall|e: int| 0 <= e < i ==> !item_matches(*item, unicode_lower(ecos@[e]@)),
        decreases ecos@.len() - i,
    {
        if item.matches_ecosystem(ecos[i].as_str()) {
            return true;
        }
        i = i + 1;
    }
    false
}

fn cat_pass(cats: &Vec<Category>, c: Category) -> (r: bool)
    ensures
        r == (cats@.len() == 0 || cats@.contains(c)),
{
    if cats.len() == 0 {
        return true;
    }
    let mut i: usize = 0;
    while i < cats.len()
        invariant
            i <= cats@.len(),
            forall|e: int| 0 <= e < i ==> cats@[e] != c,
        decreases cats@.len() - i,
    {
        if cats[i] == c {
            return true;
        }
        i = i + 1;
    }
    false
}

fn inactivity_pass(min: Option<u64>, item: &InventoryItem, now: Timestamp) -> (r: bool)
    ensures
        r == inactivity_ok(min, *item, now),
{
    match min {
        Some(m) => {
            let d = days_or_zero_exec(item, now);
            d > 0 && d as u64 > m
        },
        None => true,
    }
}

fn query_pass(t: &str, q: &str, item: &InventoryItem) -> (r: bool)
    requires
        q@ == unicode_lower(t@),
    ensures
        r == query_ok(t@, *item),
{
    let tc = chars_of(t);
    if tc.len() == 0 {
        return true;
    }
    let name = to_lower(item.name.as_str());
    if contains_str(name.as_str(), q) {
        return true;
    }
    let id = to_lower(item.id.as_str());
    if contains_str(id.as_str(), q) {
        return true;
    }
    let cat = to_lower(item.category.as_str());
    if contains_str(cat.as_str(), q) {
        return true;
    }
    let src = to_lower(item.source.label());
    contains_str(src.as_str(), q)
}

impl App {
    /// Whether the filters let `item` through, given the prepared search text.
    fn passes(&self, item: &InventoryItem, trimmed: &str, query: &str, now: Timestamp) -> (r: bool)
        requires
            trimmed@ == trim_spec(self.search_query@),
            query@ == unicode_lower(trimmed@),
        ensures
            r == visible(*self, *item, now),
    {
        if !eco_pass(&self.active_ecosystems, item) {
            return false;
        }
        if !cat_pass(&self.active_categories, item.category) {
            return false;
        }
        if self.only_orphans && !item.is_orphan() {
            return false;
        }
        if self.only_caches && !item.is_cache() {
            return false;
        }
        if self.only_top_level && !item.is_top_level {
            return false;
        }
        if !inactivity_pass(self.min_inactivity_days, item, now) {
            return false;
        }
        query_pass(trimmed, query, item)
    }

    /// Recomputes the listed rows at the moment `now`: the visible items, in the
    /// active sort order (ties by position), with the selection clamped to the list.
    pub fn reapply_filters_at(&mut self, now: Timestamp)
        ensures
            same_state(*old(self), *final(self)),
            final(self).status_message == old(self).status_message,
            listed(*final(self), now, final(self).filtered_indices@),
            final(self).selected_index == clamped(
                old(self).selected_index,
                final(self).filtered_indices@.len(),
            ),
    {
        let trimmed = trim_str(self.search_query.as_str());
        let query = to_lower(trimmed.as_str());
        let mut matched: Vec<usize> = Vec::new();
        let mut keys: Vec<Vec<u64>> = Vec::new();
        let n = self.items.len();
        let mut i: usize = 0;
        while i < n
            invariant
                n == self.items@.len(),
                i <= n,
                trimmed@ == trim_spec(self.search_query@),
                query@ == unicode_lower(trimmed@),
                keys@.len() == i,
                forall|j: int| 0 <= j < i ==> keys@[j]@ == sort_key(self.items@[j], self.active_sort, now),
                forall|a: int, b: int| 0 <= a < b < matched@.len() ==> matched@[a] < matched@[b],
                forall|a: int| 0 <= a < matched@.len() ==> #[trigger] matched@[a] < i,
                forall|a: int| 0 <= a < matched@.len() ==> visible(*self, self.items@[#[trigger] matched@[a] as int], now),
                forall|j: int| 0 <= j < i && visible(*self, self.items@[j], now) ==> matched@.contains(j as usize),
            decreases n - i,
        {
            let k = sort_key_of(&self.items[i], self.active_sort, now);
            keys.push(k);
            let ghost before = matched@;
            if self.passes(&self.items[i], trimmed.as_str(), query.as_str(), now) {
                matched.push(i);
                proof {
                    assert(matched@[before.len() as int] == i);
                    assert forall|a: int| 0 <= a < matched@.len() implies #[trigger] matched@[a] < i + 1 && visible(*self, self.items@[matched@[a] as int], now) by {
                        if a < before.len() {
                            assert(matched@[a] == before[a]);
                        }
                    }
                    assert forall|a: int, b: int| 0 <= a < b < matched@.len() implies matched@[a] < matched@[b] by {
                        if b < before.len() {
                            assert(matched@[a] == before[a]);
                            assert(matched@[b] == before[b]);
                        } else {
                            assert(matched@[a] == before[a]);
                            assert(before[a] < i);
                        }
                    }
                    assert forall|j: int| 0 <= j < i + 1 && visible(*self, self.items@[j], now) implies matched@.contains(j as usize) by {
                        if j < i {
                            let w = choose|w: int| 0 <= w < before.len() && before[w] == j as usize;
                            assert(matched@[w] == j as usize);
                        }
                    }
                }
            }
            i = i + 1;
        }
        proof {
            assert(key_views(keys@) =~= sort_keys(self.items@, self.active_sort, now));
        }
        let sorted = sort_indices(&matched, &keys);
        let ghost s0 = *self;
        self.filtered_indices = sorted;
        if self.selected_index >= self.filtered_indices.len() {
            if self.filtered_indices.len() == 0 {
                self.selected_index = 0;
            } else {
                self.selected_index = self.filtered_indices.len() - 1;
            }
        }
        proof {
            let f = self.filtered_indices@;
            assert forall|it: InventoryItem| visible(*self, it, now) == visible(s0, it, now) by {}
            assert forall|k: int| 0 <= k < f.len() implies f[k] < self.items@.len() && visible(*self, self.items@[f[k] as int], now) by {
                assert(f.to_set().contains(f[k]));
                assert(matched@.to_set().contains(f[k]));
                let a = choose|a: int| 0 <= a < matched@.len() && matched@[a] == f[k];
                assert(visible(s0, self.items@[matched@[a] as int], now));
            }
            assert forall|j: int| 0 <= j < self.items@.len() && visible(*self, self.items@[j], now) implies f.contains(j as usize) by {
                assert(visible(s0, self.items@[j], now));
                assert(matched@.contains(j as usize));
                let a = choose|a: int| 0 <= a < matched@.len() && matched@[a] == j as usize;
                assert(matched@.to_set().contains(j as usize));
                assert(f.to_set().contains(j as usize));
            }
        }
    }

    /// Recomputes the listed rows at the current clock.
    pub fn reapply_filters(&mut self)
        ensures
            refiltered(*old(self), *final(self)),
            final(self).status_message == old(self).status_message,
    {
        let now = current_time();
        self.reapply_filters_at(now);
        assert(listed(*self, now, self.filtered_indices@));
    }
}


// ---------------------------------------------------------------------------
// Lists of strings used as sets
// ---------------------------------------------------------------------------

/// The texts held by a list used as a set.
pub open spec fn text_set(v: Seq<String>) -> Set<Seq<char>> {
    Set::new(|t: Seq<char>| lists(v, t))
}

/// `s` with `x` removed when present and added when absent.
pub open spec fn toggled(s: Set<Seq<char>>, x: Seq<char>) -> Set<Seq<char>> {
    if s.contains(x) {
        s.remove(x)
    } else {
        s.insert(x)
    }
}

/// Adds `x` to the list unless it is already there.
fn insert_text(v: &mut Vec<String>, x: &str)
    ensures
        text_set(final(v)@) == text_set(old(v)@).insert(x@),
{
    let xc = chars_of(x);
    if !lists_exec(v, &xc) {
        let ghost before = v@;
        v.push(owned(x));
        proof {
            assert forall|t: Seq<char>| lists(v@, t) <==> (lists(before, t) || t == x@) by {
                if lists(before, t) {
                    let j = choose|j: int| 0 <= j < before.len() && before[j]@ == t;
                    assert(v@[j] == before[j]);
                }
                if t == x@ {
                    assert(v@[before.len() as int]@ == t);
                }
                if lists(v@, t) {
                    let j = choose|j: int| 0 <= j < v@.len() && v@[j]@ == t;
                    if j < before.len() {
                        assert(v@[j] == before[j]);
                    }
                }
            }
        }
    }
    assert(text_set(v@) =~= text_set(old(v)@).insert(x@));
}

/// Removes every copy of `x` from the list.
fn remove_text(v: &mut Vec<String>, x: &str)
    ensures
        text_set(final(v)@) == text_set(old(v)@).remove(x@),
{
    let mut out: Vec<String> = Vec::new();
    let mut i: usize = 0;
    while i < v.len()
        invariant
            i <= v@.len(),
            forall|t: Seq<char>| lists(out@, t) <==> (t != x@ && lists(v@.take(i as int), t)),
        decreases v@.len() - i,
    {
        let ghost before = out@;
        if !str_eq(v[i].as_str(), x) {
            out.push(owned(v[i].as_str()));
        }
        proof {
            assert forall|t: Seq<char>| lists(out@, t) <==> (t != x@ && lists(v@.take(i + 1), t)) by {
                if lists(v@.take(i + 1), t) {
                    let j = choose|j: int| 0 <= j < i + 1 && (#[trigger] v@.take(i + 1)[j])@ == t;
                    if j < i {
                        assert(v@.take(i as int)[j] == v@[j]);
                    }
                }
                if lists(v@.take(i as int), t) {
                    let j = choose|j: int| 0 <= j < i && (#[trigger] v@.take(i as int)[j])@ == t;
                    assert(v@.take(i + 1)[j] == v@[j]);
                }
                if t == v@[i as int]@ {
                    assert(v@.take(i + 1)[i as int] == v@[i as int]);
                }
                if lists(before, t) {
                    let j = choose|j: int| 0 <= j < before.len() && before[j]@ == t;
                    assert(out@[j] == before[j]);
                }
                if lists(out@, t) {
                    let j = choose|j: int| 0 <= j < out@.len() && out@[j]@ == t;
                    if j < before.len() {
                        assert(out@[j] == before[j]);
                    }
                }
                if t != x@ && t == v@[i as int]@ {
                    assert(out@[before.len() as int]@ == t);
                }
            }
        }
        i = i + 1;
    }
    assert(v@.take(v@.len() as int) =~= v@);
    *v = out;
    assert(text_set(v@) =~= text_set(old(v)@).remove(x@));
}

/// Adds `x` when absent, removes it when present.
fn toggle_text(v: &mut Vec<String>, x: &str)
    ensures
        text_set(final(v)@) == toggled(text_set(old(v)@), x@),
{
    let xc = chars_of(x);
    if lists_exec(v, &xc) {
        assert(text_set(v@).contains(x@));
        remove_text(v, x);
    } else {
        assert(!text_set(v@).contains(x@));
        insert_text(v, x);
    }
}

/// Toggling the same text twice gives back the set one started with.
pub proof fn toggle_twice_restores(s: Set<Seq<char>>, x: Seq<char>)
    ensures
        toggled(toggled(s, x), x) == s,
{
    if s.contains(x) {
        assert(s.remove(x).insert(x) =~= s);
    } else {
        assert(s.insert(x).remove(x) =~= s);
    }
}

// ---------------------------------------------------------------------------
// Moving the selection
// ---------------------------------------------------------------------------

/// The row after `i` in a list of `n` rows, wrapping to the top.
pub open spec fn next_pos(i: usize, n: nat) -> usize {
    if n == 0 {
        i
    } else if i + 1 < n {
        (i + 1) as usize
    } else {
        0
    }
}

/// The row before `i` in a list of `n` rows, wrapping to the bottom.
pub open spec fn prev_pos(i: usize, n: nat) -> usize {
    if n == 0 {
        i
    } else if i > 0 {
        (i - 1) as usize
    } else {
        (n - 1) as usize
    }
}

/// `step` rows further down, stopping at the last row.
pub open spec fn page_down_pos(i: usize, n: nat, step: nat) -> usize {
    if n == 0 {
        i
    } else if i + step < n - 1 {
        (i + step) as usize
    } else {
        (n - 1) as usize
    }
}

/// `step` rows further up, stopping at the first row.
pub open spec fn page_up_pos(i: usize, n: nat, step: nat) -> usize {
    if n == 0 {
        i
    } else if i >= step {
        (i - step) as usize
    } else {
        0
    }
}

/// Moving down one row and then up one row comes back to the same row, and so
/// does the reverse, for every row of a list.
pub proof fn next_then_previous_returns(i: usize, n: nat)
    requires
        i < n,
        n <= usize::MAX,
    ensures
        prev_pos(next_pos(i, n), n) == i,
        next_pos(prev_pos(i, n), n) == i,
{
}

fn next_index(i: usize, n: usize) -> (r: usize)
    ensures
        r == next_pos(i, n as nat),
{
    if n == 0 {
        i
    } else if i < n - 1 {
        i + 1
    } else {
        0
    }
}

fn prev_index(i: usize, n: usize) -> (r: usize)
    ensures
        r == prev_pos(i, n as nat),
{
    if n == 0 {
        i
    } else if i > 0 {
        i - 1
    } else {
        n - 1
    }
}

fn page_down_index(i: usize, n: usize, step: usize) -> (r: usize)
    ensures
        r == page_down_pos(i, n as nat, step as nat),
{
    if n == 0 {
        i
    } else if i < n - 1 && step < n - 1 - i {
        i + step
    } else {
        n - 1
    }
}

fn page_up_index(i: usize, n: usize, step: usize) -> (r: usize)
    ensures
        r == page_up_pos(i, n as nat, step as nat),
{
    if n == 0 {
        i
    } else if i >= step {
        i - step
    } else {
        0
    }
}

impl App {
    /// Moves the selection one row down (in the history view, through the tombstones).
    pub fn next(&mut self)
        ensures
            next_done(*old(self), *final(self)),
    {
        if self.input_mode == InputMode::HistoryView {
            self.selected_tombstone_idx = next_index(self.selected_tombstone_idx, self.tombstones.len());
        } else {
            self.selected_index = next_index(self.selected_index, self.filtered_indices.len());
        }
    }

    /// Moves the selection one row up (in the history view, through the tombstones).
    pub fn previous(&mut self)
        ensures
            previous_done(*old(self), *final(self)),
    {
        if self.input_mode == InputMode::HistoryView {
            self.selected_tombstone_idx = prev_index(self.selected_tombstone_idx, self.tombstones.len());
        } else {
            self.selected_index = prev_index(self.selected_index, self.filtered_indices.len());
        }
    }

    /// Moves ten rows down (five tombstones in the history view), stopping at the end.
    pub fn page_down(&mut self)
        ensures
            page_down_done(*old(self), *final(self)),
    {
        if self.input_mode == InputMode::HistoryView {
            self.selected_tombstone_idx = page_down_index(self.selected_tombstone_idx, self.tombstones.len(), 5);
        } else {
            self.selected_index = page_down_index(self.selected_index, self.filtered_indices.len(), 10);
        }
    }

    /// Moves ten rows up (five tombstones in the history view), stopping at the top.
    pub fn page_up(&mut self)
        ensures
            page_up_done(*old(self), *final(self)),
    {
        if self.input_mode == InputMode::HistoryView {
            self.selected_tombstone_idx = page_up_index(self.selected_tombstone_idx, self.tombstones.len(), 5);
        } else {
            self.selected_index = page_up_index(self.selected_index, self.filtered_indices.len(), 10);
        }
    }
}


// ---------------------------------------------------------------------------
// Status line, marks and summaries
// ---------------------------------------------------------------------------

/// The status line shows `text`, flagged as a success when `ok`.
// ---------------------------------------------------------------------------
// What each dashboard operation does to the state (`a` before, `b` after)
// ---------------------------------------------------------------------------

/// What `App::search_pop` does.
pub open spec fn search_pop_done(a: App, b: App) -> bool {
    &&& a.search_query@.len() > 0 ==> b.search_query@ == a.search_query@.drop_last()
    &&& a.search_query@.len() == 0 ==> b.search_query@.len() == 0
    &&& refiltered((App { search_query: b.search_query, ..a }), b)
    &&& b.status_message == a.status_message
}

/// What `App::search_clear` does.
pub open spec fn search_clear_done(a: App, b: App) -> bool {
    &&& b.search_query@.len() == 0
    &&& refiltered((App { search_query: b.search_query, ..a }), b)
    &&& b.status_message == a.status_message
}

/// What `App::search_push` does.
pub open spec fn search_push_done(a: App, b: App, c: char) -> bool {
    &&& b.search_query@ == a.search_query@.push(c)
    &&& refiltered((App { search_query: b.search_query, ..a }), b)
    &&& b.status_message == a.status_message
}

/// What `App::toggle_orphans` does.
pub open spec fn toggle_orphans_done(a: App, b: App) -> bool {
    &&& refiltered((App { only_orphans: !a.only_orphans, ..a }), b)
    &&& says(b, "Orphan Filter: "@ + on_off(!a.only_orphans), true)
}

/// What `App::toggle_caches` does.
pub open spec fn toggle_caches_done(a: App, b: App) -> bool {
    &&& refiltered((App { only_caches: !a.only_caches, ..a }), b)
    &&& says(b, "Cache Filter: "@ + on_off(!a.only_caches), true)
}

/// What `App::toggle_top_level` does.
pub open spec fn toggle_top_level_done(a: App, b: App) -> bool {
    &&& refiltered((App { only_top_level: !a.only_top_level, ..a }), b)
    &&& says(b, "Top-Level Filter: "@ + on_off(!a.only_top_level), true)
}

/// What `App::cycle_inactivity` does.
pub open spec fn cycle_inactivity_done(a: App, b: App) -> bool {
    &&& refiltered(
        (App { min_inactivity_days: next_threshold(a.min_inactivity_days), ..a }),
        b,
    )
    &&& says(b, inactivity_label(next_threshold(a.min_inactivity_days)), true)
}

/// What `App::clear_filters` does.
pub open spec fn clear_filters_done(a: App, b: App) -> bool {
    &&& b.active_ecosystems@.len() == 0
    &&& b.active_categories@.len() == 0
    &&& b.search_query@.len() == 0
    &&& refiltered(
        (App {
            active_ecosystems: b.active_ecosystems,
            active_categories: b.active_categories,
            only_orphans: false,
            only_caches: false,
            only_top_level: false,
            min_inactivity_days: None,
            search_query: b.search_query,
            ..a
        }),
        b,
    )
    &&& says(b, "Cleared all filters and search"@, true)
}

/// What `App::toggle_ecosystem` does.
pub open spec fn toggle_ecosystem_done(a: App, b: App, eco: Seq<char>) -> bool {
    &&& text_set(b.active_ecosystems@) == toggled(text_set(a.active_ecosystems@), eco)
    &&& refiltered((App { active_ecosystems: b.active_ecosystems, ..a }), b)
    &&& exists|t: Seq<char>| summary_ok(upper_texts(b.active_ecosystems@), t) && says(
        b,
        "Active Ecosystems: "@ + t,
        true,
    )
}

/// What `App::clear_ecosystems` does.
pub open spec fn clear_ecosystems_done(a: App, b: App) -> bool {
    &&& b.active_ecosystems@.len() == 0
    &&& refiltered((App { active_ecosystems: b.active_ecosystems, ..a }), b)
    &&& says(b, "Active Ecosystems: ALL"@, true)
}

/// What `App::toggle_category` does.
pub open spec fn toggle_category_done(a: App, b: App, cat: Category) -> bool {
    &&& b.active_categories@.to_set() == (if a.active_categories@.to_set().contains(cat) {
        a.active_categories@.to_set().remove(cat)
    } else {
        a.active_categories@.to_set().insert(cat)
    })
    &&& refiltered((App { active_categories: b.active_categories, ..a }), b)
    &&& exists|t: Seq<char>| summary_ok(category_names(b.active_categories@), t) && says(
        b,
        "Active Domains: "@ + t,
        true,
    )
}

/// What `App::clear_categories` does.
pub open spec fn clear_categories_done(a: App, b: App) -> bool {
    &&& b.active_categories@.len() == 0
    &&& refiltered((App { active_categories: b.active_categories, ..a }), b)
    &&& says(b, "Active Domains: ALL"@, true)
}

/// What `App::set_sort` does.
pub open spec fn set_sort_done(a: App, b: App, sort: SortOrder) -> bool {
    &&& refiltered((App { active_sort: sort, ..a }), b)
    &&& says(b, "Sort: "@ + sort_label(sort), true)
}

/// What `App::mark_all_visible` does.
pub open spec fn mark_all_visible_done(a: App, b: App) -> bool {
    &&& b == (App {
        marked_for_prune: b.marked_for_prune,
        status_message: b.status_message,
        ..a
    })
    &&& text_set(b.marked_for_prune@) == text_set(a.marked_for_prune@).union(
        mark_ids(a.items@, a.filtered_indices@, false, false),
    )
    &&& says(
        b,
        "Marked "@ + decimal(mark_count(a.items@, a.filtered_indices@, false, false))
            + " visible packages"@,
        true,
    )
}

/// What `App::mark_visible_orphans` does.
pub open spec fn mark_visible_orphans_done(a: App, b: App) -> bool {
    &&& b == (App {
        marked_for_prune: b.marked_for_prune,
        status_message: b.status_message,
        ..a
    })
    &&& text_set(b.marked_for_prune@) == text_set(a.marked_for_prune@).union(
        mark_ids(a.items@, a.filtered_indices@, true, false),
    )
    &&& says(
        b,
        "Marked "@ + decimal(mark_count(a.items@, a.filtered_indices@, true, false))
            + " visible orphan dependencies"@,
        true,
    )
}

/// What `App::mark_visible_caches` does.
pub open spec fn mark_visible_caches_done(a: App, b: App) -> bool {
    &&& b == (App {
        marked_for_prune: b.marked_for_prune,
        status_message: b.status_message,
        ..a
    })
    &&& text_set(b.marked_for_prune@) == text_set(a.marked_for_prune@).union(
        mark_ids(a.items@, a.filtered_indices@, false, true),
    )
    &&& says(
        b,
        "Marked "@ + decimal(mark_count(a.items@, a.filtered_indices@, false, true))
            + " visible caches & dangling layers"@,
        true,
    )
}

/// What `App::clear_marks` does.
pub open spec fn clear_marks_done(a: App, b: App) -> bool {
    &&& b == (App {
        marked_for_prune: b.marked_for_prune,
        status_message: b.status_message,
        ..a
    })
    &&& b.marked_for_prune@.len() == 0
    &&& says(b, "Cleared all selections"@, true)
}

/// What `App::next` does.
pub open spec fn next_done(a: App, b: App) -> bool {
    &&& a.input_mode == InputMode::HistoryView ==> b == (App {
        selected_tombstone_idx: next_pos(
            a.selected_tombstone_idx,
            a.tombstones@.len(),
        ),
        ..a
    })
    &&& a.input_mode != InputMode::HistoryView ==> b == (App {
        selected_index: next_pos(a.selected_index, a.filtered_indices@.len()),
        ..a
    })
}

/// What `App::previous` does.
pub open spec fn previous_done(a: App, b: App) -> bool {
    &&& a.input_mode == InputMode::HistoryView ==> b == (App {
        selected_tombstone_idx: prev_pos(
            a.selected_tombstone_idx,
            a.tombstones@.len(),
        ),
        ..a
    })
    &&& a.input_mode != InputMode::HistoryView ==> b == (App {
        selected_index: prev_pos(a.selected_index, a.filtered_indices@.len()),
        ..a
    })
}

/// What `App::page_down` does.
pub open spec fn page_down_done(a: App, b: App) -> bool {
    &&& a.input_mode == InputMode::HistoryView ==> b == (App {
        selected_tombstone_idx: page_down_pos(
            a.selected_tombstone_idx,
            a.tombstones@.len(),
            5,
        ),
        ..a
    })
    &&& a.input_mode != InputMode::HistoryView ==> b == (App {
        selected_index: page_down_pos(
            a.selected_index,
            a.filtered_indices@.len(),
            10,
        ),
        ..a
    })
}

/// What `App::page_up` does.
pub open spec fn page_up_done(a: App, b: App) -> bool {
    &&& a.input_mode == InputMode::HistoryView ==> b == (App {
        selected_tombstone_idx: page_up_pos(
            a.selected_tombstone_idx,
            a.tombstones@.len(),
            5,
        ),
        ..a
    })
    &&& a.input_mode != InputMode::HistoryView ==> b == (App {
        selected_index: page_up_pos(
            a.selected_index,
            a.filtered_indices@.len(),
            10,
        ),
        ..a
    })
}

/// What `App::toggle_mark` does.
pub open spec fn toggle_mark_done(a: App, b: App) -> bool {
    &&& b == (App { marked_for_prune: b.marked_for_prune, ..a })
    &&& a.selected_index < a.filtered_indices@.len() ==> text_set(
        b.marked_for_prune@,
    ) == toggled(
        text_set(a.marked_for_prune@),
        a.items@[a.filtered_indices@[a.selected_index as int] as int].id@,
    )
    &&& a.selected_index >= a.filtered_indices@.len() ==> b.marked_for_prune@
        == a.marked_for_prune@
}

pub open spec fn says(app: App, text: Seq<char>, ok: bool) -> bool {
    app.status_message matches Some(p) && p.0@ == text && p.1 == ok
}

/// Every filtered row names an item.
pub open spec fn indices_in_range(app: App) -> bool {
    forall|k: int| 0 <= k < app.filtered_indices@.len() ==> #[trigger] app.filtered_indices@[k] < app.items@.len()
}

/// Whether a bulk mark takes an item: it must have an uninstall command, and be
/// an orphan or a cache when those are asked for.
pub open spec fn mark_ok(i: InventoryItem, orphan: bool, cache: bool) -> bool {
    &&& i.uninstall_cmd is Some
    &&& (orphan ==> is_orphan_item(i))
    &&& (cache ==> is_cache_item(i))
}

/// The ids that a bulk mark over the rows `idx` adds.
pub open spec fn mark_ids(items: Seq<InventoryItem>, idx: Seq<usize>, orphan: bool, cache: bool) -> Set<Seq<char>> {
    Set::new(|t: Seq<char>| exists|k: int| 0 <= k < idx.len() && mark_ok(items[#[trigger] idx[k] as int], orphan, cache) && items[idx[k] as int].id@ == t)
}

/// How many of the rows `idx` a bulk mark takes.
pub open spec fn mark_count(items: Seq<InventoryItem>, idx: Seq<usize>, orphan: bool, cache: bool) -> nat
    decreases idx.len(),
{
    if idx.len() == 0 {
        0
    } else {
        mark_count(items, idx.drop_last(), orphan, cache) + if mark_ok(items[idx.last() as int], orphan, cache) {
            1nat
        } else {
            0nat
        }
    }
}

proof fn lemma_mark_count_le(items: Seq<InventoryItem>, idx: Seq<usize>, orphan: bool, cache: bool)
    ensures
        mark_count(items, idx, orphan, cache) <= idx.len(),
    decreases idx.len(),
{
    if idx.len() > 0 {
        lemma_mark_count_le(items, idx.drop_last(), orphan, cache);
    }
}

/// `parts` joined by `+`.
pub open spec fn plus_joined(parts: Seq<Seq<char>>) -> Seq<char>
    decreases parts.len(),
{
    if parts.len() == 0 {
        Seq::empty()
    } else if parts.len() == 1 {
        parts[0]
    } else {
        plus_joined(parts.drop_last()) + "+"@ + parts.last()
    }
}

/// `order` lists each of `0..n` once.
pub open spec fn is_index_perm(order: Seq<usize>, n: nat) -> bool {
    &&& order.len() == n
    &&& order.no_duplicates()
    &&& forall|k: int| 0 <= k < order.len() ==> #[trigger] order[k] < n
}

/// `text` is `parts` sorted (as strings sort) and joined by `+`.
pub open spec fn sorted_join(parts: Seq<Seq<char>>, text: Seq<char>) -> bool {
    exists|order: Seq<usize>|
        is_index_perm(order, parts.len()) && sorted_by_keys(
            parts.map_values(|p: Seq<char>| code_points(p)),
            order,
        ) && text == plus_joined(order.map_values(|k: usize| parts[k as int]))
}

/// The summary of a set of filter values: `ALL` when empty, else the sorted values joined by `+`.
pub open spec fn summary_ok(parts: Seq<Seq<char>>, text: Seq<char>) -> bool {
    if parts.len() == 0 {
        text == "ALL"@
    } else {
        sorted_join(parts, text)
    }
}

pub open spec fn upper_texts(v: Seq<String>) -> Seq<Seq<char>> {
    v.map_values(|s: String| unicode_upper(s@))
}

pub open spec fn category_names(v: Seq<Category>) -> Seq<Seq<char>> {
    v.map_values(|c: Category| category_name(c))
}

/// Sorts the strings and joins them with `+`.
fn join_sorted(parts: &Vec<String>) -> (r: String)
    ensures
        sorted_join(strs(parts@), r@),
{
    let n = parts.len();
    let mut keys: Vec<Vec<u64>> = Vec::new();
    let mut cand: Vec<usize> = Vec::new();
    let mut i: usize = 0;
    while i < n
        invariant
            n == parts@.len(),
            i <= n,
            keys@.len() == i,
            cand@.len() == i,
            forall|j: int| 0 <= j < i ==> #[trigger] cand@[j] == j,
            forall|j: int| 0 <= j < i ==> (#[trigger] keys@[j])@ == code_points(parts@[j]@),
        decreases n - i,
    {
        keys.push(code_point_key(parts[i].as_str()));
        cand.push(i);
        i = i + 1;
    }
    let ghost ps = strs(parts@);
    assert(key_views(keys@) =~= ps.map_values(|p: Seq<char>| code_points(p)));
    let order = sort_indices(&cand, &keys);
    assert forall|k: int| 0 <= k < order@.len() implies #[trigger] order@[k] < n by {
        assert(order@.to_set().contains(order@[k]));
        assert(cand@.to_set().contains(order@[k]));
        let j = choose|j: int| 0 <= j < cand@.len() && cand@[j] == order@[k];
    }
    let mut r = String::new();
    let mut k: usize = 0;
    while k < order.len()
        invariant
            k <= order@.len(),
            n == parts@.len(),
            ps == strs(parts@),
            forall|q: int| 0 <= q < order@.len() ==> #[trigger] order@[q] < n,
            r@ == plus_joined(order@.take(k as int).map_values(|q: usize| ps[q as int])),
        decreases order@.len() - k,
    {
        let ghost before = order@.take(k as int).map_values(|q: usize| ps[q as int]);
        let ghost after = order@.take(k + 1).map_values(|q: usize| ps[q as int]);
        assert(after.drop_last() =~= before);
        assert(after.last() == parts@[order@[k as int] as int]@);
        if k > 0 {
            push_char(&mut r, '+');
        }
        append_str(&mut r, parts[order[k]].as_str());
        proof {
            reveal_strlit("+");
            if k == 0 {
                assert(after.len() == 1);
                assert(r@ =~= after[0]);
            } else {
                assert(r@ =~= plus_joined(before) + "+"@ + after.last());
            }
        }
        k = k + 1;
    }
    assert(order@.take(order@.len() as int) =~= order@);
    assert(is_index_perm(order@, ps.len()));
    assert(sorted_by_keys(ps.map_values(|p: Seq<char>| code_points(p)), order@));
    assert(r@ == plus_joined(order@.map_values(|q: usize| ps[q as int])));
    r
}

impl App {
    /// Shows `text` on the status line.
    fn set_status(&mut self, text: String, ok: bool)
        ensures
            *final(self) == (App { status_message: Some((text, ok)), ..*old(self) }),
    {
        self.status_message = Some((text, ok));
    }

    /// Toggles the mark of the selected row's package.
    pub fn toggle_mark(&mut self)
        requires
            indices_in_range(*old(self)),
        ensures
            toggle_mark_done(*old(self), *final(self)),
    {
        if self.selected_index < self.filtered_indices.len() {
            let item_idx = self.filtered_indices[self.selected_index];
            let id = owned(self.items[item_idx].id.as_str());
            let mut marks = Vec::new();
            std::mem::swap(&mut marks, &mut self.marked_for_prune);
            toggle_text(&mut marks, id.as_str());
            self.marked_for_prune = marks;
        }
    }

    /// Marks the packages of the visible rows that `mark_ok` takes; returns how many.
    fn mark_where(&mut self, orphan: bool, cache: bool) -> (count: usize)
        requires
            indices_in_range(*old(self)),
        ensures
            *final(self) == (App { marked_for_prune: final(self).marked_for_prune, ..*old(self) }),
            text_set(final(self).marked_for_prune@) == text_set(old(self).marked_for_prune@).union(
                mark_ids(old(self).items@, old(self).filtered_indices@, orphan, cache),
            ),
            count == mark_count(old(self).items@, old(self).filtered_indices@, orphan, cache),
    {
        let ghost items = self.items@;
        let ghost idx = self.filtered_indices@;
        let ghost start = text_set(self.marked_for_prune@);
        let mut marks = Vec::new();
        std::mem::swap(&mut marks, &mut self.marked_for_prune);
        let mut count: usize = 0;
        let mut i: usize = 0;
        while i < self.filtered_indices.len()
            invariant
                items == self.items@,
                idx == self.filtered_indices@,
                indices_in_range(*self),
                i <= idx.len(),
                text_set(marks@) == start.union(mark_ids(items, idx.take(i as int), orphan, cache)),
                count == mark_count(items, idx.take(i as int), orphan, cache),
            decreases idx.len() - i,
        {
            proof {
                assert(idx.take(i + 1).drop_last() =~= idx.take(i as int));
                lemma_mark_count_le(items, idx.take(i as int), orphan, cache);
            }
            let item = &self.items[self.filtered_indices[i]];
            let ok = item.uninstall_cmd.is_some() && (!orphan || item.is_orphan()) && (!cache || item.is_cache());
            let ghost before = text_set(marks@);
            if ok {
                insert_text(&mut marks, item.id.as_str());
                count = count + 1;
            }
            proof {
                let t0 = idx.take(i as int);
                let t1 = idx.take(i + 1);
                assert forall|t: Seq<char>| mark_ids(items, t1, orphan, cache).contains(t) <==> (mark_ids(items, t0, orphan, cache).contains(t) || (ok && t == items[idx[i as int] as int].id@)) by {
                    if mark_ids(items, t0, orphan, cache).contains(t) {
                        let k = choose|k: int| 0 <= k < t0.len() && mark_ok(items[#[trigger] t0[k] as int], orphan, cache) && items[t0[k] as int].id@ == t;
                        assert(t1[k] == t0[k]);
                    }
                    if ok && t == items[idx[i as int] as int].id@ {
                        assert(t1[i as int] == idx[i as int]);
                    }
                    if mark_ids(items, t1, orphan, cache).contains(t) {
                        let k = choose|k: int| 0 <= k < t1.len() && mark_ok(items[#[trigger] t1[k] as int], orphan, cache) && items[t1[k] as int].id@ == t;
                        if k < i {
                            assert(t0[k] == t1[k]);
                        }
                    }
                }
                assert(text_set(marks@) =~= start.union(mark_ids(items, t1, orphan, cache)));
            }
            i = i + 1;
        }
        assert(idx.take(idx.len() as int) =~= idx);
        self.marked_for_prune = marks;
        count
    }

    /// Marks every visible package that has an uninstall command.
    pub fn mark_all_visible(&mut self)
        requires
            indices_in_range(*old(self)),
        ensures
            mark_all_visible_done(*old(self), *final(self)),
    {
        let count = self.mark_where(false, false);
        let mut msg = owned("Marked ");
        append_str(&mut msg, u64_decimal(count as u64).as_str());
        append_str(&mut msg, " visible packages");
        self.set_status(msg, true);
    }

    /// Marks every visible orphan that has an uninstall command.
    pub fn mark_visible_orphans(&mut self)
        requires
            indices_in_range(*old(self)),
        ensures
            mark_visible_orphans_done(*old(self), *final(self)),
    {
        let count = self.mark_where(true, false);
        let mut msg = owned("Marked ");
        append_str(&mut msg, u64_decimal(count as u64).as_str());
        append_str(&mut msg, " visible orphan dependencies");
        self.set_status(msg, true);
    }

    /// Marks every visible cache that has an uninstall command.
    pub fn mark_visible_caches(&mut self)
        requires
            indices_in_range(*old(self)),
        ensures
            mark_visible_caches_done(*old(self), *final(self)),
    {
        let count = self.mark_where(false, true);
        let mut msg = owned("Marked ");
        append_str(&mut msg, u64_decimal(count as u64).as_str());
        append_str(&mut msg, " visible caches & dangling layers");
        self.set_status(msg, true);
    }

    /// Unmarks everything.
    pub fn clear_marks(&mut self)
        ensures
            clear_marks_done(*old(self), *final(self)),
    {
        self.marked_for_prune = Vec::new();
        self.set_status(owned("Cleared all selections"), true);
    }

    /// The active ecosystems, upper-cased, sorted and joined by `+`; `ALL` when none.
    pub fn ecosystems_summary(&self) -> (r: String)
        ensures
            summary_ok(upper_texts(self.active_ecosystems@), r@),
    {
        if self.active_ecosystems.len() == 0 {
            return owned("ALL");
        }
        let mut list: Vec<String> = Vec::new();
        let mut i: usize = 0;
        while i < self.active_ecosystems.len()
            invariant
                i <= self.active_ecosystems@.len(),
                strs(list@) == upper_texts(self.active_ecosystems@).take(i as int),
            decreases self.active_ecosystems@.len() - i,
        {
            let u = to_upper(self.active_ecosystems[i].as_str());
            let ghost before = list@;
            list.push(u);
            assert(strs(list@) =~= strs(before).push(unicode_upper(self.active_ecosystems@[i as int]@)));
            assert(strs(list@) =~= upper_texts(self.active_ecosystems@).take(i + 1));
            i = i + 1;
        }
        assert(upper_texts(self.active_ecosystems@).take(i as int) =~= upper_texts(self.active_ecosystems@));
        join_sorted(&list)
    }

    /// The active categories' names, sorted and joined by `+`; `ALL` when none.
    pub fn categories_summary(&self) -> (r: String)
        ensures
            summary_ok(category_names(self.active_categories@), r@),
    {
        if self.active_categories.len() == 0 {
            return owned("ALL");
        }
        let mut list: Vec<String> = Vec::new();
        let mut i: usize = 0;
        while i < self.active_categories.len()
            invariant
                i <= self.active_categories@.len(),
                strs(list@) == category_names(self.active_categories@).take(i as int),
            decreases self.active_categories@.len() - i,
        {
            let u = owned(self.active_categories[i].as_str());
            let ghost before = list@;
            list.push(u);
            assert(strs(list@) =~= strs(before).push(category_name(self.active_categories@[i as int])));
            assert(strs(list@) =~= category_names(self.active_categories@).take(i + 1));
            i = i + 1;
        }
        assert(category_names(self.active_categories@).take(i as int) =~= category_names(self.active_categories@));
        join_sorted(&list)
    }
}


// ---------------------------------------------------------------------------
// Filter settings
// ---------------------------------------------------------------------------

/// The status line plays no part in what is listed.
proof fn lemma_refiltered_status(a: App, b: App, c: App)
    requires
        refiltered(a, b),
        c == (App { status_message: c.status_message, ..b }),
    ensures
        refiltered(a, c),
{
    let now = choose|now: Timestamp| listed(b, now, b.filtered_indices@);
    assert forall|it: InventoryItem| visible(c, it, now) == visible(b, it, now) by {}
    assert(listed(c, now, c.filtered_indices@));
}

/// The inactivity threshold that follows `m` in the cycle none, 30, 90, 180, 365 days.
pub open spec fn next_threshold(m: Option<u64>) -> Option<u64> {
    match m {
        None => Some(30),
        Some(d) => if d == 30 {
            Some(90)
        } else if d == 90 {
            Some(180)
        } else if d == 180 {
            Some(365)
        } else if d == 365 {
            None
        } else {
            Some(30)
        },
    }
}

/// `ON` or `OFF`.
pub open spec fn on_off(b: bool) -> Seq<char> {
    if b {
        "ON"@
    } else {
        "OFF"@
    }
}

fn on_off_text(b: bool) -> (r: &'static str)
    ensures
        r@ == on_off(b),
{
    if b {
        "ON"
    } else {
        "OFF"
    }
}

/// The status text shown for an inactivity threshold.
pub open spec fn inactivity_label(m: Option<u64>) -> Seq<char> {
    match m {
        Some(d) => "Inactivity Filter: >"@ + decimal(d as nat) + " days"@,
        None => "Inactivity Filter: ALL"@,
    }
}

/// Adds `c` when absent, removes every copy when present.
fn toggle_category_in(v: &mut Vec<Category>, c: Category)
    ensures
        final(v)@.to_set() == (if old(v)@.to_set().contains(c) {
            old(v)@.to_set().remove(c)
        } else {
            old(v)@.to_set().insert(c)
        }),
{
    broadcast use vstd::seq_lib::group_seq_properties;
    let mut found = false;
    let mut out: Vec<Category> = Vec::new();
    let mut i: usize = 0;
    while i < v.len()
        invariant
            i <= v@.len(),
            found == v@.take(i as int).contains(c),
            forall|d: Category| out@.contains(d) <==> (d != c && v@.take(i as int).contains(d)),
        decreases v@.len() - i,
    {
        let ghost t0 = v@.take(i as int);
        let ghost o0 = out@;
        assert(v@.take(i + 1) =~= t0.push(v@[i as int]));
        if v[i] == c {
            found = true;
        } else {
            out.push(v[i]);
        }
        proof {
            let x = v@[i as int];
            let t1 = t0.push(x);
            assert forall|d: Category| t1.contains(d) <==> (t0.contains(d) || d == x) by {
                if t0.contains(d) {
                    let w = choose|w: int| 0 <= w < t0.len() && t0[w] == d;
                    assert(t1[w] == d);
                }
                if d == x {
                    assert(t1[t0.len() as int] == d);
                }
                if t1.contains(d) {
                    let w = choose|w: int| 0 <= w < t1.len() && t1[w] == d;
                    if w < t0.len() {
                        assert(t0[w] == d);
                    }
                }
            }
            assert(t1.contains(c) == (t0.contains(c) || c == x));
            assert(v@.take(i + 1) == t1);
            assert forall|d: Category| out@.contains(d) <==> (o0.contains(d) || (d == x && x != c)) by {
                if o0.contains(d) {
                    let w = choose|w: int| 0 <= w < o0.len() && o0[w] == d;
                    assert(out@[w] == d);
                }
                if d == x && x != c {
                    assert(out@[o0.len() as int] == d);
                }
                if out@.contains(d) {
                    let w = choose|w: int| 0 <= w < out@.len() && out@[w] == d;
                    if w < o0.len() {
                        assert(o0[w] == d);
                    }
                }
            }
            assert forall|d: Category| out@.contains(d) <==> (d != c && v@.take(i + 1).contains(d)) by {
                assert(o0.contains(d) <==> (d != c && t0.contains(d)));
                assert(t1.contains(d) <==> (t0.contains(d) || d == x));
            }
        }
        i = i + 1;
    }
    assert(v@.take(v@.len() as int) =~= v@);
    if found {
        assert(out@.to_set() =~= v@.to_set().remove(c));
        *v = out;
    } else {
        let ghost o = v@;
        v.push(c);
        assert(v@.to_set() =~= o.to_set().insert(c));
    }
}

impl App {
    /// Turns an ecosystem filter on or off and recomputes the list.
    pub fn toggle_ecosystem(&mut self, eco: &str)
        ensures
            toggle_ecosystem_done(*old(self), *final(self), eco@),
    {
        let mut ecos = Vec::new();
        std::mem::swap(&mut ecos, &mut self.active_ecosystems);
        toggle_text(&mut ecos, eco);
        self.active_ecosystems = ecos;
        let ghost mid = *self;
        self.reapply_filters();
        let ghost after = *self;
        let summary = self.ecosystems_summary();
        let mut msg = owned("Active Ecosystems: ");
        append_str(&mut msg, summary.as_str());
        self.set_status(msg, true);
        proof {
            lemma_refiltered_status(mid, after, *self);
        }
    }

    /// Turns every ecosystem filter off and recomputes the list.
    pub fn clear_ecosystems(&mut self)
        ensures
            clear_ecosystems_done(*old(self), *final(self)),
    {
        self.active_ecosystems = Vec::new();
        let ghost mid = *self;
        self.reapply_filters();
        let ghost after = *self;
        self.set_status(owned("Active Ecosystems: ALL"), true);
        proof {
            lemma_refiltered_status(mid, after, *self);
        }
    }

    /// Turns a category filter on or off and recomputes the list.
    pub fn toggle_category(&mut self, cat: Category)
        ensures
            toggle_category_done(*old(self), *final(self), cat),
    {
        let mut cats = Vec::new();
        std::mem::swap(&mut cats, &mut self.active_categories);
        toggle_category_in(&mut cats, cat);
        self.active_categories = cats;
        let ghost mid = *self;
        self.reapply_filters();
        let ghost after = *self;
        let summary = self.categories_summary();
        let mut msg = owned("Active Domains: ");
        append_str(&mut msg, summary.as_str());
        self.set_status(msg, true);
        proof {
            lemma_refiltered_status(mid, after, *self);
        }
    }

    /// Turns every category filter off and recomputes the list.
    pub fn clear_categories(&mut self)
        ensures
            clear_categories_done(*old(self), *final(self)),
    {
        self.active_categories = Vec::new();
        let ghost mid = *self;
        self.reapply_filters();
        let ghost after = *self;
        self.set_status(owned("Active Domains: ALL"), true);
        proof {
            lemma_refiltered_status(mid, after, *self);
        }
    }

    /// Flips the orphans-only filter and recomputes the list.
    pub fn toggle_orphans(&mut self)
        ensures
            toggle_orphans_done(*old(self), *final(self)),
    {
        self.only_orphans = !self.only_orphans;
        let ghost mid = *self;
        self.reapply_filters();
        let ghost after = *self;
        let mut msg = owned("Orphan Filter: ");
        append_str(&mut msg, on_off_text(self.only_orphans));
        self.set_status(msg, true);
        proof {
            lemma_refiltered_status(mid, after, *self);
        }
    }

    /// Flips the caches-only filter and recomputes the list.
    pub fn toggle_caches(&mut self)
        ensures
            toggle_caches_done(*old(self), *final(self)),
    {
        self.only_caches = !self.only_caches;
        let ghost mid = *self;
        self.reapply_filters();
        let ghost after = *self;
        let mut msg = owned("Cache Filter: ");
        append_str(&mut msg, on_off_text(self.only_caches));
        self.set_status(msg, true);
        proof {
            lemma_refiltered_status(mid, after, *self);
        }
    }

    /// Flips the top-level-only filter and recomputes the list.
    pub fn toggle_top_level(&mut self)
        ensures
            toggle_top_level_done(*old(self), *final(self)),
    {
        self.only_top_level = !self.only_top_level;
        let ghost mid = *self;
        self.reapply_filters();
        let ghost after = *self;
        let mut msg = owned("Top-Level Filter: ");
        append_str(&mut msg, on_off_text(self.only_top_level));
        self.set_status(msg, true);
        proof {
            lemma_refiltered_status(mid, after, *self);
        }
    }

    /// Moves the inactivity threshold to the next step of its cycle and recomputes the list.
    pub fn cycle_inactivity(&mut self)
        ensures
            cycle_inactivity_done(*old(self), *final(self)),
    {
        let next: Option<u64> = match self.min_inactivity_days {
            None => Some(30),
            Some(d) => if d == 30 {
                Some(90)
            } else if d == 90 {
                Some(180)
            } else if d == 180 {
                Some(365)
            } else if d == 365 {
                None
            } else {
                Some(30)
            },
        };
        self.min_inactivity_days = next;
        let ghost mid = *self;
        self.reapply_filters();
        let ghost after = *self;
        let label = match self.min_inactivity_days {
            Some(days) => {
                let mut m = owned("Inactivity Filter: >");
                append_str(&mut m, u64_decimal(days).as_str());
                append_str(&mut m, " days");
                m
            },
            None => owned("Inactivity Filter: ALL"),
        };
        self.set_status(label, true);
        proof {
            lemma_refiltered_status(mid, after, *self);
        }
    }

    /// Chooses the sort order and recomputes the list.
    pub fn set_sort(&mut self, sort: SortOrder)
        ensures
            set_sort_done(*old(self), *final(self), sort),
    {
        self.active_sort = sort;
        let ghost mid = *self;
        self.reapply_filters();
        let ghost after = *self;
        let mut msg = owned("Sort: ");
        append_str(&mut msg, sort.label());
        self.set_status(msg, true);
        proof {
            lemma_refiltered_status(mid, after, *self);
        }
    }

    /// Turns every filter off, empties the search and recomputes the list.
    pub fn clear_filters(&mut self)
        ensures
            clear_filters_done(*old(self), *final(self)),
    {
        self.active_ecosystems = Vec::new();
        self.active_categories = Vec::new();
        self.only_orphans = false;
        self.only_caches = false;
        self.only_top_level = false;
        self.min_inactivity_days = None;
        self.search_query = String::new();
        let ghost mid = *self;
        self.reapply_filters();
        let ghost after = *self;
        self.set_status(owned("Cleared all filters and search"), true);
        proof {
            lemma_refiltered_status(mid, after, *self);
        }
    }
}


// ---------------------------------------------------------------------------
// Start-up, the spinner and the audit's progress events
// ---------------------------------------------------------------------------

/// `b` is `a` after one progress event.
pub open spec fn event_applied(a: App, e: AuditEvent, b: App) -> bool {
    match e {
        AuditEvent::StageUpdate { stage_name, discovered_count } => {
            &&& b == (App { current_stage: stage_name, status_message: b.status_message, ..a })
            &&& discovered_count > 0 ==> says(
                b,
                "Discovered "@ + decimal(discovered_count as nat) + " packages so far..."@,
                true,
            )
            &&& discovered_count == 0 ==> b.status_message == a.status_message
        },
        AuditEvent::IncrementalBatch { items } => {
            &&& refiltered((App { items: items, ..a }), b)
            &&& b.status_message == a.status_message
        },
        AuditEvent::AuditComplete { final_items, elapsed_ms } => {
            &&& refiltered((App { items: final_items, is_loading: false, ..a }), b)
            &&& says(
                b,
                "✓ Complete! Audited "@ + decimal(final_items@.len()) + " packages in "@ + decimal(
                    elapsed_ms as nat,
                ) + "ms"@,
                true,
            )
        },
    }
}

/// `b` is `a` after the events `es`, in order.
pub open spec fn events_applied(a: App, es: Seq<AuditEvent>, b: App) -> bool
    decreases es.len(),
{
    if es.len() == 0 {
        a == b
    } else {
        exists|m: App| events_applied(a, es.drop_last(), m) && event_applied(m, es.last(), b)
    }
}

impl App {
    /// The dashboard when the audit starts: no items yet, the default filters and
    /// sort, and the start-up messages. The audit itself runs elsewhere and reports
    /// through `tick_events`.
    pub fn new_streaming() -> (r: App)
        ensures
            r.items@.len() == 0,
            r.filtered_indices@.len() == 0,
            r.selected_index == 0,
            r.marked_for_prune@.len() == 0,
            r.active_ecosystems@.len() == 0,
            r.active_categories@.len() == 0,
            !r.only_orphans,
            !r.only_caches,
            !r.only_top_level,
            r.min_inactivity_days is None,
            r.search_query@.len() == 0,
            r.active_sort == SortOrder::SizeDesc,
            r.input_mode == InputMode::Normal,
            says(r, "Starting real-time software audit..."@, true),
            r.tombstones@.len() == 0,
            r.selected_tombstone_idx == 0,
            r.is_loading,
            r.spin_idx == 0,
            r.current_stage@ == "Initializing collectors & discovery engines..."@,
    {
        let mut app = App {
            items: Vec::new(),
            filtered_indices: Vec::new(),
            selected_index: 0,
            marked_for_prune: Vec::new(),
            active_ecosystems: Vec::new(),
            active_categories: Vec::new(),
            only_orphans: false,
            only_caches: false,
            only_top_level: false,
            min_inactivity_days: None,
            search_query: String::new(),
            active_sort: SortOrder::SizeDesc,
            input_mode: InputMode::Normal,
            status_message: Some((owned("Starting real-time software audit..."), true)),
            tombstones: Vec::new(),
            selected_tombstone_idx: 0,
            is_loading: true,
            spin_idx: 0,
            current_stage: owned("Initializing collectors & discovery engines..."),
        };
        app.reapply_filters();
        proof {
            let now = choose|now: Timestamp| listed(app, now, app.filtered_indices@);
            if app.filtered_indices@.len() > 0 {
                assert(app.filtered_indices@[0] < app.items@.len());
            }
        }
        app
    }

    /// The spinner frame to draw.
    pub fn spinner(&self) -> (r: &'static str)
        requires
            self.spin_idx < SPINNER_FRAME_COUNT,
        ensures
            r@ == spinner_frame(self.spin_idx as int),
    {
        let i = self.spin_idx;
        if i == 0 { "⠋" } else if i == 1 { "⠙" } else if i == 2 { "⠹" } else if i == 3 { "⠸" }
        else if i == 4 { "⠼" } else if i == 5 { "⠴" } else if i == 6 { "⠦" } else if i == 7 { "⠧" }
        else if i == 8 { "⠇" } else { "⠏" }
    }

    /// Applies one progress event of the background audit.
    pub fn apply_event(&mut self, event: AuditEvent)
        ensures
            event_applied(*old(self), event, *final(self)),
    {
        match event {
            AuditEvent::StageUpdate { stage_name, discovered_count } => {
                self.current_stage = stage_name;
                if discovered_count > 0 {
                    let mut m = owned("Discovered ");
                    append_str(&mut m, u64_decimal(discovered_count as u64).as_str());
                    append_str(&mut m, " packages so far...");
                    self.set_status(m, true);
                }
            },
            AuditEvent::IncrementalBatch { items } => {
                self.items = items;
                self.reapply_filters();
            },
            AuditEvent::AuditComplete { final_items, elapsed_ms } => {
                let total = final_items.len();
                self.items = final_items;
                self.is_loading = false;
                let ghost mid = *self;
                self.reapply_filters();
                let ghost after = *self;
                let mut m = owned("✓ Complete! Audited ");
                append_str(&mut m, u64_decimal(total as u64).as_str());
                append_str(&mut m, " packages in ");
                append_str(&mut m, u128_decimal(elapsed_ms).as_str());
                append_str(&mut m, "ms");
                self.set_status(m, true);
                proof {
                    lemma_refiltered_status(mid, after, *self);
                }
            },
        }
    }

    /// Advances the spinner one frame, then applies the events that arrived, in order.
    pub fn tick_events(&mut self, events: Vec<AuditEvent>)
        ensures
            events_applied(
                (App { spin_idx: ((old(self).spin_idx + 1) % 10) as usize, ..*old(self) }),
                events@,
                *final(self),
            ),
    {
        self.spin_idx = (self.spin_idx % SPINNER_FRAME_COUNT + 1) % SPINNER_FRAME_COUNT;
        let ghost start = *self;
        assert(start == (App { spin_idx: ((old(self).spin_idx + 1) % 10) as usize, ..*old(self) }));
        let mut rest = events;
        let ghost all = rest@;
        let ghost mut k: int = 0;
        assert(all.take(0) =~= Seq::<AuditEvent>::empty());
        assert(all.skip(0) =~= all);
        while rest.len() > 0
            invariant
                0 <= k <= all.len(),
                rest@ == all.skip(k),
                events_applied(start, all.take(k), *self),
            decreases rest@.len(),
        {
            let e = rest.remove(0);
            let ghost before = *self;
            self.apply_event(e);
            proof {
                assert(all.take(k + 1).drop_last() =~= all.take(k));
                assert(all.take(k + 1).last() == e);
                assert(events_applied(start, all.take(k + 1).drop_last(), before));
                assert(rest@ =~= all.skip(k + 1));
                k = k + 1;
            }
        }
        assert(all.take(k) =~= all);
    }

    /// The package on the selected row, if the row exists.
    pub fn current_selected_item(&self) -> (r: Option<&InventoryItem>)
        ensures
            r == (if self.selected_index < self.filtered_indices@.len()
                && self.filtered_indices@[self.selected_index as int] < self.items@.len() {
                Some(&self.items@[self.filtered_indices@[self.selected_index as int] as int])
            } else {
                None
            }),
    {
        if self.selected_index < self.filtered_indices.len() {
            let idx = self.filtered_indices[self.selected_index];
            if idx < self.items.len() {
                return Some(&self.items[idx]);
            }
        }
        None
    }

    /// Opens the history view on the loaded tombstones (`None`: the store could not be read).
    pub fn open_history(&mut self, loaded: Option<Vec<PackageTombstone>>)
        ensures
            loaded matches Some(ts) ==> (*final(self) == (App {
                tombstones: ts,
                selected_tombstone_idx: 0,
                input_mode: InputMode::HistoryView,
                status_message: final(self).status_message,
                ..*old(self)
            }) && says(
                *final(self),
                "Loaded "@ + decimal(ts@.len()) + " uninstalled package tombstones"@,
                true,
            )),
            loaded is None ==> *final(self) == (App { status_message: final(self).status_message, ..*old(self) })
                && says(*final(self), "Failed to load history store"@, false),
    {
        match loaded {
            Some(ts) => {
                self.tombstones = ts;
                self.selected_tombstone_idx = 0;
                self.input_mode = InputMode::HistoryView;
                let mut m = owned("Loaded ");
                append_str(&mut m, u64_decimal(self.tombstones.len() as u64).as_str());
                append_str(&mut m, " uninstalled package tombstones");
                self.set_status(m, true);
            },
            None => {
                self.set_status(owned("Failed to load history store"), false);
            },
        }
    }
}

// ---------------------------------------------------------------------------
// What a cleanup run prunes
// ---------------------------------------------------------------------------

/// Whether an item is pruned: marked (when marks are used) or an orphan or cache
/// (otherwise), and in either case with an uninstall command.
pub open spec fn prune_ok(i: InventoryItem, marks: Set<Seq<char>>, by_marks: bool) -> bool {
    &&& i.uninstall_cmd is Some
    &&& by_marks ==> marks.contains(i.id@)
    &&& !by_marks ==> (is_orphan_item(i) || is_cache_item(i))
}

/// The indices among `idx` whose items are pruned, in order.
pub open spec fn pick(items: Seq<InventoryItem>, idx: Seq<usize>, marks: Set<Seq<char>>, by_marks: bool) -> Seq<usize>
    decreases idx.len(),
{
    if idx.len() == 0 {
        Seq::empty()
    } else {
        pick(items, idx.drop_last(), marks, by_marks) + if prune_ok(items[idx.last() as int], marks, by_marks) {
            seq![idx.last()]
        } else {
            Seq::empty()
        }
    }
}

/// The items a cleanup run prunes: the marked ones in inventory order when any is
/// marked, else the visible orphans and caches in list order.
pub open spec fn prune_indices(app: App) -> Seq<usize> {
    if app.marked_for_prune@.len() > 0 {
        pick(app.items@, Seq::new(app.items@.len(), |i: int| i as usize), text_set(app.marked_for_prune@), true)
    } else {
        pick(app.items@, app.filtered_indices@, text_set(app.marked_for_prune@), false)
    }
}

proof fn lemma_pick_in(items: Seq<InventoryItem>, idx: Seq<usize>, marks: Set<Seq<char>>, by_marks: bool)
    ensures
        forall|k: int| 0 <= k < pick(items, idx, marks, by_marks).len() ==> idx.contains(
            #[trigger] pick(items, idx, marks, by_marks)[k],
        ),
    decreases idx.len(),
{
    if idx.len() > 0 {
        let p0 = pick(items, idx.drop_last(), marks, by_marks);
        lemma_pick_in(items, idx.drop_last(), marks, by_marks);
        assert forall|k: int| 0 <= k < pick(items, idx, marks, by_marks).len() implies idx.contains(
            #[trigger] pick(items, idx, marks, by_marks)[k],
        ) by {
            if k < p0.len() {
                let w = choose|w: int| 0 <= w < idx.drop_last().len() && idx.drop_last()[w] == p0[k];
                assert(idx[w] == p0[k]);
            } else {
                assert(idx[idx.len() - 1] == idx.last());
            }
        }
    }
}

impl App {
    /// The indices, among `idx`, of the items to prune.
    fn pick_exec(&self, idx: &Vec<usize>, by_marks: bool) -> (r: Vec<usize>)
        requires
            forall|k: int| 0 <= k < idx@.len() ==> #[trigger] idx@[k] < self.items@.len(),
        ensures
            r@ == pick(self.items@, idx@, text_set(self.marked_for_prune@), by_marks),
    {
        let ghost marks = text_set(self.marked_for_prune@);
        let mut r: Vec<usize> = Vec::new();
        let mut i: usize = 0;
        while i < idx.len()
            invariant
                i <= idx@.len(),
                marks == text_set(self.marked_for_prune@),
                forall|k: int| 0 <= k < idx@.len() ==> #[trigger] idx@[k] < self.items@.len(),
                r@ == pick(self.items@, idx@.take(i as int), marks, by_marks),
            decreases idx@.len() - i,
        {
            assert(idx@.take(i + 1).drop_last() =~= idx@.take(i as int));
            let item = &self.items[idx[i]];
            let ok = if by_marks {
                let c = chars_of(item.id.as_str());
                item.uninstall_cmd.is_some() && lists_exec(&self.marked_for_prune, &c)
            } else {
                item.uninstall_cmd.is_some() && (item.is_orphan() || item.is_cache())
            };
            let ghost before = r@;
            if ok {
                r.push(idx[i]);
            }
            assert(r@ =~= pick(self.items@, idx@.take(i + 1), marks, by_marks));
            i = i + 1;
        }
        assert(idx@.take(idx@.len() as int) =~= idx@);
        r
    }

    /// Copies of the items that a cleanup run prunes, in order.
    pub fn items_to_prune(&self) -> (r: Vec<InventoryItem>)
        requires
            indices_in_range(*self),
        ensures
            r@.len() == prune_indices(*self).len(),
            forall|k: int| 0 <= k < r@.len() ==> #[trigger] prune_indices(*self)[k] < self.items@.len(),
            forall|k: int| 0 <= k < r@.len() ==> same_item(
                #[trigger] r@[k],
                self.items@[prune_indices(*self)[k] as int],
            ),
    {
        let picked = if self.marked_for_prune.len() > 0 {
            let mut all: Vec<usize> = Vec::new();
            let mut i: usize = 0;
            while i < self.items.len()
                invariant
                    i <= self.items@.len(),
                    all@ =~= Seq::new(i as nat, |j: int| j as usize),
                decreases self.items@.len() - i,
            {
                all.push(i);
                i = i + 1;
            }
            proof {
                lemma_pick_in(self.items@, all@, text_set(self.marked_for_prune@), true);
            }
            self.pick_exec(&all, true)
        } else {
            proof {
                lemma_pick_in(self.items@, self.filtered_indices@, text_set(self.marked_for_prune@), false);
            }
            self.pick_exec(&self.filtered_indices, false)
        };
        assert forall|k: int| 0 <= k < picked@.len() implies #[trigger] picked@[k] < self.items@.len() by {
            if self.marked_for_prune@.len() > 0 {
                let all = Seq::new(self.items@.len(), |j: int| j as usize);
                lemma_pick_in(self.items@, all, text_set(self.marked_for_prune@), true);
                assert(all.contains(picked@[k]));
            } else {
                lemma_pick_in(self.items@, self.filtered_indices@, text_set(self.marked_for_prune@), false);
                assert(self.filtered_indices@.contains(picked@[k]));
            }
        }
        let mut r: Vec<InventoryItem> = Vec::new();
        let mut k: usize = 0;
        while k < picked.len()
            invariant
                k <= picked@.len(),
                picked@ == prune_indices(*self),
                forall|q: int| 0 <= q < picked@.len() ==> #[trigger] picked@[q] < self.items@.len(),
                r@.len() == k,
                forall|q: int| 0 <= q < k ==> same_item(#[trigger] r@[q], self.items@[picked@[q] as int]),
            decreases picked@.len() - k,
        {
            r.push(self.items[picked[k]].clone());
            k = k + 1;
        }
        r
    }

    /// Before a cleanup run: returns the items to prune; when there are none, says
    /// so on the status line, and otherwise changes nothing.
    pub fn prune_request(&mut self) -> (r: Vec<InventoryItem>)
        requires
            indices_in_range(*old(self)),
        ensures
            r@.len() == prune_indices(*old(self)).len(),
            forall|k: int| 0 <= k < r@.len() ==> #[trigger] prune_indices(*old(self))[k] < old(self).items@.len(),
            forall|k: int| 0 <= k < r@.len() ==> same_item(
                #[trigger] r@[k],
                old(self).items@[prune_indices(*old(self))[k] as int],
            ),
            r@.len() == 0 ==> *final(self) == (App { status_message: final(self).status_message, ..*old(self) })
                && says(*final(self), "No items selected or orphan/cache to prune"@, false),
            r@.len() > 0 ==> *final(self) == *old(self),
    {
        let items = self.items_to_prune();
        if items.len() == 0 {
            self.set_status(owned("No items selected or orphan/cache to prune"), false);
        }
        items
    }

    /// After the cleanup files were written: reports the file, the count and the
    /// space the run reclaims.
    pub fn scripts_saved(&mut self, pruned: &Vec<InventoryItem>, clean_file_name: &str)
        requires
            total_size(pruned@) <= u64::MAX,
        ensures
            *final(self) == (App { status_message: final(self).status_message, ..*old(self) }),
            says(
                *final(self),
                "Saved "@ + clean_file_name@ + " & manifest ("@ + decimal(pruned@.len()) + " items, "@
                    + format_bytes_spec(total_size(pruned@) as nat) + "). Run 'bash "@ + clean_file_name@
                    + "' to clean"@,
                true,
            ),
    {
        let total = match checked_total_size(pruned) {
            Some(t) => t,
            None => 0,
        };
        let mut m = owned("Saved ");
        append_str(&mut m, clean_file_name);
        append_str(&mut m, " & manifest (");
        append_str(&mut m, u64_decimal(pruned.len() as u64).as_str());
        append_str(&mut m, " items, ");
        append_str(&mut m, format_bytes(total).as_str());
        append_str(&mut m, "). Run 'bash ");
        append_str(&mut m, clean_file_name);
        append_str(&mut m, "' to clean");
        self.set_status(m, true);
    }
}


// ---------------------------------------------------------------------------
// Editing the search text
// ---------------------------------------------------------------------------

impl App {
    /// Types a character into the search and recomputes the list.
    pub fn search_push(&mut self, c: char)
        ensures
            search_push_done(*old(self), *final(self), c),
    {
        let mut q = String::new();
        std::mem::swap(&mut q, &mut self.search_query);
        push_char(&mut q, c);
        self.search_query = q;
        self.reapply_filters();
    }

    /// Deletes the search's last character (if any) and recomputes the list.
    pub fn search_pop(&mut self)
        ensures
            search_pop_done(*old(self), *final(self)),
    {
        let cs = chars_of(self.search_query.as_str());
        if cs.len() > 0 {
            let kept = crate::text::slice_to_vec(cs.as_slice(), 0, cs.len() - 1);
            assert(kept@ =~= self.search_query@.drop_last());
            self.search_query = crate::text::string_of(kept.as_slice());
        }
        self.reapply_filters();
    }

    /// Empties the search and recomputes the list.
    pub fn search_clear(&mut self)
        ensures
            search_clear_done(*old(self), *final(self)),
    {
        self.search_query = String::new();
        self.reapply_filters();
    }

    /// Marks on the status line and in the header: how many distinct packages are
    /// marked and their total size, and the orphans' count and size.
    pub fn header_totals(&self) -> (r: (usize, u64, usize, u64))
        requires
            total_size(self.items@) <= u64::MAX,
        ensures
            r.0 == text_set(self.marked_for_prune@).len(),
            r.1 == marked_size(self.items@, text_set(self.marked_for_prune@)),
            r.2 == orphan_total(self.items@).0,
            r.3 == orphan_total(self.items@).1,
    {
        let distinct = distinct_count(&self.marked_for_prune);
        let mut marked_bytes: u64 = 0;
        let mut orphans: usize = 0;
        let mut orphan_bytes: u64 = 0;
        let mut i: usize = 0;
        while i < self.items.len()
            invariant
                i <= self.items@.len(),
                total_size(self.items@) <= u64::MAX,
                marked_bytes == marked_size(self.items@.take(i as int), text_set(self.marked_for_prune@)),
                orphans == orphan_total(self.items@.take(i as int)).0,
                orphan_bytes == orphan_total(self.items@.take(i as int)).1,
            decreases self.items@.len() - i,
        {
            let ghost t1 = self.items@.take(i + 1);
            assert(t1.drop_last() =~= self.items@.take(i as int));
            assert(t1.last() == self.items@[i as int]);
            proof {
                lemma_header_bounds(t1, text_set(self.marked_for_prune@));
                crate::cleanup::script_gen::lemma_total_size_mono(self.items@, i + 1);
            }
            let it = &self.items[i];
            let c = chars_of(it.id.as_str());
            if lists_exec(&self.marked_for_prune, &c) {
                marked_bytes = marked_bytes + it.size_bytes;
            }
            if it.is_orphan() {
                orphans = orphans + 1;
                orphan_bytes = orphan_bytes + it.size_bytes;
            }
            i = i + 1;
        }
        assert(self.items@.take(i as int) =~= self.items@);
        (distinct, marked_bytes, orphans, orphan_bytes)
    }
}

/// The total size of the items whose id is marked.
pub open spec fn marked_size(items: Seq<InventoryItem>, marks: Set<Seq<char>>) -> int
    decreases items.len(),
{
    if items.len() == 0 {
        0
    } else {
        marked_size(items.drop_last(), marks) + if marks.contains(items.last().id@) {
            items.last().size_bytes as int
        } else {
            0
        }
    }
}

/// How many items are orphans, and their total size.
pub open spec fn orphan_total(items: Seq<InventoryItem>) -> (int, int)
    decreases items.len(),
{
    if items.len() == 0 {
        (0, 0)
    } else {
        let r = orphan_total(items.drop_last());
        if is_orphan_item(items.last()) {
            (r.0 + 1, r.1 + items.last().size_bytes)
        } else {
            r
        }
    }
}

proof fn lemma_header_bounds(items: Seq<InventoryItem>, marks: Set<Seq<char>>)
    ensures
        0 <= marked_size(items, marks) <= total_size(items),
        0 <= orphan_total(items).0 <= items.len(),
        0 <= orphan_total(items).1 <= total_size(items),
    decreases items.len(),
{
    if items.len() > 0 {
        lemma_header_bounds(items.drop_last(), marks);
    }
}

/// How many distinct texts a list holds.
fn distinct_count(v: &Vec<String>) -> (r: usize)
    ensures
        r == text_set(v@).len(),
{
    let mut seen: Vec<String> = Vec::new();
    let mut i: usize = 0;
    while i < v.len()
        invariant
            i <= v@.len(),
            seen@.len() <= i,
            strs(seen@).no_duplicates(),
            text_set(seen@) == text_set(v@.take(i as int)),
        decreases v@.len() - i,
    {
        let ghost before = seen@;
        let c = chars_of(v[i].as_str());
        proof {
            assert forall|t: Seq<char>| lists(v@.take(i + 1), t) <==> (lists(v@.take(i as int), t) || t == v@[i as int]@) by {
                if lists(v@.take(i as int), t) {
                    let j = choose|j: int| 0 <= j < i && (#[trigger] v@.take(i as int)[j])@ == t;
                    assert(v@.take(i + 1)[j] == v@.take(i as int)[j]);
                }
                if t == v@[i as int]@ {
                    assert(v@.take(i + 1)[i as int] == v@[i as int]);
                }
                if lists(v@.take(i + 1), t) {
                    let j = choose|j: int| 0 <= j < i + 1 && (#[trigger] v@.take(i + 1)[j])@ == t;
                    if j < i {
                        assert(v@.take(i as int)[j] == v@.take(i + 1)[j]);
                    }
                }
            }
        }
        if !lists_exec(&seen, &c) {
            seen.push(owned(v[i].as_str()));
            proof {
                assert(strs(seen@) =~= strs(before).push(v@[i as int]@));
                assert forall|t: Seq<char>| lists(seen@, t) <==> (lists(before, t) || t == v@[i as int]@) by {
                    if lists(before, t) {
                        let j = choose|j: int| 0 <= j < before.len() && before[j]@ == t;
                        assert(seen@[j] == before[j]);
                    }
                    if t == v@[i as int]@ {
                        assert(seen@[before.len() as int]@ == t);
                    }
                    if lists(seen@, t) {
                        let j = choose|j: int| 0 <= j < seen@.len() && seen@[j]@ == t;
                        if j < before.len() {
                            assert(seen@[j] == before[j]);
                        }
                    }
                }
                assert(!strs(before).contains(v@[i as int]@)) by {
                    if strs(before).contains(v@[i as int]@) {
                        let j = choose|j: int| 0 <= j < strs(before).len() && strs(before)[j] == v@[i as int]@;
                        assert(before[j]@ == v@[i as int]@);
                    }
                }
            }
        }
        proof {
            assert forall|t: Seq<char>| text_set(seen@).contains(t) <==> text_set(v@.take(i + 1)).contains(t) by {
                assert(text_set(before).contains(t) <==> text_set(v@.take(i as int)).contains(t));
                if t == v@[i as int]@ && seen@ == before {
                    assert(lists(before, t));
                }
            }
        }
        assert(text_set(seen@) =~= text_set(v@.take(i + 1)));
        i = i + 1;
    }
    assert(v@.take(i as int) =~= v@);
    proof {
        lemma_distinct_len(seen@);
    }
    seen.len()
}

proof fn lemma_distinct_len(v: Seq<String>)
    requires
        strs(v).no_duplicates(),
    ensures
        text_set(v).len() == v.len(),
        text_set(v).finite(),
{
    assert(text_set(v) =~= strs(v).to_set()) by {
        assert forall|t: Seq<char>| text_set(v).contains(t) <==> strs(v).to_set().contains(t) by {
            if lists(v, t) {
                let j = choose|j: int| 0 <= j < v.len() && v[j]@ == t;
                assert(strs(v)[j] == t);
            }
            if strs(v).contains(t) {
                let j = choose|j: int| 0 <= j < strs(v).len() && strs(v)[j] == t;
                assert(v[j]@ == t);
            }
        }
    }
    strs(v).unique_seq_to_set();
}


// ---------------------------------------------------------------------------
// The list is a function of the state and the moment
// ---------------------------------------------------------------------------

proof fn lemma_sorted_same_elements(keys: Seq<Seq<u64>>, a: Seq<usize>, b: Seq<usize>)
    requires
        a.no_duplicates(),
        b.no_duplicates(),
        forall|x: usize| a.contains(x) <==> b.contains(x),
        sorted_by_keys(keys, a),
        sorted_by_keys(keys, b),
    ensures
        a == b,
    decreases a.len(),
{
    if a.len() == 0 {
        if b.len() > 0 {
            assert(b.contains(b[0]));
            assert(a.contains(b[0]));
        }
        assert(a =~= b);
    } else {
        assert(a.contains(a[0]));
        assert(b.contains(a[0]));
        let i = choose|i: int| 0 <= i < b.len() && b[i] == a[0];
        assert(b.contains(b[0]));
        assert(a.contains(b[0]));
        let j = choose|j: int| 0 <= j < a.len() && a[j] == b[0];
        if i > 0 {
            assert(ranks_before(keys, b[0] as int, b[i] as int));
            assert(j != 0);
            assert(ranks_before(keys, a[0] as int, a[j] as int));
            lemma_ranks_total(keys, a[0] as int, b[0] as int);
            assert(false);
        }
        let a1 = a.drop_first();
        let b1 = b.drop_first();
        assert forall|x: usize| a1.contains(x) <==> b1.contains(x) by {
            if a1.contains(x) {
                let p = choose|p: int| 0 <= p < a1.len() && a1[p] == x;
                assert(a[p + 1] == x);
                assert(a.contains(x));
                assert(b.contains(x));
                let q = choose|q: int| 0 <= q < b.len() && b[q] == x;
                assert(x != a[0]);
                assert(q != 0);
                assert(b1[q - 1] == x);
            }
            if b1.contains(x) {
                let p = choose|p: int| 0 <= p < b1.len() && b1[p] == x;
                assert(b[p + 1] == x);
                assert(b.contains(x));
                assert(a.contains(x));
                let q = choose|q: int| 0 <= q < a.len() && a[q] == x;
                assert(x != b[0]);
                assert(q != 0);
                assert(a1[q - 1] == x);
            }
        }
        assert forall|x: int, y: int| 0 <= x < y < a1.len() implies ranks_before(keys, a1[x] as int, a1[y] as int) by {
            assert(a1[x] == a[x + 1] && a1[y] == a[y + 1]);
        }
        assert forall|x: int, y: int| 0 <= x < y < b1.len() implies ranks_before(keys, b1[x] as int, b1[y] as int) by {
            assert(b1[x] == b[x + 1] && b1[y] == b[y + 1]);
        }
        lemma_sorted_same_elements(keys, a1, b1);
        assert(b[0] == a[0]);
        assert(a.len() == b.len());
        assert forall|k: int| 0 <= k < a.len() implies a[k] == b[k] by {
            if k > 0 {
                assert(a[k] == a1[k - 1]);
                assert(b[k] == b1[k - 1]);
            }
        }
        assert(a =~= b);
    }
}

/// What the dashboard lists is determined by its state and the moment: two lists
/// that both meet `listed` at the same moment are the same list.
pub proof fn listing_is_determined(app: App, now: Timestamp, a: Seq<usize>, b: Seq<usize>)
    requires
        listed(app, now, a),
        listed(app, now, b),
    ensures
        a == b,
{
    assert forall|x: usize| a.contains(x) <==> b.contains(x) by {
        if a.contains(x) {
            let k = choose|k: int| 0 <= k < a.len() && a[k] == x;
            assert(visible(app, app.items@[x as int], now));
            assert(b.contains((x as int) as usize));
        }
        if b.contains(x) {
            let k = choose|k: int| 0 <= k < b.len() && b[k] == x;
            assert(visible(app, app.items@[x as int], now));
            assert(a.contains((x as int) as usize));
        }
    }
    lemma_sorted_same_elements(sort_keys(app.items@, app.active_sort, now), a, b);
}

/// Clearing the filters lists every item again: after `clear_filters`, each item's
/// position is in the listing.
pub proof fn clearing_filters_lists_everything(a: App, b: App)
    requires
        clear_filters_done(a, b),
    ensures
        forall|i: usize| i < b.items@.len() ==> #[trigger] b.filtered_indices@.contains(i),
{
    let now = choose|now: Timestamp| listed(b, now, b.filtered_indices@);
    assert(trim_start_spec(b.search_query@) =~= Seq::<char>::empty());
    assert(trim_spec(b.search_query@) =~= Seq::<char>::empty());
    assert forall|i: usize| i < b.items@.len() implies #[trigger] b.filtered_indices@.contains(i) by {
        assert(visible(b, b.items@[i as int], now));
    }
}

} // verus!
