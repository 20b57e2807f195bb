use vstd::prelude::*;
use crate::cleanup::script_gen::{lemma_total_size_mono, total_size};
use crate::order::lex_lt;
use crate::models::category::{Category, category_name};
use crate::models::item::{
    InventoryItem, PackageSource, PackageStatus, Timestamp, is_cache_item, is_orphan_item,
    item_matches, same_item, status_of,
};
use crate::models::metadata::code_point_key;
use crate::order::{key_views, sort_indices, sorted_by_keys};
use crate::text::{append_str, decimal, owned, u64_decimal, chars_of, contains_str, has_substring, str_eq, to_lower, unicode_lower};
use crate::tui::app::{
    SortOrder, days_or_zero, inactivity_ok, is_index_perm, sort_key, sort_keys,
};

verus! {

// ---------------------------------------------------------------------------
// Sorting the printed inventory
// ---------------------------------------------------------------------------

/// The order a lower-cased `--sort` value asks for: by name, source, category or
/// inactivity; by size (largest first) for any other value.
pub open spec fn sort_order_of(c: Seq<char>) -> SortOrder {
    if c == "name"@ {
        SortOrder::NameAsc
    } else if c == "source"@ {
        SortOrder::SourceAsc
    } else if c == "category"@ {
        SortOrder::CategoryAsc
    } else if c == "last-used"@ || c == "inactivity"@ {
        SortOrder::LastUsedDesc
    } else {
        SortOrder::SizeDesc
    }
}

/// The order that a `--sort` value asks for (any case).
pub fn sort_order_for(criteria: &str) -> (r: SortOrder)
    ensures
        r == sort_order_of(unicode_lower(criteria@)),
{
    let c = to_lower(criteria);
    let s = c.as_str();
    if str_eq(s, "name") {
        SortOrder::NameAsc
    } else if str_eq(s, "source") {
        SortOrder::SourceAsc
    } else if str_eq(s, "category") {
        SortOrder::CategoryAsc
    } else if str_eq(s, "last-used") || str_eq(s, "inactivity") {
        SortOrder::LastUsedDesc
    } else {
        SortOrder::SizeDesc
    }
}

/// `new` holds the items of `old` rearranged by `order`.
pub open spec fn rearranged(old: Seq<InventoryItem>, order: Seq<usize>, new: Seq<InventoryItem>) -> bool {
    &&& is_index_perm(order, old.len())
    &&& new.len() == old.len()
    &&& forall|k: int| 0 <= k < new.len() ==> same_item(#[trigger] new[k], old[order[k] as int])
}

/// Sorts the items as `--sort` asks, at the moment `now` (for inactivity); equal
/// keys keep their order.
pub fn sort_items(items: &mut Vec<InventoryItem>, criteria: &str, now: Timestamp)
    ensures
        exists|order: Seq<usize>|
            rearranged(old(items)@, order, final(items)@) && sorted_by_keys(
                sort_keys(old(items)@, sort_order_of(unicode_lower(criteria@)), now),
                order,
            ),
{
    let order_kind = sort_order_for(criteria);
    let n = items.len();
    let mut keys: Vec<Vec<u64>> = Vec::new();
    let mut cand: Vec<usize> = Vec::new();
    let mut i: usize = 0;
    while i < n
        invariant
            n == items@.len(),
            i <= n,
            keys@.len() == i,
            cand@.len() == i,
            forall|j: int| 0 <= j < i ==> #[trigger] cand@[j] == j,
            forall|j: int| 0 <= j < i ==> (#[trigger] keys@[j])@ == sort_key(items@[j], order_kind, now),
        decreases n - i,
    {
        keys.push(crate::tui::app::sort_key_of(&items[i], order_kind, now));
        cand.push(i);
        i = i + 1;
    }
    assert(key_views(keys@) =~= sort_keys(items@, order_kind, now));
    let order = sort_indices(&cand, &keys);
    assert forall|k: int| 0 <= k < order@.len() implies #[trigger] order@[k] < n by {
        assert(order@.to_set().contains(order@[k]));
        assert(cand@.to_set().contains(order@[k]));
        let j = choose|j: int| 0 <= j < cand@.len() && cand@[j] == order@[k];
    }
    let mut out: Vec<InventoryItem> = Vec::new();
    let mut k: usize = 0;
    while k < order.len()
        invariant
            k <= order@.len(),
            order@.len() == n,
            n == items@.len(),
            forall|q: int| 0 <= q < order@.len() ==> #[trigger] order@[q] < n,
            out@.len() == k,
            forall|q: int| 0 <= q < k ==> same_item(#[trigger] out@[q], items@[order@[q] as int]),
        decreases order@.len() - k,
    {
        out.push(items[order[k]].clone());
        k = k + 1;
    }
    let ghost old_items = items@;
    *items = out;
    assert(rearranged(old_items, order@, items@));
}

// ---------------------------------------------------------------------------
// Choosing items
// ---------------------------------------------------------------------------

/// `r` lists, in increasing order, exactly the indices of `items` that `p` takes.
pub open spec fn exactly_where(items: Seq<InventoryItem>, p: spec_fn(InventoryItem) -> bool, r: Seq<usize>) -> bool {
    &&& forall|a: int, b: int| 0 <= a < b < r.len() ==> r[a] < r[b]
    &&& forall|a: int| 0 <= a < r.len() ==> #[trigger] r[a] < items.len() && p(items[r[a] as int])
    &&& forall|i: int| 0 <= i < items.len() && p(items[i]) ==> r.contains(i as usize)
}

/// Whether `info <package>` shows an item: the lower-cased query equals or occurs
/// in its lower-cased name or id, or names a common alias of it.
pub open spec fn info_match(item: InventoryItem, q: Seq<char>) -> bool {
    let name = unicode_lower(item.name@);
    let id = unicode_lower(item.id@);
    ||| name == q
    ||| id == q
    ||| has_substring(name, q)
    ||| has_substring(id, q)
    ||| (q == "postgres"@ && (has_substring(name, "postgresql"@) || has_substring(id, "postgresql"@)))
    ||| (q == "postgresql"@ && (has_substring(name, "postgres"@) || has_substring(id, "postgres"@)))
    ||| (q == "golang"@ && (has_substring(name, "go"@) || has_substring(id, "go:"@)))
    ||| (q == "nodejs"@ && (has_substring(name, "node"@) || has_substring(id, "npm:"@)))
    ||| (q == "python"@ && (has_substring(name, "py"@) || has_substring(id, "uv:"@)))
}

fn info_match_exec(item: &InventoryItem, q: &str) -> (r: bool)
    ensures
        r == info_match(*item, q@),
{
    let name = to_lower(item.name.as_str());
    let id = to_lower(item.id.as_str());
    let n = name.as_str();
    let d = id.as_str();
    str_eq(n, q) || str_eq(d, q) || contains_str(n, q) || contains_str(d, q) || (str_eq(q, "postgres") && (
    contains_str(n, "postgresql") || contains_str(d, "postgresql"))) || (str_eq(q, "postgresql") && (
    contains_str(n, "postgres") || contains_str(d, "postgres"))) || (str_eq(q, "golang") && (contains_str(
        n,
        "go",
    ) || contains_str(d, "go:"))) || (str_eq(q, "nodejs") && (contains_str(n, "node") || contains_str(
        d,
        "npm:",
    ))) || (str_eq(q, "python") && (contains_str(n, "py") || contains_str(d, "uv:")))
}

/// The indices of the items that `info <package>` shows, in inventory order.
pub fn info_matches(items: &Vec<InventoryItem>, package: &str) -> (r: Vec<usize>)
    ensures
        exactly_where(items@, |it: InventoryItem| info_match(it, unicode_lower(package@)), r@),
{
    let q = to_lower(package);
    let ghost p = |it: InventoryItem| info_match(it, unicode_lower(package@));
    let mut r: Vec<usize> = Vec::new();
    let mut i: usize = 0;
    while i < items.len()
        invariant
            i <= items@.len(),
            q@ == unicode_lower(package@),
            p == (|it: InventoryItem| info_match(it, unicode_lower(package@))),
            forall|a: int, b: int| 0 <= a < b < r@.len() ==> r@[a] < r@[b],
            forall|a: int| 0 <= a < r@.len() ==> #[trigger] r@[a] < i && p(items@[r@[a] as int]),
            forall|j: int| 0 <= j < i && p(items@[j]) ==> r@.contains(j as usize),
        decreases items@.len() - i,
    {
        let ghost before = r@;
        if info_match_exec(&items[i], q.as_str()) {
            r.push(i);
            proof {
                lemma_push_index(before, r@, i);
            }
        }
        i = i + 1;
    }
    r
}

proof fn lemma_push_index(before: Seq<usize>, after: Seq<usize>, i: usize)
    requires
        after == before.push(i),
        forall|a: int| 0 <= a < before.len() ==> #[trigger] before[a] < i,
    ensures
        forall|j: usize| before.contains(j) ==> after.contains(j),
        after.contains(i),
        forall|a: int| 0 <= a < after.len() ==> #[trigger] after[a] < i + 1,
        forall|a: int, b: int| 0 <= a < b < after.len() && (forall|x: int, y: int| 0 <= x < y < before.len() ==> before[x] < before[y]) ==> after[a] < after[b],
{
    assert(after[before.len() as int] == i);
    assert forall|j: usize| before.contains(j) implies after.contains(j) by {
        let w = choose|w: int| 0 <= w < before.len() && before[w] == j;
        assert(after[w] == j);
    }
    assert forall|a: int| 0 <= a < after.len() implies #[trigger] after[a] < i + 1 by {
        if a < before.len() {
            assert(after[a] == before[a]);
        }
    }
    assert forall|a: int, b: int| 0 <= a < b < after.len() && (forall|x: int, y: int| 0 <= x < y < before.len() ==> before[x] < before[y]) implies after[a] < after[b] by {
        assert(after[a] == before[a]);
        if b < before.len() {
            assert(after[b] == before[b]);
        }
    }
}

/// The options of the `filter` command.
pub struct FilterOptions {
    pub ecosystem: Option<String>,
    pub orphans: bool,
    pub caches: bool,
    pub top_level: bool,
    pub older_than: Option<u64>,
    pub category: Option<String>,
}

/// Whether the `filter` command keeps an item at the moment `now`.
pub open spec fn filter_ok(item: InventoryItem, o: FilterOptions, now: Timestamp) -> bool {
    &&& (o.ecosystem matches Some(e) ==> item_matches(item, unicode_lower(e@)))
    &&& (o.orphans ==> is_orphan_item(item))
    &&& (o.caches ==> is_cache_item(item))
    &&& (o.top_level ==> item.is_top_level)
    &&& inactivity_ok(o.older_than, item, now)
    &&& (o.category matches Some(c) ==> has_substring(unicode_lower(category_name(item.category)), unicode_lower(c@)))
}

fn inactivity_check(min: Option<u64>, item: &InventoryItem, now: Timestamp) -> (r: bool)
    ensures
        r == inactivity_ok(min, *item, now),
{
    match min {
        Some(m) => {
            let d: i64 = match item.inactivity_days_at(now) {
                Some(d) => d,
                None => 0,
            };
            d > 0 && d as u64 > m
        },
        None => true,
    }
}

fn filter_ok_exec(item: &InventoryItem, o: &FilterOptions, now: Timestamp) -> (r: bool)
    ensures
        r == filter_ok(*item, *o, now),
{
    match &o.ecosystem {
        Some(e) => {
            if !item.matches_ecosystem(e.as_str()) {
                return false;
            }
        },
        None => {},
    }
    if o.orphans && !item.is_orphan() {
        return false;
    }
    if o.caches && !item.is_cache() {
        return false;
    }
    if o.top_level && !item.is_top_level {
        return false;
    }
    if !inactivity_check(o.older_than, item, now) {
        return false;
    }
    match &o.category {
        Some(c) => {
            let cat = to_lower(item.category.as_str());
            let want = to_lower(c.as_str());
            contains_str(cat.as_str(), want.as_str())
        },
        None => true,
    }
}

/// The indices of the items that the `filter` command keeps, in inventory order.
pub fn filter_indices(items: &Vec<InventoryItem>, o: &FilterOptions, now: Timestamp) -> (r: Vec<usize>)
    ensures
        exactly_where(items@, |it: InventoryItem| filter_ok(it, *o, now), r@),
{
    let ghost p = |it: InventoryItem| filter_ok(it, *o, now);
    let mut r: Vec<usize> = Vec::new();
    let mut i: usize = 0;
    while i < items.len()
        invariant
            i <= items@.len(),
            p == (|it: InventoryItem| filter_ok(it, *o, now)),
            forall|a: int, b: int| 0 <= a < b < r@.len() ==> r@[a] < r@[b],
            forall|a: int| 0 <= a < r@.len() ==> #[trigger] r@[a] < i && p(items@[r@[a] as int]),
            forall|j: int| 0 <= j < i && p(items@[j]) ==> r@.contains(j as usize),
        decreases items@.len() - i,
    {
        let ghost before = r@;
        if filter_ok_exec(&items[i], o, now) {
            r.push(i);
            proof {
                lemma_push_index(before, r@, i);
            }
        }
        i = i + 1;
    }
    r
}

/// The options of the `prune` command.
pub struct PruneOptions {
    pub orphans: bool,
    pub caches: bool,
    pub ecosystem: Option<String>,
    pub older_than: Option<u64>,
}

/// Whether the `prune` command takes an item at the moment `now`: it must have an
/// uninstall command and pass the ecosystem and inactivity filters; then it is
/// taken as an orphan or a cache when those flags are given, and, when no option
/// at all is given, when it is an orphan or a cache.
pub open spec fn prune_target(item: InventoryItem, o: PruneOptions, now: Timestamp) -> bool {
    &&& item.uninstall_cmd is Some
    &&& (o.ecosystem matches Some(e) ==> item_matches(item, unicode_lower(e@)))
    &&& inactivity_ok(o.older_than, item, now)
    &&& {
        ||| (o.orphans && is_orphan_item(item))
        ||| (o.caches && is_cache_item(item))
        ||| (!o.orphans && !o.caches && o.older_than is None && o.ecosystem is None && (is_orphan_item(item)
            || is_cache_item(item)))
    }
}

fn prune_target_exec(item: &InventoryItem, o: &PruneOptions, now: Timestamp) -> (r: bool)
    ensures
        r == prune_target(*item, *o, now),
{
    if item.uninstall_cmd.is_none() {
        return false;
    }
    match &o.ecosystem {
        Some(e) => {
            if !item.matches_ecosystem(e.as_str()) {
                return false;
            }
        },
        None => {},
    }
    if !inactivity_check(o.older_than, item, now) {
        return false;
    }
    if o.orphans && item.is_orphan() {
        return true;
    }
    if o.caches && item.is_cache() {
        return true;
    }
    if !o.orphans && !o.caches && o.older_than.is_none() && o.ecosystem.is_none() {
        return item.is_orphan() || item.is_cache();
    }
    false
}

/// The indices of the items that the `prune` command takes, in inventory order.
pub fn prune_indices_for(items: &Vec<InventoryItem>, o: &PruneOptions, now: Timestamp) -> (r: Vec<usize>)
    ensures
        exactly_where(items@, |it: InventoryItem| prune_target(it, *o, now), r@),
{
    let ghost p = |it: InventoryItem| prune_target(it, *o, now);
    let mut r: Vec<usize> = Vec::new();
    let mut i: usize = 0;
    while i < items.len()
        invariant
            i <= items@.len(),
            p == (|it: InventoryItem| prune_target(it, *o, now)),
            forall|a: int, b: int| 0 <= a < b < r@.len() ==> r@[a] < r@[b],
            forall|a: int| 0 <= a < r@.len() ==> #[trigger] r@[a] < i && p(items@[r@[a] as int]),
            forall|j: int| 0 <= j < i && p(items@[j]) ==> r@.contains(j as usize),
        decreases items@.len() - i,
    {
        let ghost before = r@;
        if prune_target_exec(&items[i], o, now) {
            r.push(i);
            proof {
                lemma_push_index(before, r@, i);
            }
        }
        i = i + 1;
    }
    r
}


// ---------------------------------------------------------------------------
// Totals
// ---------------------------------------------------------------------------

/// A group of items that the summaries count.
pub enum Selector {
    All,
    Orphans,
    Caches,
    /// Top-level installs that are not caches.
    TopLevelTools,
    /// Items that other installed items depend on.
    Dependencies,
    Source(PackageSource),
    Domain(Category),
}

/// Whether the group holds the item.
pub open spec fn selects(sel: Selector, i: InventoryItem) -> bool {
    match sel {
        Selector::All => true,
        Selector::Orphans => is_orphan_item(i),
        Selector::Caches => is_cache_item(i),
        Selector::TopLevelTools => i.is_top_level && !is_cache_item(i),
        Selector::Dependencies => status_of(i) is Dependency,
        Selector::Source(s) => i.source == s,
        Selector::Domain(c) => i.category == c,
    }
}

/// How many of the items the group holds.
pub open spec fn count_sel(items: Seq<InventoryItem>, sel: Selector) -> nat
    decreases items.len(),
{
    if items.len() == 0 {
        0
    } else {
        count_sel(items.drop_last(), sel) + if selects(sel, items.last()) {
            1nat
        } else {
            0nat
        }
    }
}

/// The total size of the items the group holds.
pub open spec fn bytes_sel(items: Seq<InventoryItem>, sel: Selector) -> int
    decreases items.len(),
{
    if items.len() == 0 {
        0
    } else {
        bytes_sel(items.drop_last(), sel) + if selects(sel, items.last()) {
            items.last().size_bytes as int
        } else {
            0
        }
    }
}

proof fn lemma_sel_bounds(items: Seq<InventoryItem>, sel: Selector)
    ensures
        count_sel(items, sel) <= items.len(),
        0 <= bytes_sel(items, sel) <= total_size(items),
        (exists|i: int| 0 <= i < items.len() && selects(sel, items[i])) ==> count_sel(items, sel) > 0,
    decreases items.len(),
{
    if items.len() > 0 {
        lemma_sel_bounds(items.drop_last(), sel);
        if exists|i: int| 0 <= i < items.len() && selects(sel, items[i]) {
            let i = choose|i: int| 0 <= i < items.len() && selects(sel, items[i]);
            if i < items.len() - 1 {
                assert(items.drop_last()[i] == items[i]);
            }
        }
    }
}

fn selects_exec(sel: &Selector, i: &InventoryItem) -> (r: bool)
    ensures
        r == selects(*sel, *i),
{
    match sel {
        Selector::All => true,
        Selector::Orphans => i.is_orphan(),
        Selector::Caches => i.is_cache(),
        Selector::TopLevelTools => i.is_top_level && !i.is_cache(),
        Selector::Dependencies => match i.status() {
            PackageStatus::Dependency { .. } => true,
            _ => false,
        },
        Selector::Source(s) => i.source == *s,
        Selector::Domain(c) => i.category == *c,
    }
}

/// How many items a group holds, and their total size.
pub fn tally(items: &Vec<InventoryItem>, sel: &Selector) -> (r: (usize, u64))
    requires
        total_size(items@) <= u64::MAX,
    ensures
        r.0 == count_sel(items@, *sel),
        r.1 == bytes_sel(items@, *sel),
{
    let mut count: usize = 0;
    let mut bytes: u64 = 0;
    let mut i: usize = 0;
    while i < items.len()
        invariant
            i <= items@.len(),
            total_size(items@) <= u64::MAX,
            count == count_sel(items@.take(i as int), *sel),
            bytes == bytes_sel(items@.take(i as int), *sel),
        decreases items@.len() - i,
    {
        let ghost t1 = items@.take(i + 1);
        assert(t1.drop_last() =~= items@.take(i as int));
        assert(t1.last() == items@[i as int]);
        proof {
            lemma_sel_bounds(t1, *sel);
            lemma_total_size_mono(items@, i + 1);
            lemma_sel_bounds(items@.take(i as int), *sel);
        }
        if selects_exec(sel, &items[i]) {
            count = count + 1;
            bytes = bytes + items[i].size_bytes;
        }
        i = i + 1;
    }
    assert(items@.take(i as int) =~= items@);
    (count, bytes)
}

/// The totals of the `summary` command.
pub struct InventorySummary {
    pub total_count: usize,
    pub total_bytes: u64,
    pub top_level_count: usize,
    pub orphan_count: usize,
    pub orphan_bytes: u64,
    pub cache_count: usize,
    pub cache_bytes: u64,
    pub dependency_count: usize,
}

/// The totals of the `summary` command.
pub fn summarize(items: &Vec<InventoryItem>) -> (r: InventorySummary)
    requires
        total_size(items@) <= u64::MAX,
    ensures
        r.total_count == items@.len(),
        r.total_bytes == total_size(items@),
        r.top_level_count == count_sel(items@, Selector::TopLevelTools),
        r.orphan_count == count_sel(items@, Selector::Orphans),
        r.orphan_bytes == bytes_sel(items@, Selector::Orphans),
        r.cache_count == count_sel(items@, Selector::Caches),
        r.cache_bytes == bytes_sel(items@, Selector::Caches),
        r.dependency_count == count_sel(items@, Selector::Dependencies),
{
    let all = tally(items, &Selector::All);
    proof {
        lemma_all_is_total(items@);
    }
    let orphans = tally(items, &Selector::Orphans);
    let caches = tally(items, &Selector::Caches);
    let tops = tally(items, &Selector::TopLevelTools);
    let deps = tally(items, &Selector::Dependencies);
    InventorySummary {
        total_count: items.len(),
        total_bytes: all.1,
        top_level_count: tops.0,
        orphan_count: orphans.0,
        orphan_bytes: orphans.1,
        cache_count: caches.0,
        cache_bytes: caches.1,
        dependency_count: deps.0,
    }
}

proof fn lemma_all_is_total(items: Seq<InventoryItem>)
    ensures
        bytes_sel(items, Selector::All) == total_size(items),
        count_sel(items, Selector::All) == items.len(),
    decreases items.len(),
{
    if items.len() > 0 {
        lemma_all_is_total(items.drop_last());
    }
}

/// The footer totals of a printed table: how many rows are shown (`top` of them,
/// or all when `top` is 0), the total size and the orphans' size.
pub fn table_totals(items: &Vec<InventoryItem>, top: usize) -> (r: (usize, u64, u64))
    requires
        total_size(items@) <= u64::MAX,
    ensures
        r.0 == (if top > 0 && top < items@.len() { top as int } else { items@.len() as int }),
        r.1 == total_size(items@),
        r.2 == bytes_sel(items@, Selector::Orphans),
{
    let all = tally(items, &Selector::All);
    proof {
        lemma_all_is_total(items@);
    }
    let orphans = tally(items, &Selector::Orphans);
    let shown = if top > 0 && top < items.len() {
        top
    } else {
        items.len()
    };
    (shown, all.1, orphans.1)
}


/// Some entry of `r` is about `x`.
pub open spec fn has_group<T>(r: Seq<(T, usize, u64)>, x: T) -> bool {
    exists|k: int| 0 <= k < r.len() && (#[trigger] r[k]).0 == x
}

/// Every package source, each once, in declaration order.
pub open spec fn all_sources_spec() -> Seq<PackageSource> {
    seq![PackageSource::BrewFormula, PackageSource::BrewCask, PackageSource::MiseRuntime, PackageSource::CargoBin, PackageSource::Gem, PackageSource::NpmGlobal, PackageSource::UvTool, PackageSource::GoBin, PackageSource::MacApp, PackageSource::BuildCache, PackageSource::DockerImage]
}

fn all_sources() -> (r: Vec<PackageSource>)
    ensures
        r@ == all_sources_spec(),
{
    let mut r: Vec<PackageSource> = Vec::new();
    r.push(PackageSource::BrewFormula);
    r.push(PackageSource::BrewCask);
    r.push(PackageSource::MiseRuntime);
    r.push(PackageSource::CargoBin);
    r.push(PackageSource::Gem);
    r.push(PackageSource::NpmGlobal);
    r.push(PackageSource::UvTool);
    r.push(PackageSource::GoBin);
    r.push(PackageSource::MacApp);
    r.push(PackageSource::BuildCache);
    r.push(PackageSource::DockerImage);
    assert(r@ =~= all_sources_spec());
    r
}

proof fn lemma_all_sources()
    ensures
        all_sources_spec().no_duplicates(),
        forall|x: PackageSource| all_sources_spec().contains(x),
{
    let s = all_sources_spec();
    assert forall|x: PackageSource| s.contains(x) by {
        match x {
            PackageSource::BrewFormula => { assert(s[0] == x); },
            PackageSource::BrewCask => { assert(s[1] == x); },
            PackageSource::MiseRuntime => { assert(s[2] == x); },
            PackageSource::CargoBin => { assert(s[3] == x); },
            PackageSource::Gem => { assert(s[4] == x); },
            PackageSource::NpmGlobal => { assert(s[5] == x); },
            PackageSource::UvTool => { assert(s[6] == x); },
            PackageSource::GoBin => { assert(s[7] == x); },
            PackageSource::MacApp => { assert(s[8] == x); },
            PackageSource::BuildCache => { assert(s[9] == x); },
            PackageSource::DockerImage => { assert(s[10] == x); },
        }
    }
}

/// Item count and total size per package source present among the items, largest first
/// (the order of equal sizes is not fixed).
pub fn source_breakdown(items: &Vec<InventoryItem>) -> (r: Vec<(PackageSource, usize, u64)>)
    requires
        total_size(items@) <= u64::MAX,
    ensures
        forall|k: int| 0 <= k < r@.len() ==> (#[trigger] r@[k]).1 == count_sel(items@, Selector::Source(r@[k].0))
            && r@[k].2 == bytes_sel(items@, Selector::Source(r@[k].0)) && r@[k].1 > 0,
        forall|i: int| 0 <= i < items@.len() ==> has_group(r@, (#[trigger] items@[i]).source),
        forall|a: int, b: int| 0 <= a < b < r@.len() ==> r@[a].0 != r@[b].0,
        forall|a: int, b: int| 0 <= a < b < r@.len() ==> r@[a].2 >= r@[b].2,
{
    let all = all_sources();
    proof {
        lemma_all_sources();
    }
    let mut groups: Vec<(PackageSource, usize, u64)> = Vec::new();
    let mut keys: Vec<Vec<u64>> = Vec::new();
    let mut cand: Vec<usize> = Vec::new();
    let ghost mut from: Seq<int> = Seq::empty();
    let mut j: usize = 0;
    while j < all.len()
        invariant
            all@ == all_sources_spec(),
            all@.no_duplicates(),
            j <= all@.len(),
            total_size(items@) <= u64::MAX,
            groups@.len() == keys@.len(),
            cand@.len() == groups@.len(),
            from.len() == groups@.len(),
            forall|k: int| 0 <= k < cand@.len() ==> #[trigger] cand@[k] == k,
            forall|k: int| 0 <= k < groups@.len() ==> 0 <= #[trigger] from[k] < j && all@[from[k]] == groups@[k].0,
            forall|a: int, b: int| 0 <= a < b < groups@.len() ==> from[a] < from[b],
            forall|k: int| 0 <= k < groups@.len() ==> (#[trigger] groups@[k]).1 == count_sel(items@, Selector::Source(groups@[k].0))
                && groups@[k].2 == bytes_sel(items@, Selector::Source(groups@[k].0)) && groups@[k].1 > 0,
            forall|k: int| 0 <= k < keys@.len() ==> (#[trigger] keys@[k])@ == seq![(0xffff_ffff_ffff_ffffint - groups@[k].2) as u64],
            forall|q: int| 0 <= q < j && count_sel(items@, Selector::Source(all@[q])) > 0 ==> exists|k: int| 0 <= k < groups@.len() && #[trigger] from[k] == q,
        decreases all@.len() - j,
    {
        let t = tally(items, &Selector::Source(all[j]));
        if t.0 > 0 {
            let ghost gl = groups@.len() as int;
            let m = groups.len();
            groups.push((all[j], t.0, t.1));
            let mut key: Vec<u64> = Vec::new();
            key.push(u64::MAX - t.1);
            assert(key@ =~= seq![(0xffff_ffff_ffff_ffffint - t.1) as u64]);
            keys.push(key);
            cand.push(m);
            proof {
                let old_from = from;
                from = from.push(j as int);
                assert forall|q: int| 0 <= q < j + 1 && count_sel(items@, Selector::Source(all@[q])) > 0 implies exists|k: int| 0 <= k < groups@.len() && #[trigger] from[k] == q by {
                    if q == j {
                        assert(from[gl] == q);
                    } else {
                        let k = choose|k: int| 0 <= k < gl && #[trigger] old_from[k] == q;
                        assert(from[k] == q);
                    }
                }
            }
        }
        j = j + 1;
    }
    proof {
        assert forall|a: int, b: int| 0 <= a < b < groups@.len() implies groups@[a].0 != groups@[b].0 by {
            assert(from[a] < from[b]);
            assert(all@[from[a]] != all@[from[b]]);
        }
    }
    let ghost kv = key_views(keys@);
    assert forall|k: int| 0 <= k < cand@.len() implies #[trigger] cand@[k] < keys@.len() by {}
    let order = sort_indices(&cand, &keys);
    assert forall|k: int| 0 <= k < order@.len() implies #[trigger] order@[k] < groups@.len() by {
        assert(order@.to_set().contains(order@[k]));
        assert(cand@.to_set().contains(order@[k]));
        let w = choose|w: int| 0 <= w < cand@.len() && cand@[w] == order@[k];
    }
    let mut r: Vec<(PackageSource, usize, u64)> = Vec::new();
    let mut k: usize = 0;
    while k < order.len()
        invariant
            k <= order@.len(),
            order@.len() == groups@.len(),
            forall|q: int| 0 <= q < order@.len() ==> #[trigger] order@[q] < groups@.len(),
            r@.len() == k,
            forall|q: int| 0 <= q < k ==> #[trigger] r@[q] == groups@[order@[q] as int],
        decreases order@.len() - k,
    {
        r.push(groups[order[k]]);
        k = k + 1;
    }
    proof {
        assert forall|a: int, b: int| 0 <= a < b < r@.len() implies r@[a].0 != r@[b].0 by {
            assert(order@[a] != order@[b]);
        }
        assert forall|a: int, b: int| 0 <= a < b < r@.len() implies r@[a].2 >= r@[b].2 by {
            let x = order@[a] as int;
            let y = order@[b] as int;
            assert(kv[x] == keys@[x]@);
            assert(kv[y] == keys@[y]@);
            assert(sorted_by_keys(kv, order@));
            assert(crate::order::ranks_before(kv, order@[a] as int, order@[b] as int));
            assert(lex_lt(kv[x], kv[y]) || (kv[x] == kv[y] && x < y));
            if lex_lt(kv[x], kv[y]) {
                assert(kv[x][0] < kv[y][0] || (kv[x][0] == kv[y][0] && lex_lt(kv[x].drop_first(), kv[y].drop_first())));
                if kv[x][0] == kv[y][0] {
                    assert(kv[x].drop_first().len() == 0);
                }
            } else {
                assert(kv[x][0] == kv[y][0]);
            }
        }
        assert forall|i: int| 0 <= i < items@.len() implies has_group(r@, (#[trigger] items@[i]).source) by {
            let x = items@[i].source;
            assert(all@.contains(x));
            let p = choose|p: int| 0 <= p < all@.len() && all@[p] == x;
            lemma_sel_bounds(items@, Selector::Source(x));
            assert(selects(Selector::Source(x), items@[i]));
            let g = choose|g: int| 0 <= g < groups@.len() && #[trigger] from[g] == p;
            assert(order@.to_set().contains(g as usize)) by {
                assert(cand@[g] == g);
                assert(cand@.to_set().contains(g as usize));
            }
            let q = choose|q: int| 0 <= q < order@.len() && order@[q] == g as usize;
            assert(r@[q] == groups@[g]);
            assert(r@[q].0 == x);
        }
    }
    r
}

/// Every category, each once, in declaration order.
pub open spec fn all_categories_spec() -> Seq<Category> {
    seq![Category::LanguagesAndRuntimes, Category::DatabasesAndStorage, Category::CliDeveloperTools, Category::InfrastructureAndCloud, Category::BuildAndPackageManagers, Category::GuiAppsAndMedia, Category::BuildArtifactsAndCaches, Category::SystemAndLibraries, Category::Uncategorized]
}

fn all_categories() -> (r: Vec<Category>)
    ensures
        r@ == all_categories_spec(),
{
    let mut r: Vec<Category> = Vec::new();
    r.push(Category::LanguagesAndRuntimes);
    r.push(Category::DatabasesAndStorage);
    r.push(Category::CliDeveloperTools);
    r.push(Category::InfrastructureAndCloud);
    r.push(Category::BuildAndPackageManagers);
    r.push(Category::GuiAppsAndMedia);
    r.push(Category::BuildArtifactsAndCaches);
    r.push(Category::SystemAndLibraries);
    r.push(Category::Uncategorized);
    assert(r@ =~= all_categories_spec());
    r
}

proof fn lemma_all_categories()
    ensures
        all_categories_spec().no_duplicates(),
        forall|x: Category| all_categories_spec().contains(x),
{
    let s = all_categories_spec();
    assert forall|x: Category| s.contains(x) by {
        match x {
            Category::LanguagesAndRuntimes => { assert(s[0] == x); },
            Category::DatabasesAndStorage => { assert(s[1] == x); },
            Category::CliDeveloperTools => { assert(s[2] == x); },
            Category::InfrastructureAndCloud => { assert(s[3] == x); },
            Category::BuildAndPackageManagers => { assert(s[4] == x); },
            Category::GuiAppsAndMedia => { assert(s[5] == x); },
            Category::BuildArtifactsAndCaches => { assert(s[6] == x); },
            Category::SystemAndLibraries => { assert(s[7] == x); },
            Category::Uncategorized => { assert(s[8] == x); },
        }
    }
}

/// Item count and total size per category present among the items, largest first
/// (the order of equal sizes is not fixed).
pub fn category_breakdown(items: &Vec<InventoryItem>) -> (r: Vec<(Category, usize, u64)>)
    requires
        total_size(items@) <= u64::MAX,
    ensures
        forall|k: int| 0 <= k < r@.len() ==> (#[trigger] r@[k]).1 == count_sel(items@, Selector::Domain(r@[k].0))
            && r@[k].2 == bytes_sel(items@, Selector::Domain(r@[k].0)) && r@[k].1 > 0,
        forall|i: int| 0 <= i < items@.len() ==> has_group(r@, (#[trigger] items@[i]).category),
        forall|a: int, b: int| 0 <= a < b < r@.len() ==> r@[a].0 != r@[b].0,
        forall|a: int, b: int| 0 <= a < b < r@.len() ==> r@[a].2 >= r@[b].2,
{
    let all = all_categories();
    proof {
        lemma_all_categories();
    }
    let mut groups: Vec<(Category, usize, u64)> = Vec::new();
    let mut keys: Vec<Vec<u64>> = Vec::new();
    let mut cand: Vec<usize> = Vec::new();
    let ghost mut from: Seq<int> = Seq::empty();
    let mut j: usize = 0;
    while j < all.len()
        invariant
            all@ == all_categories_spec(),
            all@.no_duplicates(),
            j <= all@.len(),
            total_size(items@) <= u64::MAX,
            groups@.len() == keys@.len(),
            cand@.len() == groups@.len(),
            from.len() == groups@.len(),
            forall|k: int| 0 <= k < cand@.len() ==> #[trigger] cand@[k] == k,
            forall|k: int| 0 <= k < groups@.len() ==> 0 <= #[trigger] from[k] < j && all@[from[k]] == groups@[k].0,
            forall|a: int, b: int| 0 <= a < b < groups@.len() ==> from[a] < from[b],
            forall|k: int| 0 <= k < groups@.len() ==> (#[trigger] groups@[k]).1 == count_sel(items@, Selector::Domain(groups@[k].0))
                && groups@[k].2 == bytes_sel(items@, Selector::Domain(groups@[k].0)) && groups@[k].1 > 0,
            forall|k: int| 0 <= k < keys@.len() ==> (#[trigger] keys@[k])@ == seq![(0xffff_ffff_ffff_ffffint - groups@[k].2) as u64],
            forall|q: int| 0 <= q < j && count_sel(items@, Selector::Domain(all@[q])) > 0 ==> exists|k: int| 0 <= k < groups@.len() && #[trigger] from[k] == q,
        decreases all@.len() - j,
    {
        let t = tally(items, &Selector::Domain(all[j]));
        if t.0 > 0 {
            let ghost gl = groups@.len() as int;
            let m = groups.len();
            groups.push((all[j], t.0, t.1));
            let mut key: Vec<u64> = Vec::new();
            key.push(u64::MAX - t.1);
            assert(key@ =~= seq![(0xffff_ffff_ffff_ffffint - t.1) as u64]);
            keys.push(key);
            cand.push(m);
            proof {
                let old_from = from;
                from = from.push(j as int);
                assert forall|q: int| 0 <= q < j + 1 && count_sel(items@, Selector::Domain(all@[q])) > 0 implies exists|k: int| 0 <= k < groups@.len() && #[trigger] from[k] == q by {
                    if q == j {
                        assert(from[gl] == q);
                    } else {
                        let k = choose|k: int| 0 <= k < gl && #[trigger] old_from[k] == q;
                        assert(from[k] == q);
                    }
                }
            }
        }
        j = j + 1;
    }
    proof {
        assert forall|a: int, b: int| 0 <= a < b < groups@.len() implies groups@[a].0 != groups@[b].0 by {
            assert(from[a] < from[b]);
            assert(all@[from[a]] != all@[from[b]]);
        }
    }
    let ghost kv = key_views(keys@);
    assert forall|k: int| 0 <= k < cand@.len() implies #[trigger] cand@[k] < keys@.len() by {}
    let order = sort_indices(&cand, &keys);
    assert forall|k: int| 0 <= k < order@.len() implies #[trigger] order@[k] < groups@.len() by {
        assert(order@.to_set().contains(order@[k]));
        assert(cand@.to_set().contains(order@[k]));
        let w = choose|w: int| 0 <= w < cand@.len() && cand@[w] == order@[k];
    }
    let mut r: Vec<(Category, usize, u64)> = Vec::new();
    let mut k: usize = 0;
    while k < order.len()
        invariant
            k <= order@.len(),
            order@.len() == groups@.len(),
            forall|q: int| 0 <= q < order@.len() ==> #[trigger] order@[q] < groups@.len(),
            r@.len() == k,
            forall|q: int| 0 <= q < k ==> #[trigger] r@[q] == groups@[order@[q] as int],
        decreases order@.len() - k,
    {
        r.push(groups[order[k]]);
        k = k + 1;
    }
    proof {
        assert forall|a: int, b: int| 0 <= a < b < r@.len() implies r@[a].0 != r@[b].0 by {
            assert(order@[a] != order@[b]);
        }
        assert forall|a: int, b: int| 0 <= a < b < r@.len() implies r@[a].2 >= r@[b].2 by {
            let x = order@[a] as int;
            let y = order@[b] as int;
            assert(kv[x] == keys@[x]@);
            assert(kv[y] == keys@[y]@);
            assert(sorted_by_keys(kv, order@));
            assert(crate::order::ranks_before(kv, order@[a] as int, order@[b] as int));
            assert(lex_lt(kv[x], kv[y]) || (kv[x] == kv[y] && x < y));
            if lex_lt(kv[x], kv[y]) {
                assert(kv[x][0] < kv[y][0] || (kv[x][0] == kv[y][0] && lex_lt(kv[x].drop_first(), kv[y].drop_first())));
                if kv[x][0] == kv[y][0] {
                    assert(kv[x].drop_first().len() == 0);
                }
            } else {
                assert(kv[x][0] == kv[y][0]);
            }
        }
        assert forall|i: int| 0 <= i < items@.len() implies has_group(r@, (#[trigger] items@[i]).category) by {
            let x = items@[i].category;
            assert(all@.contains(x));
            let p = choose|p: int| 0 <= p < all@.len() && all@[p] == x;
            lemma_sel_bounds(items@, Selector::Domain(x));
            assert(selects(Selector::Domain(x), items@[i]));
            let g = choose|g: int| 0 <= g < groups@.len() && #[trigger] from[g] == p;
            assert(order@.to_set().contains(g as usize)) by {
                assert(cand@[g] == g);
                assert(cand@.to_set().contains(g as usize));
            }
            let q = choose|q: int| 0 <= q < order@.len() && order@[q] == g as usize;
            assert(r@[q] == groups@[g]);
            assert(r@[q].0 == x);
        }
    }
    r
}


// ---------------------------------------------------------------------------
// Status texts and the table's scroll window
// ---------------------------------------------------------------------------

/// The status as the dashboard's table shows it.
pub open spec fn status_short(s: PackageStatus) -> Seq<char> {
    match s {
        PackageStatus::Orphan => "Orphan (0 refs)"@,
        PackageStatus::TopLevel => "Top-Level"@,
        PackageStatus::Dependency { required_by_count } => "Dep ("@ + decimal(required_by_count as nat) + " refs)"@,
        PackageStatus::BuildCache => "Cache"@,
        PackageStatus::ActiveRuntime => "Active Runtime"@,
    }
}

/// The status as the dashboard's inspector shows it.
pub open spec fn status_detail(s: PackageStatus) -> Seq<char> {
    match s {
        PackageStatus::Orphan => "Orphan Dependency (Unreferenced by any active package)"@,
        PackageStatus::TopLevel => "Top-Level Explicit Install"@,
        PackageStatus::Dependency { required_by_count } => "Shared Dependency (Required by "@ + decimal(
            required_by_count as nat,
        ) + " packages)"@,
        PackageStatus::BuildCache => "Build Artifact Cache / Dangling Layer"@,
        PackageStatus::ActiveRuntime => "Active Toolchain Language Runtime"@,
    }
}

/// The status as the `info` command prints it.
pub open spec fn status_info(s: PackageStatus) -> Seq<char> {
    match s {
        PackageStatus::Orphan => "🧹 Orphan Dependency (0 references)"@,
        PackageStatus::TopLevel => "📦 Top-Level Explicit Install"@,
        PackageStatus::Dependency { required_by_count } => "⛓️ Shared Dependency (Required by "@ + decimal(
            required_by_count as nat,
        ) + " packages)"@,
        PackageStatus::BuildCache => "💾 Build Artifact Cache / Dangling Layer"@,
        PackageStatus::ActiveRuntime => "⚡ Active Toolchain Language Runtime"@,
    }
}

fn between(a: &str, n: usize, b: &str) -> (r: String)
    ensures
        r@ == a@ + decimal(n as nat) + b@,
{
    let mut s = owned(a);
    append_str(&mut s, u64_decimal(n as u64).as_str());
    append_str(&mut s, b);
    s
}

/// The status as the dashboard's table shows it.
pub fn status_short_text(s: &PackageStatus) -> (r: String)
    ensures
        r@ == status_short(*s),
{
    match s {
        PackageStatus::Orphan => owned("Orphan (0 refs)"),
        PackageStatus::TopLevel => owned("Top-Level"),
        PackageStatus::Dependency { required_by_count } => between("Dep (", *required_by_count, " refs)"),
        PackageStatus::BuildCache => owned("Cache"),
        PackageStatus::ActiveRuntime => owned("Active Runtime"),
    }
}

/// The status as the dashboard's inspector shows it.
pub fn status_detail_text(s: &PackageStatus) -> (r: String)
    ensures
        r@ == status_detail(*s),
{
    match s {
        PackageStatus::Orphan => owned("Orphan Dependency (Unreferenced by any active package)"),
        PackageStatus::TopLevel => owned("Top-Level Explicit Install"),
        PackageStatus::Dependency { required_by_count } => between(
            "Shared Dependency (Required by ",
            *required_by_count,
            " packages)",
        ),
        PackageStatus::BuildCache => owned("Build Artifact Cache / Dangling Layer"),
        PackageStatus::ActiveRuntime => owned("Active Toolchain Language Runtime"),
    }
}

/// The status as the `info` command prints it.
pub fn status_info_text(s: &PackageStatus) -> (r: String)
    ensures
        r@ == status_info(*s),
{
    match s {
        PackageStatus::Orphan => owned("🧹 Orphan Dependency (0 references)"),
        PackageStatus::TopLevel => owned("📦 Top-Level Explicit Install"),
        PackageStatus::Dependency { required_by_count } => between(
            "⛓️ Shared Dependency (Required by ",
            *required_by_count,
            " packages)",
        ),
        PackageStatus::BuildCache => owned("💾 Build Artifact Cache / Dangling Layer"),
        PackageStatus::ActiveRuntime => owned("⚡ Active Toolchain Language Runtime"),
    }
}

/// The rows `start..end` that a table of `rows` visible rows shows so that the
/// selected row is in view: scrolled just enough to show it at the bottom.
pub fn visible_window(selected: usize, rows: usize, len: usize) -> (r: (usize, usize))
    requires
        rows > 0 || selected < usize::MAX,
    ensures
        r.0 == (if selected >= rows { selected - rows + 1 } else { 0 }),
        r.1 == (if r.0 + rows < len { r.0 + rows } else { len as int }),
{
    let start = if selected >= rows {
        selected - rows + 1
    } else {
        0
    };
    let end = if rows < len && start < len - rows {
        start + rows
    } else {
        len
    };
    (start, end)
}

/// The `prune` command only ever takes items that can be uninstalled: every
/// index it returns names an item with an uninstall command, so an item without
/// one (such as a default Ruby gem) is never taken, whatever the options.
pub proof fn pruned_items_have_uninstall_commands(
    items: Seq<InventoryItem>,
    o: PruneOptions,
    now: Timestamp,
    r: Seq<usize>,
)
    requires
        exactly_where(items, |it: InventoryItem| prune_target(it, o, now), r),
    ensures
        forall|a: int| 0 <= a < r.len() ==> (#[trigger] items[r[a] as int]).uninstall_cmd is Some,
        forall|i: usize| i < items.len() && items[i as int].uninstall_cmd is None ==> !#[trigger] r.contains(i),
{
    assert forall|a: int| 0 <= a < r.len() implies (#[trigger] items[r[a] as int]).uninstall_cmd is Some by {
        assert(r[a] < items.len());
    }
    assert forall|i: usize| i < items.len() && items[i as int].uninstall_cmd is None implies !#[trigger] r.contains(i) by {
        if r.contains(i) {
            let a = choose|a: int| 0 <= a < r.len() && r[a] == i;
            assert(r[a] < items.len());
        }
    }
}

} // verus!
