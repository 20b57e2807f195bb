use vstd::prelude::*;
use crate::models::item::{InventoryItem, PackageSource, clone_strings, same_item, status_of};
use crate::text::{chars_of, seq_eq};

verus! {

/// `v` holds a string whose characters are `x`.
pub open spec fn lists(v: Seq<String>, x: Seq<char>) -> bool {
    exists|k: int| 0 <= k < v.len() && v[k]@ == x
}

/// No two strings of `v` are equal.
pub open spec fn distinct_strings(v: Seq<String>) -> bool {
    forall|a: int, b: int| 0 <= a < b < v.len() ==> v[a]@ != v[b]@
}

/// Item `p` names `d` among its declared dependencies: `p` depends on `d`.
pub open spec fn is_dependent(items: Seq<InventoryItem>, d: Seq<char>, p: Seq<char>) -> bool {
    exists|a: int| 0 <= a < items.len() && items[a].id@ == p && lists(items[a].required_by@, d)
}

/// Some item names `d` among its declared dependencies.
pub open spec fn has_dependents(items: Seq<InventoryItem>, d: Seq<char>) -> bool {
    exists|a: int| 0 <= a < items.len() && lists(items[a].required_by@, d)
}

/// The ids of the items installed as dependencies that no item depends on.
pub open spec fn orphan_ids(items: Seq<InventoryItem>) -> Set<Seq<char>> {
    Set::new(
        |x: Seq<char>|
            exists|i: int|
                0 <= i < items.len() && items[i].id@ == x && !items[i].is_top_level
                    && !has_dependents(items, x),
    )
}

/// Among the first `i` items, one with id `x` is an orphan dependency.
pub open spec fn orphan_before(items: Seq<InventoryItem>, i: int, x: Seq<char>) -> bool {
    exists|k: int|
        0 <= k < i && items[k].id@ == x && !items[k].is_top_level && !has_dependents(items, x)
}

proof fn lemma_orphan_before_step(items: Seq<InventoryItem>, i: int, x: Seq<char>)
    requires
        0 <= i < items.len(),
    ensures
        orphan_before(items, i + 1, x) <==> (orphan_before(items, i, x) || (items[i].id@ == x
            && !items[i].is_top_level && !has_dependents(items, x))),
{
    if orphan_before(items, i + 1, x) {
        let k = choose|k: int|
            0 <= k < i + 1 && items[k].id@ == x && !items[k].is_top_level && !has_dependents(items, x);
        if k < i {
            assert(orphan_before(items, i, x));
        }
    }
    if orphan_before(items, i, x) {
        let k = choose|k: int|
            0 <= k < i && items[k].id@ == x && !items[k].is_top_level && !has_dependents(items, x);
        assert(orphan_before(items, i + 1, x));
    }
    if items[i].id@ == x && !items[i].is_top_level && !has_dependents(items, x) {
        assert(orphan_before(items, i + 1, x));
    }
}

/// Two items agree on every field but the dependency list.
pub open spec fn same_but_links(a: InventoryItem, b: InventoryItem) -> bool {
    &&& a.id == b.id
    &&& a.name == b.name
    &&& a.source == b.source
    &&& a.version == b.version
    &&& a.install_path == b.install_path
    &&& a.size_bytes == b.size_bytes
    &&& a.last_accessed_at == b.last_accessed_at
    &&& a.last_modified_at == b.last_modified_at
    &&& a.is_top_level == b.is_top_level
    &&& a.category == b.category
    &&& a.uninstall_cmd == b.uninstall_cmd
    &&& a.reinstall_cmd == b.reinstall_cmd
}

/// `n` is item `o` after resolution against the declared dependencies of `items`:
/// its list becomes the distinct ids of the items that depend on it; an item that
/// nothing depends on loses its list if it was installed as a dependency, and
/// keeps it otherwise.
pub open spec fn resolved_item(items: Seq<InventoryItem>, o: InventoryItem, n: InventoryItem) -> bool {
    &&& same_but_links(o, n)
    &&& if has_dependents(items, o.id@) {
        &&& distinct_strings(n.required_by@)
        &&& forall|p: Seq<char>| lists(n.required_by@, p) <==> is_dependent(items, o.id@, p)
    } else if !o.is_top_level {
        n.required_by@.len() == 0
    } else {
        n.required_by@ == o.required_by@
    }
}

/// The reverse index holds the edge from dependency `d` to dependent `p`.
pub open spec fn index_has(r: Seq<(String, Vec<String>)>, d: Seq<char>, p: Seq<char>) -> bool {
    exists|e: int| 0 <= e < r.len() && r[e].0@ == d && lists(r[e].1@, p)
}

/// The index is well formed: keys distinct, parent lists non-empty and distinct.
pub open spec fn index_wf(r: Seq<(String, Vec<String>)>) -> bool {
    &&& forall|a: int, b: int| 0 <= a < b < r.len() ==> r[a].0@ != r[b].0@
    &&& forall|e: int| 0 <= e < r.len() ==> #[trigger] r[e].1@.len() > 0 && distinct_strings(r[e].1@)
}

/// Edge (d, p) is declared by an item before position `j`, or by item `j` among its first `k` dependencies.
pub open spec fn edge_before(items: Seq<InventoryItem>, j: int, k: int, d: Seq<char>, p: Seq<char>) -> bool {
    exists|a: int, b: int|
        0 <= a < items.len() && 0 <= b < items[a].required_by@.len() && (a < j || (a == j && b < k))
            && #[trigger] items[a].required_by@[b]@ == d && items[a].id@ == p
}

/// Dependency Graph & Orphan Resolver
pub struct DependencyGraph {
    /// Inverted index: dependency id -> ids of the items that require it
    reverse_deps: Vec<(String, Vec<String>)>,
    /// Known orphan dependency ids, each once
    orphans: Vec<String>,
}

/// Whether a list of strings holds one with the characters `x`.
pub fn lists_exec(v: &Vec<String>, x: &[char]) -> (r: bool)
    ensures
        r == lists(v@, x@),
{
    let mut i: usize = 0;
    while i < v.len()
        invariant
            i <= v@.len(),
            forall|j: int| 0 <= j < i ==> v@[j]@ != x@,
        decreases v@.len() - i,
    {
        let c = chars_of(v[i].as_str());
        if seq_eq(&c, x) {
            return true;
        }
        i = i + 1;
    }
    false
}

fn find_entry(r: &Vec<(String, Vec<String>)>, key: &[char]) -> (res: Option<usize>)
    ensures
        res matches Some(e) ==> e < r@.len() && r@[e as int].0@ == key@,
        res is None ==> forall|e: int| 0 <= e < r@.len() ==> r@[e].0@ != key@,
{
    let mut i: usize = 0;
    while i < r.len()
        invariant
            i <= r@.len(),
            forall|j: int| 0 <= j < i ==> r@[j].0@ != key@,
        decreases r@.len() - i,
    {
        let c = chars_of(r[i].0.as_str());
        if seq_eq(&c, key) {
            return Some(i);
        }
        i = i + 1;
    }
    None
}

/// Records that `p` depends on `d`.
fn add_edge(r: &mut Vec<(String, Vec<String>)>, d: &String, p: &String)
    requires
        index_wf(old(r)@),
    ensures
        index_wf(final(r)@),
        forall|x: Seq<char>, y: Seq<char>|
            #![trigger index_has(final(r)@, x, y)]
            #![trigger index_has(old(r)@, x, y)]
            index_has(final(r)@, x, y) <==> (index_has(old(r)@, x, y) || (x == d@ && y == p@)),
{
    let dc = chars_of(d.as_str());
    let pc = chars_of(p.as_str());
    match find_entry(r, &dc) {
        Some(e) => {
            if lists_exec(&r[e].1, &pc) {
                assert(index_has(r@, d@, p@));
                assert forall|x: Seq<char>, y: Seq<char>|
                    index_has(r@, x, y) <==> (index_has(old(r)@, x, y) || (x == d@ && y == p@)) by {
                    if x == d@ && y == p@ {
                        assert(r@[e as int].0@ == x && lists(r@[e as int].1@, y));
                    }
                }
            } else {
                let ghost before = r@;
                let mut list = clone_strings(&r[e].1);
                list.push(p.clone());
                let key = r[e].0.clone();
                r.set(e, (key, list));
                proof {
                    let ne = r@[e as int];
                    assert(ne.1@ == before[e as int].1@.push(*p));
                    assert forall|a: int, b: int| 0 <= a < b < ne.1@.len() implies ne.1@[a]@ != ne.1@[b]@ by {
                        if b == ne.1@.len() - 1 {
                            assert(ne.1@[a] == before[e as int].1@[a]);
                        } else {
                            assert(ne.1@[a] == before[e as int].1@[a]);
                            assert(ne.1@[b] == before[e as int].1@[b]);
                        }
                    }
                    assert forall|x: Seq<char>, y: Seq<char>|
                        index_has(r@, x, y) <==> (index_has(old(r)@, x, y) || (x == d@ && y == p@)) by {
                        assert(before == old(r)@);
                        if index_has(r@, x, y) {
                            let f = choose|f: int| 0 <= f < r@.len() && r@[f].0@ == x && lists(r@[f].1@, y);
                            if f != e {
                                assert(before[f] == r@[f]);
                            } else {
                                let k = choose|k: int| 0 <= k < r@[f].1@.len() && r@[f].1@[k]@ == y;
                                if k < before[e as int].1@.len() {
                                    assert(before[e as int].1@[k] == r@[f].1@[k]);
                                }
                            }
                        }
                        if index_has(before, x, y) {
                            let f = choose|f: int| 0 <= f < before.len() && before[f].0@ == x && lists(before[f].1@, y);
                            if f != e {
                                assert(before[f] == r@[f]);
                            } else {
                                let k = choose|k: int| 0 <= k < before[f].1@.len() && before[f].1@[k]@ == y;
                                assert(r@[f].1@[k] == before[f].1@[k]);
                            }
                        }
                        if x == d@ && y == p@ {
                            assert(r@[e as int].1@[r@[e as int].1@.len() - 1] == *p);
                        }
                    }
                    assert forall|e2: int| 0 <= e2 < r@.len() implies #[trigger] r@[e2].1@.len() > 0
                        && distinct_strings(r@[e2].1@) by {
                        if e2 != e {
                            assert(before[e2] == r@[e2]);
                        }
                    }
                    assert forall|a: int, b: int| 0 <= a < b < r@.len() implies r@[a].0@ != r@[b].0@ by {
                        assert(r@[a].0@ == before[a].0@ && r@[b].0@ == before[b].0@);
                    }
                }
            }
        },
        None => {
            let ghost before = r@;
            let list = vec![p.clone()];
            r.push((d.clone(), list));
            proof {
                let n = r@.len() - 1;
                assert forall|x: Seq<char>, y: Seq<char>|
                    index_has(r@, x, y) <==> (index_has(old(r)@, x, y) || (x == d@ && y == p@)) by {
                        assert(before == old(r)@);
                    if index_has(r@, x, y) {
                        let f = choose|f: int| 0 <= f < r@.len() && r@[f].0@ == x && lists(r@[f].1@, y);
                        if f < n {
                            assert(before[f] == r@[f]);
                        } else {
                            let k = choose|k: int| 0 <= k < r@[f].1@.len() && r@[f].1@[k]@ == y;
                        }
                    }
                    if index_has(before, x, y) {
                        let f = choose|f: int| 0 <= f < before.len() && before[f].0@ == x && lists(before[f].1@, y);
                        assert(before[f] == r@[f]);
                    }
                    if x == d@ && y == p@ {
                        assert(r@[n].1@[0] == *p);
                    }
                }
                assert forall|e2: int| 0 <= e2 < r@.len() implies #[trigger] r@[e2].1@.len() > 0
                    && distinct_strings(r@[e2].1@) by {
                    if e2 < n {
                        assert(before[e2] == r@[e2]);
                    }
                }
                assert forall|a: int, b: int| 0 <= a < b < r@.len() implies r@[a].0@ != r@[b].0@ by {
                    if b < n {
                        assert(r@[a] == before[a] && r@[b] == before[b]);
                    } else {
                        assert(r@[a] == before[a]);
                    }
                }
            }
        },
    }
}


proof fn lemma_edge_step(items: Seq<InventoryItem>, j: int, k: int, x: Seq<char>, y: Seq<char>)
    requires
        0 <= j < items.len(),
        0 <= k < items[j].required_by@.len(),
    ensures
        edge_before(items, j, k + 1, x, y) <==> (edge_before(items, j, k, x, y) || (
        items[j].required_by@[k]@ == x && items[j].id@ == y)),
{
    if edge_before(items, j, k + 1, x, y) {
        let (a, b) = choose|a: int, b: int|
            0 <= a < items.len() && 0 <= b < items[a].required_by@.len() && (a < j || (a == j && b
                < k + 1)) && #[trigger] items[a].required_by@[b]@ == x && items[a].id@ == y;
        if !(a == j && b == k) {
            assert(edge_before(items, j, k, x, y));
        }
    }
    if items[j].required_by@[k]@ == x && items[j].id@ == y {
        assert(edge_before(items, j, k + 1, x, y));
    }
}

proof fn lemma_edge_next(items: Seq<InventoryItem>, j: int, x: Seq<char>, y: Seq<char>)
    requires
        0 <= j < items.len(),
    ensures
        edge_before(items, j, items[j].required_by@.len() as int, x, y) <==> edge_before(
            items,
            j + 1,
            0,
            x,
            y,
        ),
{
    if edge_before(items, j + 1, 0, x, y) {
        let (a, b) = choose|a: int, b: int|
            0 <= a < items.len() && 0 <= b < items[a].required_by@.len() && (a < j + 1 || (a == j + 1
                && b < 0)) && #[trigger] items[a].required_by@[b]@ == x && items[a].id@ == y;
        assert(edge_before(items, j, items[j].required_by@.len() as int, x, y));
    }
}

proof fn lemma_edge_all(items: Seq<InventoryItem>, x: Seq<char>, y: Seq<char>)
    ensures
        edge_before(items, items.len() as int, 0, x, y) <==> is_dependent(items, x, y),
{
    if edge_before(items, items.len() as int, 0, x, y) {
        let (a, b) = choose|a: int, b: int|
            0 <= a < items.len() && 0 <= b < items[a].required_by@.len() && (a < items.len() || (a
                == items.len() && b < 0)) && #[trigger] items[a].required_by@[b]@ == x && items[a].id@
                == y;
        assert(lists(items[a].required_by@, x));
    }
    if is_dependent(items, x, y) {
        let a = choose|a: int| 0 <= a < items.len() && items[a].id@ == y && lists(items[a].required_by@, x);
        let b = choose|b: int| 0 <= b < items[a].required_by@.len() && items[a].required_by@[b]@ == x;
        assert(edge_before(items, items.len() as int, 0, x, y));
    }
}

/// Builds the inverted index of declared dependencies.
fn build_reverse_index(items: &Vec<InventoryItem>) -> (r: Vec<(String, Vec<String>)>)
    ensures
        index_wf(r@),
        forall|x: Seq<char>, y: Seq<char>| index_has(r@, x, y) <==> is_dependent(items@, x, y),
{
    let mut rev: Vec<(String, Vec<String>)> = Vec::new();
    let n = items.len();
    let mut j: usize = 0;
    while j < n
        invariant
            n == items@.len(),
            j <= n,
            index_wf(rev@),
            forall|x: Seq<char>, y: Seq<char>|
                index_has(rev@, x, y) <==> edge_before(items@, j as int, 0, x, y),
        decreases n - j,
    {
        let mut k: usize = 0;
        while k < items[j].required_by.len()
            invariant
                n == items@.len(),
                j < n,
                k <= items@[j as int].required_by@.len(),
                index_wf(rev@),
                forall|x: Seq<char>, y: Seq<char>|
                    index_has(rev@, x, y) <==> edge_before(items@, j as int, k as int, x, y),
            decreases items@[j as int].required_by@.len() - k,
        {
            add_edge(&mut rev, &items[j].required_by[k], &items[j].id);
            proof {
                assert forall|x: Seq<char>, y: Seq<char>|
                    index_has(rev@, x, y) <==> edge_before(items@, j as int, k + 1, x, y) by {
                    lemma_edge_step(items@, j as int, k as int, x, y);
                }
            }
            k = k + 1;
        }
        proof {
            assert forall|x: Seq<char>, y: Seq<char>|
                index_has(rev@, x, y) <==> edge_before(items@, j + 1, 0, x, y) by {
                lemma_edge_next(items@, j as int, x, y);
            }
        }
        j = j + 1;
    }
    proof {
        assert forall|x: Seq<char>, y: Seq<char>|
            index_has(rev@, x, y) <==> is_dependent(items@, x, y) by {
            lemma_edge_all(items@, x, y);
        }
    }
    rev
}

impl DependencyGraph {
    #[verifier::type_invariant]
    spec fn well_formed(self) -> bool {
        &&& distinct_strings(self.orphans@)
        &&& index_wf(self.reverse_deps@)
    }

    /// The ids of the orphan dependencies.
    pub closed spec fn orphan_set(&self) -> Set<Seq<char>> {
        self.orphans@.map_values(|s: String| s@).to_set()
    }

    /// Builds dependency index across all items and resolves required_by links
    pub fn resolve(items: &mut Vec<InventoryItem>) -> (g: Self)
        ensures
            final(items)@.len() == old(items)@.len(),
            forall|i: int|
                0 <= i < old(items)@.len() ==> #[trigger] resolved_item(
                    old(items)@,
                    old(items)@[i],
                    final(items)@[i],
                ),
            g.orphan_set() == orphan_ids(old(items)@),
    {
        let rev = build_reverse_index(items);
        let ghost orig = items@;
        let n = items.len();
        let mut orphans: Vec<String> = Vec::new();
        let mut i: usize = 0;
        while i < n
            invariant
                n == items@.len(),
                n == orig.len(),
                i <= n,
                index_wf(rev@),
                forall|x: Seq<char>, y: Seq<char>| index_has(rev@, x, y) <==> is_dependent(orig, x, y),
                forall|k: int| 0 <= k < i ==> #[trigger] resolved_item(orig, orig[k], items@[k]),
                forall|k: int| i <= k < n ==> items@[k] == orig[k],
                distinct_strings(orphans@),
                forall|x: Seq<char>| lists(orphans@, x) <==> orphan_before(orig, i as int, x),
            decreases n - i,
        {
            let idc = chars_of(items[i].id.as_str());
            let ghost id = orig[i as int].id@;
            let ghost prev = orphans@;
            match find_entry(&rev, &idc) {
                Some(e) => {
                    let parents = clone_strings(&rev[e].1);
                    proof {
                        let p0 = rev@[e as int].1@[0]@;
                        assert(rev@[e as int].1@.len() > 0);
                        assert(lists(rev@[e as int].1@, p0));
                        assert(index_has(rev@, id, p0));
                        assert(is_dependent(orig, id, p0));
                        let a = choose|a: int| 0 <= a < orig.len() && orig[a].id@ == p0 && lists(orig[a].required_by@, id);
                        assert(has_dependents(orig, id));
                        assert forall|p: Seq<char>| lists(parents@, p) <==> is_dependent(orig, id, p) by {
                            if is_dependent(orig, id, p) {
                                assert(index_has(rev@, id, p));
                                let f = choose|f: int| 0 <= f < rev@.len() && rev@[f].0@ == id && lists(rev@[f].1@, p);
                                assert(f == e);
                            }
                            if lists(parents@, p) {
                                assert(index_has(rev@, id, p));
                            }
                        }
                    }
                    let mut it = items[i].clone();
                    it.required_by = parents;
                    items.set(i, it);
                },
                None => {
                    proof {
                        if has_dependents(orig, id) {
                            let a = choose|a: int| 0 <= a < orig.len() && lists(orig[a].required_by@, id);
                            assert(is_dependent(orig, id, orig[a].id@));
                            assert(index_has(rev@, id, orig[a].id@));
                        }
                    }
                    if !items[i].is_top_level {
                        let ghost before = orphans@;
                        if !lists_exec(&orphans, &idc) {
                            orphans.push(items[i].id.clone());
                            proof {
                                assert forall|a: int, b: int| 0 <= a < b < orphans@.len() implies orphans@[a]@ != orphans@[b]@ by {
                                    if b == orphans@.len() - 1 {
                                        assert(orphans@[a] == before[a]);
                                    } else {
                                        assert(orphans@[a] == before[a] && orphans@[b] == before[b]);
                                    }
                                }
                                assert forall|x: Seq<char>| lists(orphans@, x) <==> lists(before, x) || x == id by {
                                    if lists(orphans@, x) {
                                        let k = choose|k: int| 0 <= k < orphans@.len() && orphans@[k]@ == x;
                                        if k < before.len() {
                                            assert(before[k] == orphans@[k]);
                                        }
                                    }
                                    if lists(before, x) {
                                        let k = choose|k: int| 0 <= k < before.len() && before[k]@ == x;
                                        assert(orphans@[k] == before[k]);
                                    }
                                    if x == id {
                                        assert(orphans@[orphans@.len() - 1]@ == id);
                                    }
                                }
                            }
                        }
                        let mut it = items[i].clone();
                        it.required_by = Vec::new();
                        items.set(i, it);
                    }
                },
            }
            proof {
                assert forall|x: Seq<char>|
                    lists(orphans@, x) <==> (lists(prev, x) || (x == id && !orig[i as int].is_top_level
                        && !has_dependents(orig, id))) by {
                    if lists(prev, x) && orphans@ != prev {
                        let k = choose|k: int| 0 <= k < prev.len() && prev[k]@ == x;
                        assert(orphans@[k] == prev[k]);
                    }
                }
                assert forall|x: Seq<char>|
                    lists(orphans@, x) <==> orphan_before(orig, i + 1, x) by {
                    lemma_orphan_before_step(orig, i as int, x);
                    assert(lists(prev, x) <==> orphan_before(orig, i as int, x));
                }
            }
            i = i + 1;
        }
        let g = DependencyGraph { reverse_deps: rev, orphans };
        proof {
            assert(g.orphan_set() =~= orphan_ids(orig)) by {
                assert forall|x: Seq<char>| g.orphan_set().contains(x) <==> orphan_ids(orig).contains(x) by {
                    assert(lists(g.orphans@, x) <==> orphan_before(orig, n as int, x));
                    let m = g.orphans@.map_values(|s: String| s@);
                    if m.contains(x) {
                        let k = choose|k: int| 0 <= k < m.len() && m[k] == x;
                        assert(g.orphans@[k]@ == x);
                    }
                    if lists(g.orphans@, x) {
                        let k = choose|k: int| 0 <= k < g.orphans@.len() && g.orphans@[k]@ == x;
                        assert(m[k] == x);
                    }
                }
            }
        }
        g
    }

    /// Checks if a package is an orphan dependency
    pub fn is_orphan(&self, item_id: &str) -> (r: bool)
        ensures
            r == self.orphan_set().contains(item_id@),
    {
        let c = chars_of(item_id);
        let r = lists_exec(&self.orphans, &c);
        proof {
            let m = self.orphans@.map_values(|s: String| s@);
            if m.contains(item_id@) {
                let k = choose|k: int| 0 <= k < m.len() && m[k] == item_id@;
                assert(self.orphans@[k]@ == item_id@);
            }
            if r {
                let k = choose|k: int| 0 <= k < self.orphans@.len() && self.orphans@[k]@ == item_id@;
                assert(m[k] == item_id@);
            }
        }
        r
    }

    /// The number of detected orphan package IDs
    pub fn orphan_count(&self) -> (r: usize)
        ensures
            r == self.orphan_set().len(),
    {
        proof {
            use_type_invariant(self);
            let m = self.orphans@.map_values(|s: String| s@);
            assert(m.no_duplicates()) by {
                assert forall|a: int, b: int| 0 <= a < m.len() && 0 <= b < m.len() && a != b implies m[a] != m[b] by {
                    if a < b {
                    } else {
                    }
                }
            }
            m.unique_seq_to_set();
        }
        self.orphans.len()
    }
}


/// After resolution, an item that was installed as a dependency (and is not a
/// cache) is an orphan for the graph exactly when its own status says `Orphan`:
/// the graph and the resolved items agree.
pub proof fn orphan_status_agrees(
    before: Seq<InventoryItem>,
    after: Seq<InventoryItem>,
    orphans: Set<Seq<char>>,
    i: int,
)
    requires
        after.len() == before.len(),
        forall|k: int| 0 <= k < before.len() ==> #[trigger] resolved_item(before, before[k], after[k]),
        orphans == orphan_ids(before),
        0 <= i < before.len(),
        !before[i].is_top_level,
        before[i].source != PackageSource::BuildCache,
        before[i].source != PackageSource::DockerImage,
    ensures
        orphans.contains(after[i].id@) <==> status_of(after[i]) is Orphan,
{
    assert(resolved_item(before, before[i], after[i]));
    let id = before[i].id@;
    if has_dependents(before, id) {
        let a = choose|a: int| 0 <= a < before.len() && lists(before[a].required_by@, id);
        assert(is_dependent(before, id, before[a].id@));
        assert(lists(after[i].required_by@, before[a].id@));
        assert(after[i].required_by@.len() > 0);
    } else {
        assert(orphans.contains(id));
    }
}

} // verus!
