use vstd::prelude::*;
use crate::models::tombstone::{PackageTombstone, same_tombstone};
use crate::order::{sort_indices, sorted_by_keys, key_views, lex_lt, ranks_before};
use crate::paths::{join_path, path_join};
use crate::text::{
    append_str, chars_of, contains_str, has_substring, owned, push_char, str_eq, to_lower,
    unicode_lower,
};

verus! {

/// Where the history lives: `$HOME/.local/share/etop`, or the legacy
/// `$HOME/.local/share/mac-cleanup` when only that one exists; `/tmp/etop` without a home.
pub open spec fn history_base(home: Option<Seq<char>>, modern_exists: bool, legacy_exists: bool) -> Seq<char> {
    match home {
        Some(h) => if !modern_exists && legacy_exists {
            join_path(h, ".local/share/mac-cleanup"@)
        } else {
            join_path(h, ".local/share/etop"@)
        },
        None => "/tmp/etop"@,
    }
}

/// Whether tombstone `t` answers the lower-cased query `q`: by id or name, exactly or as a part.
pub open spec fn tombstone_matches(t: PackageTombstone, q: Seq<char>) -> bool {
    let id = unicode_lower(t.id@);
    let name = unicode_lower(t.name@);
    id == q || name == q || has_substring(id, q) || has_substring(name, q)
}

/// The sort key that puts the latest removal first.
pub open spec fn removal_key(t: PackageTombstone) -> Seq<u64> {
    seq![
        (0xffff_ffff_ffff_ffffint - (t.removed_at.secs + 0x8000_0000_0000_0000int)) as u64,
        (0xffff_ffff_ffff_ffffint - t.removed_at.nanos) as u64,
    ]
}

pub open spec fn removal_keys(ts: Seq<PackageTombstone>) -> Seq<Seq<u64>> {
    ts.map_values(|t: PackageTombstone| removal_key(t))
}

pub struct HistoryStore {
    base_dir: String,
}

impl HistoryStore {
    /// The directory that holds the history.
    pub closed spec fn base(&self) -> Seq<char> {
        self.base_dir@
    }

    /// Chooses the store's directory from the home directory (if known) and which
    /// of the current and legacy directories exist.
    pub fn from_home(home: Option<String>, modern_exists: bool, legacy_exists: bool) -> (r: Self)
        ensures
            r.base() == history_base(
                match home {
                    Some(h) => Some(h@),
                    None => None,
                },
                modern_exists,
                legacy_exists,
            ),
    {
        let base_dir = match &home {
            Some(h) => if !modern_exists && legacy_exists {
                path_join(h.as_str(), ".local/share/mac-cleanup")
            } else {
                path_join(h.as_str(), ".local/share/etop")
            },
            None => owned("/tmp/etop"),
        };
        HistoryStore { base_dir }
    }

    pub fn tombstones_dir(&self) -> (r: String)
        ensures
            r@ == join_path(self.base(), "tombstones"@),
    {
        path_join(self.base_dir.as_str(), "tombstones")
    }

    pub fn history_log_path(&self) -> (r: String)
        ensures
            r@ == join_path(self.base(), "history.jsonl"@),
    {
        path_join(self.base_dir.as_str(), "history.jsonl")
    }

    /// The file that archives the manifest with this id.
    pub fn manifest_file_path(&self, manifest_id: &str) -> (r: String)
        ensures
            r@ == join_path(join_path(self.base(), "tombstones"@), manifest_id@ + ".json"@),
    {
        let dir = self.tombstones_dir();
        let mut name = owned(manifest_id);
        append_str(&mut name, ".json");
        path_join(dir.as_str(), name.as_str())
    }
}

/// The first tombstone that answers the query (any case), by id or name.
pub fn find_tombstone_index(all: &Vec<PackageTombstone>, query: &str) -> (r: Option<usize>)
    ensures
        r matches Some(k) ==> k < all@.len() && tombstone_matches(all@[k as int], unicode_lower(query@))
            && forall|j: int| 0 <= j < k ==> !tombstone_matches(all@[j], unicode_lower(query@)),
        r is None ==> forall|j: int| 0 <= j < all@.len() ==> !tombstone_matches(all@[j], unicode_lower(query@)),
{
    let q = to_lower(query);
    let mut i: usize = 0;
    while i < all.len()
        invariant
            i <= all@.len(),
            q@ == unicode_lower(query@),
            forall|j: int| 0 <= j < i ==> !tombstone_matches(all@[j], q@),
        decreases all@.len() - i,
    {
        let id = to_lower(all[i].id.as_str());
        let name = to_lower(all[i].name.as_str());
        if str_eq(id.as_str(), q.as_str()) || str_eq(name.as_str(), q.as_str()) || contains_str(
            id.as_str(),
            q.as_str(),
        ) || contains_str(name.as_str(), q.as_str()) {
            return Some(i);
        }
        i = i + 1;
    }
    None
}

/// The sort key that puts the latest removal first.
fn removal_key_exec(t: &PackageTombstone) -> (r: Vec<u64>)
    ensures
        r@ == removal_key(*t),
{
    let biased: u64 = (t.removed_at.secs as i128 + 0x8000_0000_0000_0000i128) as u64;
    let mut v: Vec<u64> = Vec::new();
    v.push(0xffff_ffff_ffff_ffffu64 - biased);
    v.push(0xffff_ffff_ffff_ffffu64 - t.removed_at.nanos as u64);
    assert(v@ =~= removal_key(*t));
    v
}

/// Orders tombstones latest removal first; tombstones removed at the same moment keep their order.
pub fn sort_latest_first(ts: &Vec<PackageTombstone>) -> (r: Vec<PackageTombstone>)
    ensures
        r@.len() == ts@.len(),
        exists|ord: Seq<usize>|
            #![trigger sorted_by_keys(removal_keys(ts@), ord)]
            {
                &&& ord.len() == ts@.len()
                &&& ord.no_duplicates()
                &&& forall|k: int| 0 <= k < ord.len() ==> ord[k] < ts@.len()
                &&& sorted_by_keys(removal_keys(ts@), ord)
                &&& forall|k: int| 0 <= k < ord.len() ==> same_tombstone(#[trigger] r@[k], ts@[ord[k] as int])
            },
{
    let n = ts.len();
    let mut keys: Vec<Vec<u64>> = Vec::new();
    let mut cand: Vec<usize> = Vec::new();
    let mut i: usize = 0;
    while i < n
        invariant
            n == ts@.len(),
            i <= n,
            keys@.len() == i,
            cand@.len() == i,
            forall|k: int| 0 <= k < i ==> cand@[k] == k,
            forall|k: int| 0 <= k < i ==> (#[trigger] keys@[k])@ == removal_key(ts@[k]),
        decreases n - i,
    {
        keys.push(removal_key_exec(&ts[i]));
        cand.push(i);
        i = i + 1;
    }
    proof {
        assert(key_views(keys@) =~= removal_keys(ts@));
    }
    let ord = sort_indices(&cand, &keys);
    let mut r: Vec<PackageTombstone> = Vec::new();
    let mut k: usize = 0;
    while k < ord.len()
        invariant
            n == ts@.len(),
            ord@.len() == n,
            ord@.to_set() == cand@.to_set(),
            forall|j: int| 0 <= j < n ==> cand@[j] == j,
            cand@.len() == n,
            k <= ord@.len(),
            r@.len() == k,
            forall|j: int| 0 <= j < k ==> same_tombstone(#[trigger] r@[j], ts@[ord@[j] as int]),
        decreases ord@.len() - k,
    {
        proof {
            assert(ord@.to_set().contains(ord@[k as int]));
            assert(cand@.to_set().contains(ord@[k as int]));
        }
        r.push(ts[ord[k]].clone());
        k = k + 1;
    }
    proof {
        assert forall|j: int| 0 <= j < ord@.len() implies ord@[j] < ts@.len() by {
            assert(ord@.to_set().contains(ord@[j]));
            assert(cand@.to_set().contains(ord@[j]));
        }
    }
    r
}

/// `a` is no earlier than `b`.
pub open spec fn removed_no_earlier(a: PackageTombstone, b: PackageTombstone) -> bool {
    a.removed_at.secs > b.removed_at.secs || (a.removed_at.secs == b.removed_at.secs && a.removed_at.nanos
        >= b.removed_at.nanos)
}

/// The history lists the latest removal first: in an order sorted by the removal
/// keys (as `sort_latest_first` returns it), each tombstone was removed no
/// earlier than every one after it.
pub proof fn latest_removal_comes_first(ts: Seq<PackageTombstone>, ord: Seq<usize>, a: int, b: int)
    requires
        forall|k: int| 0 <= k < ord.len() ==> ord[k] < ts.len(),
        sorted_by_keys(removal_keys(ts), ord),
        0 <= a < b < ord.len(),
    ensures
        removed_no_earlier(ts[ord[a] as int], ts[ord[b] as int]),
{
    let x = ord[a] as int;
    let y = ord[b] as int;
    assert(ranks_before(removal_keys(ts), x, y));
    let kx = removal_key(ts[x]);
    let ky = removal_key(ts[y]);
    assert(removal_keys(ts)[x] == kx);
    assert(removal_keys(ts)[y] == ky);
    assert(kx.drop_first() =~= seq![kx[1]]);
    assert(ky.drop_first() =~= seq![ky[1]]);
    assert(kx.drop_first().drop_first().len() == 0);
    reveal_with_fuel(lex_lt, 3);
    assert(kx[0] == 0xffff_ffff_ffff_ffffint - (ts[x].removed_at.secs + 0x8000_0000_0000_0000int));
    assert(ky[0] == 0xffff_ffff_ffff_ffffint - (ts[y].removed_at.secs + 0x8000_0000_0000_0000int));
    assert(kx[1] == 0xffff_ffff_ffff_ffffint - ts[x].removed_at.nanos);
    assert(ky[1] == 0xffff_ffff_ffff_ffffint - ts[y].removed_at.nanos);
}

} // verus!
