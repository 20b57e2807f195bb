use vstd::prelude::*;
use crate::models::item::{InventoryItem, Timestamp};

verus! {

/// What the file system says of an install path that exists: its size on disk,
/// and each time stamp when the metadata gives one (`Some(None)`: given, but not
/// representable as a point in time after the epoch).
pub struct PathAudit {
    pub size_bytes: u64,
    pub modified: Option<Option<Timestamp>>,
    pub accessed: Option<Option<Timestamp>>,
}

/// Enriches items with their real disk usage and access times.
pub struct FsAuditor;

impl FsAuditor {
    /// Records an audit of the item's install path (`None`: the path does not
    /// exist, and the item is left as it is).
    pub fn apply(item: &mut InventoryItem, audit: Option<PathAudit>)
        ensures
            audit is None ==> *final(item) == *old(item),
            audit matches Some(a) ==> (*final(item) == (InventoryItem {
                size_bytes: a.size_bytes,
                last_modified_at: match a.modified {
                    Some(t) => t,
                    None => old(item).last_modified_at,
                },
                last_accessed_at: match a.accessed {
                    Some(t) => t,
                    None => old(item).last_accessed_at,
                },
                ..*old(item)
            })),
    {
        match audit {
            Some(a) => {
                item.size_bytes = a.size_bytes;
                match a.modified {
                    Some(t) => {
                        item.last_modified_at = t;
                    },
                    None => {},
                }
                match a.accessed {
                    Some(t) => {
                        item.last_accessed_at = t;
                    },
                    None => {},
                }
            },
            None => {},
        }
    }
}

/// What a path is, as the file system reports it without following links.
pub enum PathKind {
    Missing,
    Symlink,
    File { len: u64 },
    Dir,
    /// Anything else, or a path whose metadata could not be read.
    Other,
}

/// The sum of sizes.
pub open spec fn sizes_sum(v: Seq<u64>) -> nat
    decreases v.len(),
{
    if v.len() == 0 {
        0
    } else {
        sizes_sum(v.drop_last()) + v.last() as nat
    }
}

/// The size that a path counts for, given the sizes of a directory's entries:
/// a file's length, a directory's entries together, and nothing for a missing
/// path, a link (never followed) or anything else.
pub open spec fn path_size_of(kind: PathKind, entry_sizes: Seq<u64>) -> nat {
    match kind {
        PathKind::File { len } => len as nat,
        PathKind::Dir => sizes_sum(entry_sizes),
        _ => 0,
    }
}

/// Whether the sizes add up within `u64`.
pub fn sizes_fit(entry_sizes: &Vec<u64>) -> (r: bool)
    ensures
        r == (sizes_sum(entry_sizes@) <= u64::MAX),
{
    let mut total: u64 = 0;
    let mut i: usize = 0;
    while i < entry_sizes.len()
        invariant
            i <= entry_sizes@.len(),
            total == sizes_sum(entry_sizes@.take(i as int)),
        decreases entry_sizes@.len() - i,
    {
        assert(entry_sizes@.take(i + 1).drop_last() =~= entry_sizes@.take(i as int));
        if entry_sizes[i] > u64::MAX - total {
            proof {
                lemma_sizes_sum_prefix(entry_sizes@, i + 1);
            }
            return false;
        }
        total = total + entry_sizes[i];
        i = i + 1;
    }
    assert(entry_sizes@.take(i as int) =~= entry_sizes@);
    true
}

proof fn lemma_sizes_sum_prefix(v: Seq<u64>, n: int)
    requires
        0 <= n <= v.len(),
    ensures
        sizes_sum(v.take(n)) <= sizes_sum(v),
    decreases v.len() - n,
{
    if n < v.len() {
        lemma_sizes_sum_prefix(v, n + 1);
        assert(v.take(n + 1).drop_last() =~= v.take(n));
    } else {
        assert(v.take(n) =~= v);
    }
}

impl FsAuditor {
    /// The size that a path counts for (see `path_size_of`).
    pub fn path_size(kind: &PathKind, entry_sizes: &Vec<u64>) -> (r: u64)
        requires
            *kind is Dir ==> sizes_sum(entry_sizes@) <= u64::MAX,
        ensures
            r == path_size_of(*kind, entry_sizes@),
    {
        match kind {
            PathKind::File { len } => *len,
            PathKind::Dir => {
                let mut total: u64 = 0;
                let mut i: usize = 0;
                while i < entry_sizes.len()
                    invariant
                        i <= entry_sizes@.len(),
                        sizes_sum(entry_sizes@) <= u64::MAX,
                        total == sizes_sum(entry_sizes@.take(i as int)),
                    decreases entry_sizes@.len() - i,
                {
                    assert(entry_sizes@.take(i + 1).drop_last() =~= entry_sizes@.take(i as int));
                    proof {
                        lemma_sizes_sum_prefix(entry_sizes@, i + 1);
                    }
                    total = total + entry_sizes[i];
                    i = i + 1;
                }
                assert(entry_sizes@.take(i as int) =~= entry_sizes@);
                total
            },
            _ => 0,
        }
    }
}

} // verus!
