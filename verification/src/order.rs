use vstd::prelude::*;

verus! {

/// Lexicographic order on key sequences; a proper prefix comes first.
pub open spec fn lex_lt(a: Seq<u64>, b: Seq<u64>) -> bool
    decreases a.len(),
{
    if a.len() == 0 {
        b.len() > 0
    } else if b.len() == 0 {
        false
    } else if a[0] < b[0] {
        true
    } else if a[0] > b[0] {
        false
    } else {
        lex_lt(a.drop_first(), b.drop_first())
    }
}

pub proof fn lemma_lex_irreflexive(a: Seq<u64>)
    ensures
        !lex_lt(a, a),
    decreases a.len(),
{
    if a.len() > 0 {
        lemma_lex_irreflexive(a.drop_first());
    }
}

pub proof fn lemma_lex_transitive(a: Seq<u64>, b: Seq<u64>, c: Seq<u64>)
    requires
        lex_lt(a, b),
        lex_lt(b, c),
    ensures
        lex_lt(a, c),
    decreases a.len(),
{
    if a.len() > 0 && b.len() > 0 && c.len() > 0 && a[0] == b[0] && b[0] == c[0] {
        lemma_lex_transitive(a.drop_first(), b.drop_first(), c.drop_first());
    }
}

pub proof fn lemma_lex_total(a: Seq<u64>, b: Seq<u64>)
    ensures
        a == b || lex_lt(a, b) || lex_lt(b, a),
    decreases a.len(),
{
    if a.len() > 0 && b.len() > 0 && a[0] == b[0] {
        lemma_lex_total(a.drop_first(), b.drop_first());
        if a.drop_first() == b.drop_first() {
            assert(a =~= seq![a[0]] + a.drop_first());
            assert(b =~= seq![b[0]] + b.drop_first());
        }
    } else if a.len() == 0 && b.len() == 0 {
        assert(a =~= b);
    }
}

pub proof fn lemma_lex_asymmetric(a: Seq<u64>, b: Seq<u64>)
    requires
        lex_lt(a, b),
    ensures
        !lex_lt(b, a),
{
    if lex_lt(b, a) {
        lemma_lex_transitive(a, b, a);
        lemma_lex_irreflexive(a);
    }
}

/// `lex_lt` on two key vectors.
pub fn lex_less(a: &Vec<u64>, b: &Vec<u64>) -> (r: bool)
    ensures
        r == lex_lt(a@, b@),
{
    let mut i: usize = 0;
    assert(a@.skip(0) =~= a@);
    assert(b@.skip(0) =~= b@);
    while i < a.len() && i < b.len()
        invariant
            i <= a@.len(),
            i <= b@.len(),
            lex_lt(a@, b@) == lex_lt(a@.skip(i as int), b@.skip(i as int)),
        decreases a@.len() - i,
    {
        proof {
            assert(a@.skip(i as int)[0] == a@[i as int]);
            assert(b@.skip(i as int)[0] == b@[i as int]);
            assert(a@.skip(i as int).drop_first() =~= a@.skip(i + 1));
            assert(b@.skip(i as int).drop_first() =~= b@.skip(i + 1));
        }
        if a[i] < b[i] {
            return true;
        }
        if a[i] > b[i] {
            return false;
        }
        i = i + 1;
    }
    i < b.len()
}

/// Index `x` sorts before index `y`: by key, and by position among equal keys.
pub open spec fn ranks_before(keys: Seq<Seq<u64>>, x: int, y: int) -> bool {
    lex_lt(keys[x], keys[y]) || (keys[x] == keys[y] && x < y)
}

/// The key sequences held by a vector of key vectors.
pub open spec fn key_views(keys: Seq<Vec<u64>>) -> Seq<Seq<u64>> {
    keys.map_values(|k: Vec<u64>| k@)
}

pub proof fn lemma_ranks_transitive(keys: Seq<Seq<u64>>, x: int, y: int, z: int)
    requires
        ranks_before(keys, x, y),
        ranks_before(keys, y, z),
    ensures
        ranks_before(keys, x, z),
{
    if lex_lt(keys[x], keys[y]) && lex_lt(keys[y], keys[z]) {
        lemma_lex_transitive(keys[x], keys[y], keys[z]);
    }
}

pub proof fn lemma_ranks_total(keys: Seq<Seq<u64>>, x: int, y: int)
    requires
        x != y,
    ensures
        ranks_before(keys, x, y) || ranks_before(keys, y, x),
        !(ranks_before(keys, x, y) && ranks_before(keys, y, x)),
{
    lemma_lex_total(keys[x], keys[y]);
    if lex_lt(keys[x], keys[y]) {
        lemma_lex_asymmetric(keys[x], keys[y]);
        lemma_lex_irreflexive(keys[x]);
    }
    if lex_lt(keys[y], keys[x]) {
        lemma_lex_asymmetric(keys[y], keys[x]);
        lemma_lex_irreflexive(keys[y]);
    }
}

/// `r` lists its indices in key order, ties by position.
pub open spec fn sorted_by_keys(keys: Seq<Seq<u64>>, r: Seq<usize>) -> bool {
    forall|a: int, b: int| 0 <= a < b < r.len() ==> ranks_before(keys, r[a] as int, r[b] as int)
}

/// Sorts the indices `cand` by their keys; equal keys keep their relative order,
/// as a stable sort of the increasing list `cand` does.
pub fn sort_indices(cand: &Vec<usize>, keys: &Vec<Vec<u64>>) -> (r: Vec<usize>)
    requires
        forall|a: int, b: int| 0 <= a < b < cand@.len() ==> cand@[a] < cand@[b],
        forall|a: int| 0 <= a < cand@.len() ==> cand@[a] < keys@.len(),
    ensures
        r@.len() == cand@.len(),
        r@.to_set() == cand@.to_set(),
        r@.no_duplicates(),
        sorted_by_keys(key_views(keys@), r@),
{
    let ghost kv = key_views(keys@);
    let mut res: Vec<usize> = Vec::new();
    let mut i: usize = 0;
    while i < cand.len()
        invariant
            i <= cand@.len(),
            kv == key_views(keys@),
            forall|a: int, b: int| 0 <= a < b < cand@.len() ==> cand@[a] < cand@[b],
            forall|a: int| 0 <= a < cand@.len() ==> cand@[a] < keys@.len(),
            res@.len() == i,
            res@.to_set() == cand@.take(i as int).to_set(),
            res@.no_duplicates(),
            sorted_by_keys(kv, res@),
        decreases cand@.len() - i,
    {
        let x = cand[i];
        proof {
            let ct0 = cand@.take(i as int);
            assert forall|q: int| 0 <= q < res@.len() implies res@[q] < x by {
                assert(res@.to_set().contains(res@[q]));
                assert(ct0.to_set().contains(res@[q]));
                let k = choose|k: int| 0 <= k < ct0.len() && ct0[k] == res@[q];
                assert(cand@[k] == res@[q]);
            }
        }
        let mut p: usize = 0;
        while p < res.len() && !lex_less(&keys[x], &keys[res[p]])
            invariant
                p <= res@.len(),
                x < keys@.len(),
                kv == key_views(keys@),
                forall|q: int| 0 <= q < res@.len() ==> res@[q] < x,
                forall|q: int| 0 <= q < res@.len() ==> res@[q] < keys@.len(),
                forall|q: int| 0 <= q < p ==> ranks_before(kv, res@[q] as int, x as int),
            decreases res@.len() - p,
        {
            proof {
                lemma_lex_total(keys@[x as int]@, keys@[res@[p as int] as int]@);
                assert(kv[x as int] == keys@[x as int]@);
                assert(kv[res@[p as int] as int] == keys@[res@[p as int] as int]@);
            }
            p = p + 1;
        }
        proof {
            if p < res@.len() {
                assert(kv[x as int] == keys@[x as int]@);
                assert(kv[res@[p as int] as int] == keys@[res@[p as int] as int]@);
                lemma_lex_total(keys@[x as int]@, keys@[res@[p as int] as int]@);
                assert(ranks_before(kv, x as int, res@[p as int] as int));
                assert forall|q: int| p <= q < res@.len() implies ranks_before(kv, x as int, res@[q] as int) by {
                    if q > p {
                        lemma_ranks_transitive(kv, x as int, res@[p as int] as int, res@[q] as int);
                    }
                }
            }
        }
        let ghost before = res@;
        res.insert(p, x);
        proof {
            assert(res@ =~= before.take(p as int).push(x) + before.skip(p as int));
            assert forall|a: int, b: int| 0 <= a < b < res@.len() implies ranks_before(kv, res@[a] as int, res@[b] as int) by {
                if b < p {
                    assert(res@[a] == before[a] && res@[b] == before[b]);
                } else if b == p {
                    assert(res@[a] == before[a]);
                } else if a < p {
                    assert(res@[a] == before[a] && res@[b] == before[b - 1]);
                } else if a == p {
                    assert(res@[b] == before[b - 1]);
                } else {
                    assert(res@[a] == before[a - 1] && res@[b] == before[b - 1]);
                }
            }
            assert(res@.no_duplicates()) by {
                assert forall|a: int, b: int| 0 <= a < res@.len() && 0 <= b < res@.len() && a != b implies res@[a] != res@[b] by {
                    if a != p && b != p {
                        let a2 = if a < p { a } else { a - 1 };
                        let b2 = if b < p { b } else { b - 1 };
                        assert(res@[a] == before[a2] && res@[b] == before[b2]);
                    } else if a == p {
                        let b2 = if b < p { b } else { b - 1 };
                        assert(res@[b] == before[b2]);
                    } else {
                        let a2 = if a < p { a } else { a - 1 };
                        assert(res@[a] == before[a2]);
                    }
                }
            }
            let ct0 = cand@.take(i as int);
            let ct1 = cand@.take(i + 1);
            assert(ct1 =~= ct0.push(x));
            assert(res@.to_set() =~= ct1.to_set()) by {
                assert forall|v: usize| res@.to_set().contains(v) <==> ct1.to_set().contains(v) by {
                    if res@.to_set().contains(v) {
                        let k = choose|k: int| 0 <= k < res@.len() && res@[k] == v;
                        if k != p {
                            let k2 = if k < p { k } else { k - 1 };
                            assert(before[k2] == v);
                            assert(before.to_set().contains(v));
                            assert(ct0.to_set().contains(v));
                            let j = choose|j: int| 0 <= j < ct0.len() && ct0[j] == v;
                            assert(ct1[j] == v);
                        } else {
                            assert(ct1[i as int] == v);
                        }
                    }
                    if ct1.to_set().contains(v) {
                        let j = choose|j: int| 0 <= j < ct1.len() && ct1[j] == v;
                        if j < i {
                            assert(ct0[j] == v);
                            assert(ct0.to_set().contains(v));
                            assert(before.to_set().contains(v));
                            let k = choose|k: int| 0 <= k < before.len() && before[k] == v;
                            if k < p {
                                assert(res@[k] == v);
                            } else {
                                assert(res@[k + 1] == v);
                            }
                        } else {
                            assert(res@[p as int] == v);
                        }
                    }
                }
            }
        }
        i = i + 1;
    }
    proof {
        assert(cand@.take(cand@.len() as int) =~= cand@);
    }
    res
}

} // verus!
