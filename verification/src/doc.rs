use vstd::prelude::*;
use crate::text::{append_str, has_substring, occurs_at};

verus! {

/// The texts of a list of strings.
pub open spec fn strs(v: Seq<String>) -> Seq<Seq<char>> {
    v.map_values(|s: String| s@)
}

/// The concatenation of a list of fragments.
pub open spec fn concat(fs: Seq<Seq<char>>) -> Seq<char>
    decreases fs.len(),
{
    if fs.len() == 0 {
        Seq::empty()
    } else {
        concat(fs.drop_last()) + fs.last()
    }
}

pub proof fn lemma_concat_append(a: Seq<Seq<char>>, b: Seq<Seq<char>>)
    ensures
        concat(a + b) == concat(a) + concat(b),
    decreases b.len(),
{
    if b.len() == 0 {
        assert(a + b =~= a);
        assert(concat(a) + concat(b) =~= concat(a));
    } else {
        assert((a + b).drop_last() =~= a + b.drop_last());
        lemma_concat_append(a, b.drop_last());
        assert((a + b).last() == b.last());
        assert(concat(a + b) =~= concat(a) + concat(b));
    }
}

/// Every fragment occurs in the concatenation.
pub proof fn lemma_concat_contains(fs: Seq<Seq<char>>, k: int)
    requires
        0 <= k < fs.len(),
    ensures
        has_substring(concat(fs), fs[k]),
    decreases fs.len(),
{
    if k == fs.len() - 1 {
        let pre = concat(fs.drop_last());
        assert(concat(fs) == pre + fs[k]);
        assert((pre + fs[k]).subrange(pre.len() as int, (pre.len() + fs[k].len()) as int) =~= fs[k]);
        assert(occurs_at(concat(fs), fs[k], pre.len() as int));
    } else {
        lemma_concat_contains(fs.drop_last(), k);
        assert(fs.drop_last()[k] == fs[k]);
        let pre = concat(fs.drop_last());
        let i = choose|i: int| occurs_at(pre, fs[k], i);
        assert((pre + fs.last()).subrange(i, i + fs[k].len()) =~= pre.subrange(i, i + fs[k].len()));
        assert(occurs_at(concat(fs), fs[k], i));
    }
}

/// A substring of a substring is a substring.
pub proof fn lemma_substring_trans(s: Seq<char>, t: Seq<char>, u: Seq<char>)
    requires
        has_substring(s, t),
        has_substring(t, u),
    ensures
        has_substring(s, u),
{
    let i = choose|i: int| occurs_at(s, t, i);
    let j = choose|j: int| occurs_at(t, u, j);
    assert(s.subrange(i + j, i + j + u.len()) =~= t.subrange(j, j + u.len()));
    assert(occurs_at(s, u, i + j));
}

/// Appends a fragment to a document under construction.
pub fn push_frag(out: &mut Vec<String>, s: String)
    ensures
        strs(final(out)@) == strs(old(out)@).push(s@),
{
    out.push(s);
    assert(strs(out@) =~= strs(old(out)@).push(s@));
}

/// Joins the fragments of a document.
pub fn concat_frags(v: &Vec<String>) -> (r: String)
    ensures
        r@ == concat(strs(v@)),
{
    let mut r = String::new();
    let mut i: usize = 0;
    while i < v.len()
        invariant
            i <= v@.len(),
            r@ == concat(strs(v@.take(i as int))),
        decreases v@.len() - i,
    {
        append_str(&mut r, v[i].as_str());
        assert(strs(v@.take(i + 1)).drop_last() =~= strs(v@.take(i as int)));
        i = i + 1;
    }
    assert(v@.take(v@.len() as int) =~= v@);
    r
}

} // verus!
