use vstd::prelude::*;
use crate::text::{append_str, chars_of, owned, push_char, seq_eq, split_chars, split_spec};

verus! {

/// `PathBuf::join` on Unix: an absolute `seg` replaces `base`; otherwise `seg` is
/// appended, with a `/` between them unless `base` is empty or already ends in one.
pub open spec fn join_path(base: Seq<char>, seg: Seq<char>) -> Seq<char> {
    if seg.len() > 0 && seg[0] == '/' {
        seg
    } else if base.len() == 0 || base.last() == '/' {
        base + seg
    } else {
        base.push('/') + seg
    }
}

/// `PathBuf::join` on Unix paths held as strings.
pub fn path_join(base: &str, seg: &str) -> (r: String)
    ensures
        r@ == join_path(base@, seg@),
{
    let s = chars_of(seg);
    if s.len() > 0 && s[0] == '/' {
        return owned(seg);
    }
    let b = chars_of(base);
    let mut r = owned(base);
    if !(b.len() == 0 || b[b.len() - 1] == '/') {
        push_char(&mut r, '/');
    }
    append_str(&mut r, seg);
    r
}

pub open spec fn is_absolute(s: Seq<char>) -> bool {
    s.len() > 0 && s[0] == '/'
}

/// The components that `Path::components` yields after the root: the pieces
/// between separators, without empty pieces, and without `.` pieces except one
/// that begins a relative path.
pub open spec fn kept_pieces(pieces: Seq<Seq<char>>, absolute: bool, n: int) -> Seq<Seq<char>>
    decreases n,
{
    if n <= 0 {
        Seq::empty()
    } else {
        let rest = kept_pieces(pieces, absolute, n - 1);
        let p = pieces[n - 1];
        if p.len() > 0 && (p != seq!['.'] || (n - 1 == 0 && !absolute)) {
            rest.push(p)
        } else {
            rest
        }
    }
}

pub open spec fn components(s: Seq<char>) -> Seq<Seq<char>> {
    let pieces = split_spec(s, seq!['/']);
    kept_pieces(pieces, is_absolute(s), pieces.len() as int)
}

/// `Path` equality: same root, same components.
pub open spec fn path_eq(a: Seq<char>, b: Seq<char>) -> bool {
    is_absolute(a) == is_absolute(b) && components(a) == components(b)
}

/// The character sequences held by a list of character vectors.
pub open spec fn char_vecs(v: Seq<Vec<char>>) -> Seq<Seq<char>> {
    v.map_values(|c: Vec<char>| c@)
}

/// The components of a path (after its root).
fn components_exec(s: &[char]) -> (r: Vec<Vec<char>>)
    ensures
        char_vecs(r@) == components(s@),
{
    let seps = vec!['/'];
    assert(seps@ =~= seq!['/']);
    let pieces = split_chars(s, seps.as_slice());
    let absolute = s.len() > 0 && s[0] == '/';
    let ghost ps = split_spec(s@, seq!['/']);
    let mut r: Vec<Vec<char>> = Vec::new();
    let mut i: usize = 0;
    while i < pieces.len()
        invariant
            i <= pieces@.len(),
            pieces@.len() == ps.len(),
            forall|k: int| 0 <= k < pieces@.len() ==> #[trigger] pieces@[k]@ == ps[k],
            absolute == is_absolute(s@),
            char_vecs(r@) == kept_pieces(ps, absolute, i as int),
        decreases pieces@.len() - i,
    {
        let p = &pieces[i];
        let keep = p.len() > 0 && (!(p.len() == 1 && p[0] == '.') || (i == 0 && !absolute));
        proof {
            assert(pieces@[i as int]@ == ps[i as int]);
            if p@.len() == 1 && p@[0] == '.' {
                assert(p@ =~= seq!['.']);
            }
            if p@ == seq!['.'] {
                assert(p@.len() == 1 && p@[0] == '.');
            }
        }
        if keep {
            let ghost before = r@;
            r.push(p.clone());
            proof {
                assert(char_vecs(r@) =~= char_vecs(before).push(p@));
            }
        }
        i = i + 1;
    }
    r
}

/// `Path` equality on paths held as strings.
pub fn path_eq_exec(a: &str, b: &str) -> (r: bool)
    ensures
        r == path_eq(a@, b@),
{
    let ac = chars_of(a);
    let bc = chars_of(b);
    let aa = ac.len() > 0 && ac[0] == '/';
    let ba = bc.len() > 0 && bc[0] == '/';
    if aa != ba {
        return false;
    }
    let x = components_exec(&ac);
    let y = components_exec(&bc);
    let ghost xv = char_vecs(x@);
    let ghost yv = char_vecs(y@);
    if x.len() != y.len() {
        assert(xv.len() != yv.len());
        return false;
    }
    let mut i: usize = 0;
    while i < x.len()
        invariant
            x@.len() == y@.len(),
            i <= x@.len(),
            xv == char_vecs(x@),
            yv == char_vecs(y@),
            xv == components(a@),
            yv == components(b@),
            forall|k: int| 0 <= k < i ==> xv[k] == yv[k],
        decreases x@.len() - i,
    {
        if !seq_eq(x[i].as_slice(), y[i].as_slice()) {
            assert(xv[i as int] != yv[i as int]);
            return false;
        }
        i = i + 1;
    }
    assert(xv =~= yv);
    true
}

/// `Path::starts_with`: `base`'s root and components begin `p`'s.
pub open spec fn path_starts_with(p: Seq<char>, base: Seq<char>) -> bool {
    is_absolute(p) == is_absolute(base) && components(base).len() <= components(p).len()
        && components(p).take(components(base).len() as int) == components(base)
}

/// `Path::starts_with` on paths held as strings.
pub fn path_starts_with_exec(p: &str, base: &str) -> (r: bool)
    ensures
        r == path_starts_with(p@, base@),
{
    let pc = chars_of(p);
    let bc = chars_of(base);
    let pa = pc.len() > 0 && pc[0] == '/';
    let ba = bc.len() > 0 && bc[0] == '/';
    if pa != ba {
        return false;
    }
    let x = components_exec(&pc);
    let y = components_exec(&bc);
    let ghost xv = char_vecs(x@);
    let ghost yv = char_vecs(y@);
    if y.len() > x.len() {
        return false;
    }
    let mut i: usize = 0;
    while i < y.len()
        invariant
            y@.len() <= x@.len(),
            i <= y@.len(),
            xv == char_vecs(x@),
            yv == char_vecs(y@),
            xv == components(p@),
            yv == components(base@),
            forall|k: int| 0 <= k < i ==> xv[k] == yv[k],
        decreases y@.len() - i,
    {
        if !seq_eq(x[i].as_slice(), y[i].as_slice()) {
            assert(xv.take(yv.len() as int)[i as int] != yv[i as int]);
            return false;
        }
        i = i + 1;
    }
    assert(xv.take(yv.len() as int) =~= yv);
    true
}

/// `paths` holds a path equal to `p`.
pub open spec fn contains_path(paths: Seq<Seq<char>>, p: Seq<char>) -> bool {
    exists|i: int| 0 <= i < paths.len() && path_eq(paths[i], p)
}

/// Whether a list of paths holds one equal to `p`.
pub fn contains_path_exec(paths: &Vec<String>, p: &str) -> (r: bool)
    ensures
        r == contains_path(paths@.map_values(|s: String| s@), p@),
{
    let ghost pv = paths@.map_values(|s: String| s@);
    let mut i: usize = 0;
    while i < paths.len()
        invariant
            i <= paths@.len(),
            pv == paths@.map_values(|s: String| s@),
            forall|k: int| 0 <= k < i ==> !path_eq(pv[k], p@),
        decreases paths@.len() - i,
    {
        if path_eq_exec(paths[i].as_str(), p) {
            assert(path_eq(pv[i as int], p@));
            return true;
        }
        i = i + 1;
    }
    false
}

/// The extension of a file name, as `Path::extension` gives it: the text after the
/// last `.`, unless that dot begins the name (or there is none).
pub open spec fn extension_of(name: Seq<char>) -> Option<Seq<char>> {
    if name == seq!['.', '.'] {
        None
    } else if exists|i: int| 0 < i < name.len() && name[i] == '.' {
        let i = choose|i: int|
            0 < i < name.len() && name[i] == '.' && forall|j: int| i < j < name.len() ==> name[j] != '.';
        Some(name.subrange(i + 1, name.len() as int))
    } else {
        None
    }
}

/// Whether a file name has the extension `ext`.
pub fn has_extension(name: &str, ext: &str) -> (r: bool)
    ensures
        r == (extension_of(name@) == Some(ext@)),
{
    let n = chars_of(name);
    let e = chars_of(ext);
    if n.len() == 2 && n[0] == '.' && n[1] == '.' {
        assert(n@ =~= seq!['.', '.']);
        return false;
    }
    proof {
        if n@ == seq!['.', '.'] {
            assert(n@.len() == 2 && n@[0] == '.' && n@[1] == '.');
        }
    }
    let mut i: usize = n.len();
    while i > 0 && n[i - 1] != '.'
        invariant
            i <= n@.len(),
            forall|j: int| i <= j < n@.len() ==> n@[j] != '.',
        decreases i,
    {
        i = i - 1;
    }
    if i <= 1 {
        proof {
            assert(!exists|k: int| 0 < k < n@.len() && n@[k] == '.') by {
                if exists|k: int| 0 < k < n@.len() && n@[k] == '.' {
                    let k = choose|k: int| 0 < k < n@.len() && n@[k] == '.';
                    assert(k >= i);
                }
            }
        }
        return false;
    }
    let d = i - 1;
    proof {
        let w = choose|w: int|
            0 < w < n@.len() && n@[w] == '.' && forall|j: int| w < j < n@.len() ==> n@[j] != '.';
        assert(0 < d < n@.len() && n@[d as int] == '.');
        if w < d {
            assert(n@[d as int] != '.');
        }
        if w > d {
            assert(n@[w] != '.');
        }
    }
    let rest = crate::text::slice_to_vec(&n, d + 1, n.len());
    seq_eq(&rest, &e)
}

} // verus!
