use vstd::prelude::*;
use crate::doc::strs;
use crate::paths::{path_starts_with, path_starts_with_exec};
use crate::text::{append_str, chars_of, owned, trim_spec, trim_str};

verus! {

/// The text of an optional string.
pub open spec fn opt_text(o: Option<String>) -> Option<Seq<char>> {
    match o {
        Some(s) => Some(s@),
        None => None,
    }
}

/// One entry of a directory listing: its name, and whether it is a directory
/// or a regular file (links followed).
pub struct ListedEntry {
    pub name: String,
    pub is_dir: bool,
    pub is_file: bool,
}

/// The places where a tool's binary is looked for first, in order.
pub open spec fn binary_candidates(name: Seq<char>) -> Seq<Seq<char>> {
    seq!["/opt/homebrew/bin/"@ + name, "/usr/local/bin/"@ + name, "/usr/bin/"@ + name]
}

/// What a successful command printed, trimmed; nothing when that is empty or the
/// command did not succeed.
pub open spec fn trimmed_output(out: Option<Seq<char>>) -> Option<Seq<char>> {
    match out {
        Some(s) => if trim_spec(s).len() > 0 {
            Some(trim_spec(s))
        } else {
            None
        },
        None => None,
    }
}

/// The binary that is used: the first candidate place that exists, else what
/// `which` printed.
pub open spec fn found_binary(name: Seq<char>, exists: Seq<bool>, which_out: Option<Seq<char>>) -> Option<Seq<char>> {
    if exists[0] {
        Some(binary_candidates(name)[0])
    } else if exists[1] {
        Some(binary_candidates(name)[1])
    } else if exists[2] {
        Some(binary_candidates(name)[2])
    } else {
        trimmed_output(which_out)
    }
}

/// The Homebrew prefix: what `brew --prefix` printed, else guessed from where the binary is.
pub open spec fn brew_prefix_spec(out: Option<Seq<char>>, brew_bin: Seq<char>) -> Seq<char> {
    match trimmed_output(out) {
        Some(s) => s,
        None => if path_starts_with(brew_bin, "/opt/homebrew"@) {
            "/opt/homebrew"@
        } else {
            "/usr/local"@
        },
    }
}

/// The npm global prefix: what `npm config get prefix` printed, else `/usr/local`.
pub open spec fn npm_prefix_spec(out: Option<Seq<char>>) -> Seq<char> {
    match trimmed_output(out) {
        Some(s) => s,
        None => "/usr/local"@,
    }
}

/// The home directory, or `/tmp` when it is not known.
pub open spec fn home_or_tmp(home: Option<Seq<char>>) -> Seq<char> {
    match home {
        Some(h) => h,
        None => "/tmp"@,
    }
}

/// Where the tool's binary is looked for first, in order.
pub fn which_candidates(name: &str) -> (r: Vec<String>)
    ensures
        strs(r@) == binary_candidates(name@),
{
    let mut a = owned("/opt/homebrew/bin/");
    append_str(&mut a, name);
    let mut b = owned("/usr/local/bin/");
    append_str(&mut b, name);
    let mut c = owned("/usr/bin/");
    append_str(&mut c, name);
    let mut r: Vec<String> = Vec::new();
    r.push(a);
    r.push(b);
    r.push(c);
    assert(strs(r@) =~= binary_candidates(name@));
    r
}

/// The trimmed output of a command, when it succeeded and printed something.
pub fn trimmed_nonempty(out: Option<String>) -> (r: Option<String>)
    ensures
        r matches Some(s) ==> trimmed_output(opt_text(out)) == Some(s@),
        r is None ==> trimmed_output(opt_text(out)) is None,
{
    match out {
        Some(o) => {
            let t = trim_str(o.as_str());
            let tc = chars_of(t.as_str());
            if tc.len() > 0 {
                Some(t)
            } else {
                None
            }
        },
        None => None,
    }
}

/// Picks the binary of a tool: `exists` tells which of `which_candidates(name)`
/// exist; `which_stdout` is what `which name` printed, when it succeeded.
pub fn which_binary(name: &str, exists: &Vec<bool>, which_stdout: Option<String>) -> (r: Option<String>)
    requires
        exists@.len() == 3,
    ensures
        r matches Some(s) ==> found_binary(name@, exists@, opt_text(which_stdout)) == Some(s@),
        r is None ==> found_binary(name@, exists@, opt_text(which_stdout)) is None,
{
    let cands = which_candidates(name);
    assert(cands@.len() == strs(cands@).len());
    let mut i: usize = 0;
    while i < 3
        invariant
            i <= 3,
            exists@.len() == 3,
            cands@.len() == 3,
            strs(cands@) == binary_candidates(name@),
            forall|k: int| 0 <= k < i ==> !exists@[k],
        decreases 3 - i,
    {
        if exists[i] {
            assert(strs(cands@)[i as int] == cands@[i as int]@);
            return Some(owned(cands[i].as_str()));
        }
        i = i + 1;
    }
    trimmed_nonempty(which_stdout)
}

/// The Homebrew prefix, from the output of `brew --prefix` (when it succeeded)
/// and the path of the binary.
pub fn brew_prefix(prefix_stdout: Option<String>, brew_bin: &str) -> (r: String)
    ensures
        r@ == brew_prefix_spec(opt_text(prefix_stdout), brew_bin@),
{
    match trimmed_nonempty(prefix_stdout) {
        Some(s) => s,
        None => if path_starts_with_exec(brew_bin, "/opt/homebrew") {
            owned("/opt/homebrew")
        } else {
            owned("/usr/local")
        },
    }
}

/// The npm global prefix, from the output of `npm config get prefix` (when it succeeded).
pub fn npm_global_prefix(prefix_stdout: Option<String>) -> (r: String)
    ensures
        r@ == npm_prefix_spec(opt_text(prefix_stdout)),
{
    match trimmed_nonempty(prefix_stdout) {
        Some(s) => s,
        None => owned("/usr/local"),
    }
}

/// The home directory, or `/tmp`.
pub fn home_dir_or_tmp(home: Option<String>) -> (r: String)
    ensures
        r@ == home_or_tmp(opt_text(home)),
{
    match home {
        Some(h) => h,
        None => owned("/tmp"),
    }
}

} // verus!
