use vstd::prelude::*;
use crate::collectors::probe::opt_text;
use crate::collectors::python::{lines_of, text_lines};
use crate::models::category::Category;
use crate::models::item::{InventoryItem, PackageSource};
use crate::paths::{join_path, path_join};
use crate::text::{
    append_str, cat, has_substring, owned, occurs_at, remove_all, remove_all_chars, seq_find,
    slice_to_vec, split_chars, split_spec, string_of, strip_trailing, strip_trailing_chars,
    trim_chars, trim_spec, lemma_split_nonempty,
};

verus! {

/// The gem collector: the `gem` binaries to ask, in order.
pub struct GemCollector {
    pub gem_bins: Vec<String>,
}

impl GemCollector {
    /// The gem binaries of the Rubies that mise installed, or else the system `gem`.
    pub fn new(mise_gem_bins: Vec<String>, system_gem: Option<String>) -> (r: Self)
        ensures
            mise_gem_bins@.len() > 0 ==> r.gem_bins@ == mise_gem_bins@,
            mise_gem_bins@.len() == 0 && system_gem is None ==> r.gem_bins@.len() == 0,
            mise_gem_bins@.len() == 0 && system_gem is Some ==> r.gem_bins@ == seq![system_gem->0],
    {
        if mise_gem_bins.len() > 0 {
            GemCollector { gem_bins: mise_gem_bins }
        } else {
            let mut bins: Vec<String> = Vec::new();
            match system_gem {
                Some(g) => {
                    bins.push(g);
                },
                None => {},
            }
            GemCollector { gem_bins: bins }
        }
    }

    /// The collector's name.
    pub fn name(&self) -> (r: &'static str)
        ensures
            r@ == "gem"@,
    {
        "gem"
    }

    /// Whether there is a gem binary to ask.
    pub fn is_available(&self) -> (r: bool)
        ensures
            r == (self.gem_bins@.len() > 0),
    {
        self.gem_bins.len() > 0
    }
}

/// Where mise installs Rubies, under the home directory.
pub fn mise_rubies_dir(home: &str) -> (r: String)
    ensures
        r@ == join_path(home@, ".local/share/mise/installs/ruby"@),
{
    path_join(home, ".local/share/mise/installs/ruby")
}

/// The gem binary of one installed Ruby.
pub fn ruby_gem_bin(ruby_dir: &str) -> (r: String)
    ensures
        r@ == join_path(ruby_dir@, "bin/gem"@),
{
    path_join(ruby_dir, "bin/gem")
}

/// `i` is the first position of `c` in `s`.
pub open spec fn first_at(s: Seq<char>, c: char, i: int) -> bool {
    0 <= i < s.len() && s[i] == c && forall|j: int| 0 <= j < i ==> s[j] != c
}

/// The first position of `c` in `s` (when there is one).
pub open spec fn first_pos(s: Seq<char>, c: char) -> int {
    choose|i: int| first_at(s, c, i)
}

/// Whether a line of `gem list --no-details` names a gem: not blank, with a `(`.
pub open spec fn gem_line_kept(line: Seq<char>) -> bool {
    let t = trim_spec(line);
    t.len() > 0 && exists|i: int| first_at(t, '(', i)
}

/// The text inside the parentheses, such as `1.8.1, default: 1.7.3`.
pub open spec fn versions_raw(line: Seq<char>) -> Seq<char> {
    let t = trim_spec(line);
    trim_spec(strip_trailing(t.skip(first_pos(t, '(') + 1), ')'))
}

/// The gem's name: the trimmed text before the `(`.
pub open spec fn gem_name(line: Seq<char>) -> Seq<char> {
    let t = trim_spec(line);
    trim_spec(t.take(first_pos(t, '(')))
}

/// The first listed version, without a `default:` marker.
pub open spec fn primary_version(line: Seq<char>) -> Seq<char> {
    trim_spec(remove_all(split_spec(versions_raw(line), seq![','])[0], "default:"@))
}

/// A default gem ships with Ruby and is not to be uninstalled.
pub open spec fn is_default_gem(line: Seq<char>) -> bool {
    has_substring(versions_raw(line), "default"@)
}

/// The item of a gem line; `gem_dir` is what `gem environment gemdir` printed.
pub open spec fn gem_item(line: Seq<char>, gem_dir: Option<Seq<char>>, it: InventoryItem) -> bool {
    let name = gem_name(line);
    let v = primary_version(line);
    let default = is_default_gem(line);
    &&& it.id@ == "gem:"@ + name
    &&& it.name@ == name
    &&& it.source == PackageSource::Gem
    &&& opt_text(it.version) == Some(v)
    &&& it.install_path@ == match gem_dir {
        Some(d) => join_path(join_path(d, "gems"@), name + "-"@ + v),
        None => "/tmp/gem/"@ + name,
    }
    &&& it.size_bytes == 0
    &&& it.last_accessed_at is None
    &&& it.last_modified_at is None
    &&& it.is_top_level == !default
    &&& it.required_by@.len() == 0
    &&& it.category == Category::LanguagesAndRuntimes
    &&& opt_text(it.uninstall_cmd) == (if default {
        None
    } else {
        Some("gem uninstall "@ + name)
    })
    &&& opt_text(it.reinstall_cmd) == Some("gem install "@ + name)
}

/// `items` are the items of the gem lines among `lines`, in order.
pub open spec fn gem_items_ok(lines: Seq<Seq<char>>, gem_dir: Option<Seq<char>>, items: Seq<InventoryItem>) -> bool
    decreases lines.len(),
{
    if lines.len() == 0 {
        items.len() == 0
    } else if !gem_line_kept(lines.last()) {
        gem_items_ok(lines.drop_last(), gem_dir, items)
    } else {
        items.len() > 0 && gem_items_ok(lines.drop_last(), gem_dir, items.drop_last()) && gem_item(
            lines.last(),
            gem_dir,
            items.last(),
        )
    }
}

/// The first position of `c`, if any.
fn find_char(s: &Vec<char>, c: char) -> (r: Option<usize>)
    ensures
        r matches Some(i) ==> first_at(s@, c, i as int) && first_pos(s@, c) == i,
        r is None ==> !exists|i: int| first_at(s@, c, i),
{
    let mut i: usize = 0;
    while i < s.len()
        invariant
            i <= s@.len(),
            forall|j: int| 0 <= j < i ==> s@[j] != c,
        decreases s@.len() - i,
    {
        if s[i] == c {
            proof {
                assert(first_at(s@, c, i as int));
                let k = first_pos(s@, c);
                assert(first_at(s@, c, k));
                if k < i {
                    assert(s@[k] != c);
                }
                if k > i {
                    assert(s@[i as int] != c);
                }
            }
            return Some(i);
        }
        i = i + 1;
    }
    None
}

fn gem_line(line: &Vec<char>, gem_dir: &Option<String>) -> (r: Option<InventoryItem>)
    ensures
        r is Some <==> gem_line_kept(line@),
        r matches Some(it) ==> gem_item(line@, opt_text(*gem_dir), it),
{
    let t = trim_chars(line.as_slice());
    if t.len() == 0 {
        return None;
    }
    let p = match find_char(&t, '(') {
        Some(p) => p,
        None => {
            return None;
        },
    };
    let before = slice_to_vec(t.as_slice(), 0, p);
    assert(before@ =~= t@.take(p as int));
    let name_chars = trim_chars(before.as_slice());
    let name = string_of(name_chars.as_slice());
    let after = slice_to_vec(t.as_slice(), p + 1, t.len());
    assert(after@ =~= t@.skip(p + 1));
    let stripped = strip_trailing_chars(after.as_slice(), ')');
    let raw = trim_chars(stripped.as_slice());
    let raw_s = string_of(raw.as_slice());
    let is_default = crate::text::contains_str(raw_s.as_str(), "default");
    let seps = vec![','];
    assert(seps@ =~= seq![',']);
    let pieces = split_chars(&raw, &seps);
    proof {
        lemma_split_nonempty(raw@, seq![',']);
    }
    let marker = crate::text::chars_of("default:");
    proof {
        reveal_strlit("default:");
    }
    let cleaned = remove_all_chars(pieces[0].as_slice(), marker.as_slice());
    let primary_chars = trim_chars(cleaned.as_slice());
    let primary = string_of(primary_chars.as_slice());
    let install_path = match gem_dir {
        Some(d) => {
            let g = path_join(d.as_str(), "gems");
            let mut leaf = cat(name.as_str(), "-");
            append_str(&mut leaf, primary.as_str());
            path_join(g.as_str(), leaf.as_str())
        },
        None => cat("/tmp/gem/", name.as_str()),
    };
    let uninstall_cmd = if !is_default {
        Some(cat("gem uninstall ", name.as_str()))
    } else {
        None
    };
    Some(InventoryItem {
        id: cat("gem:", name.as_str()),
        name: owned(name.as_str()),
        source: PackageSource::Gem,
        version: Some(primary),
        install_path,
        size_bytes: 0,
        last_accessed_at: None,
        last_modified_at: None,
        is_top_level: !is_default,
        required_by: Vec::new(),
        category: Category::LanguagesAndRuntimes,
        uninstall_cmd,
        reinstall_cmd: Some(cat("gem install ", name.as_str())),
    })
}

/// The items of `gem list --no-details`: one per gem line, in order; `gem_dir` is
/// what `gem environment gemdir` printed (trimmed, when not empty).
pub fn gem_items(stdout: &str, gem_dir: &Option<String>) -> (r: Vec<InventoryItem>)
    ensures
        gem_items_ok(text_lines(stdout@), opt_text(*gem_dir), r@),
{
    let lines = lines_of(stdout);
    let ghost ls = text_lines(stdout@);
    let mut r: Vec<InventoryItem> = Vec::new();
    let mut i: usize = 0;
    while i < lines.len()
        invariant
            i <= lines@.len(),
            lines@.len() == ls.len(),
            forall|k: int| 0 <= k < lines@.len() ==> #[trigger] lines@[k]@ == ls[k],
            gem_items_ok(ls.take(i as int), opt_text(*gem_dir), r@),
        decreases lines@.len() - i,
    {
        let ghost t1 = ls.take(i + 1);
        assert(t1.drop_last() =~= ls.take(i as int));
        assert(t1.last() == lines@[i as int]@);
        match gem_line(&lines[i], gem_dir) {
            Some(it) => {
                let ghost before = r@;
                r.push(it);
                assert(r@.drop_last() =~= before);
            },
            None => {},
        }
        i = i + 1;
    }
    assert(ls.take(i as int) =~= ls);
    r
}

} // verus!
