use vstd::prelude::*;
use crate::collectors::probe::opt_text;
use crate::models::category::Category;
use crate::models::item::{InventoryItem, PackageSource};
use crate::paths::{join_path, path_join};
use crate::text::{
    cat, chars_of, split_chars, split_spec, split_whitespace_chars, string_of, strip_leading,
    strip_leading_chars, trim_chars, trim_spec, words_spec,
};

verus! {

/// The uv collector: where the `uv` binary is, if anywhere.
pub struct PythonCollector {
    pub uv_bin: Option<String>,
}

impl PythonCollector {
    /// A collector for the `uv` binary found (see `which_binary`).
    pub fn new(uv_bin: Option<String>) -> (r: Self)
        ensures
            r.uv_bin == uv_bin,
    {
        PythonCollector { uv_bin }
    }

    /// The collector's name.
    pub fn name(&self) -> (r: &'static str)
        ensures
            r@ == "python_uv"@,
    {
        "python_uv"
    }

    /// Whether uv was found.
    pub fn is_available(&self) -> (r: bool)
        ensures
            r == self.uv_bin is Some,
    {
        self.uv_bin.is_some()
    }
}

/// The lines of a command's output (the text between line breaks).
pub open spec fn text_lines(s: Seq<char>) -> Seq<Seq<char>> {
    split_spec(s, seq!['\n'])
}

/// The lines of a text, as character vectors.
pub fn lines_of(s: &str) -> (r: Vec<Vec<char>>)
    ensures
        r@.len() == text_lines(s@).len(),
        forall|i: int| 0 <= i < r@.len() ==> #[trigger] r@[i]@ == text_lines(s@)[i],
{
    let c = chars_of(s);
    let seps = vec!['\n'];
    assert(seps@ =~= seq!['\n']);
    split_chars(&c, &seps)
}

/// Whether a line of `uv tool list` names a tool: not empty, not a `-` line.
pub open spec fn uv_line_kept(line: Seq<char>) -> bool {
    let t = trim_spec(line);
    t.len() > 0 && t[0] != '-' && words_spec(t).len() > 0 && words_spec(t)[0].len() > 0
}

/// The item of a tool line.
pub open spec fn uv_item(line: Seq<char>, home: Seq<char>, it: InventoryItem) -> bool {
    let w = words_spec(trim_spec(line));
    let name = w[0];
    &&& it.id@ == "uv:tool:"@ + name
    &&& it.name@ == name
    &&& it.source == PackageSource::UvTool
    &&& opt_text(it.version) == (if w.len() >= 2 {
        Some(strip_leading(w[1], 'v'))
    } else {
        None
    })
    &&& it.install_path@ == join_path(join_path(home, ".local/share/uv/tools"@), name)
    &&& it.size_bytes == 0
    &&& it.last_accessed_at is None
    &&& it.last_modified_at is None
    &&& it.is_top_level
    &&& it.required_by@.len() == 0
    &&& it.category == Category::CliDeveloperTools
    &&& opt_text(it.uninstall_cmd) == Some("uv tool uninstall "@ + name)
    &&& opt_text(it.reinstall_cmd) == Some("uv tool install "@ + name)
}

/// `items` are the items of the tool lines among `lines`, in order.
pub open spec fn uv_items_ok(lines: Seq<Seq<char>>, home: Seq<char>, items: Seq<InventoryItem>) -> bool
    decreases lines.len(),
{
    if lines.len() == 0 {
        items.len() == 0
    } else if !uv_line_kept(lines.last()) {
        uv_items_ok(lines.drop_last(), home, items)
    } else {
        items.len() > 0 && uv_items_ok(lines.drop_last(), home, items.drop_last()) && uv_item(
            lines.last(),
            home,
            items.last(),
        )
    }
}

/// The item of a tool line, or `None` for a line that names no tool.
fn uv_line(line: &Vec<char>, home: &str) -> (r: Option<InventoryItem>)
    ensures
        r is Some <==> uv_line_kept(line@),
        r matches Some(it) ==> uv_item(line@, home@, it),
{
    let t = trim_chars(line.as_slice());
    if t.len() == 0 || t[0] == '-' {
        return None;
    }
    let w = split_whitespace_chars(&t);
    if w.len() == 0 || w[0].len() == 0 {
        return None;
    }
    let name = string_of(w[0].as_slice());
    let version = if w.len() >= 2 {
        let v = strip_leading_chars(w[1].as_slice(), 'v');
        Some(string_of(v.as_slice()))
    } else {
        None
    };
    let tools = path_join(home, ".local/share/uv/tools");
    Some(InventoryItem {
        id: cat("uv:tool:", name.as_str()),
        name: crate::text::owned(name.as_str()),
        source: PackageSource::UvTool,
        version,
        install_path: path_join(tools.as_str(), name.as_str()),
        size_bytes: 0,
        last_accessed_at: None,
        last_modified_at: None,
        is_top_level: true,
        required_by: Vec::new(),
        category: Category::CliDeveloperTools,
        uninstall_cmd: Some(cat("uv tool uninstall ", name.as_str())),
        reinstall_cmd: Some(cat("uv tool install ", name.as_str())),
    })
}

/// The items of `uv tool list`: one per tool line, in order; `home` is the home
/// directory (or `/tmp`).
pub fn uv_tool_items(stdout: &str, home: &str) -> (r: Vec<InventoryItem>)
    ensures
        uv_items_ok(text_lines(stdout@), home@, r@),
{
    let lines = lines_of(stdout);
    let ghost ls = text_lines(stdout@);
    let mut r: Vec<InventoryItem> = Vec::new();
    let mut i: usize = 0;
    while i < lines.len()
        invariant
            i <= lines@.len(),
            lines@.len() == ls.len(),
            forall|k: int| 0 <= k < lines@.len() ==> #[trigger] lines@[k]@ == ls[k],
            uv_items_ok(ls.take(i as int), home@, r@),
        decreases lines@.len() - i,
    {
        let ghost t1 = ls.take(i + 1);
        assert(t1.drop_last() =~= ls.take(i as int));
        assert(t1.last() == lines@[i as int]@);
        match uv_line(&lines[i], home) {
            Some(it) => {
                let ghost before = r@;
                r.push(it);
                assert(r@.drop_last() =~= before);
            },
            None => {},
        }
        i = i + 1;
    }
    assert(ls.take(i as int) =~= ls);
    r
}

} // verus!
