//! What the dashboard shows: each line as pieces of text with a colour and a
//! weight, built from the state and proved equal to its description.

use vstd::prelude::*;
use crate::cleanup::script_gen::total_size;
use crate::size::{format_bytes, format_bytes_spec};
use crate::text::{
    append_str, cat, cat3, chars_of, decimal, join_with, owned, prefix_upto, sep_joined, u64_decimal, utf8_len,
    utf8_len_at_least, utf8_prefix,
};
use crate::clock::{minute_stamp, minute_stamp_text, second_stamp, second_stamp_text};
use crate::models::tombstone::PackageTombstone;
use crate::engine::dep_graph::{lists, lists_exec};
use crate::models::category::{Category, category_display, category_name};
use crate::models::item::{AssociatedMetadata, InventoryItem, PackageStatus, Timestamp, inactivity_at, last_access_text, source_icon, source_label, status_of};
use crate::report::{status_detail, status_detail_text, status_short, status_short_text};
use crate::tui::app::{
    App, InputMode, category_names, marked_size, orphan_total, sort_label, spinner_frame,
    summary_ok, text_set, upper_texts,
};

verus! {

/// A colour of the dashboard's palette (`Plain`: the surrounding block's).
#[derive(Debug, Clone, Copy, PartialEq, Eq, Structural)]
pub enum Tone {
    Plain,
    Cyan,
    Yellow,
    White,
    Magenta,
    Green,
    Red,
    LightBlue,
    LightCyan,
    LightYellow,
    LightGreen,
    LightRed,
    DarkGray,
}

/// A run of text with its colour and weight.
#[derive(Debug)]
pub struct Piece {
    pub text: String,
    pub tone: Tone,
    pub bold: bool,
}

/// What a piece shows.
pub open spec fn piece_view(p: Piece) -> (Seq<char>, Tone, bool) {
    (p.text@, p.tone, p.bold)
}

/// What a line of pieces shows.
pub open spec fn line_view(v: Seq<Piece>) -> Seq<(Seq<char>, Tone, bool)> {
    v.map_values(|p: Piece| piece_view(p))
}

/// Plain text.
pub open spec fn raw(t: Seq<char>) -> (Seq<char>, Tone, bool) {
    (t, Tone::Plain, false)
}

fn put(v: &mut Vec<Piece>, text: String, tone: Tone, bold: bool)
    ensures
        line_view(final(v)@) == line_view(old(v)@).push((text@, tone, bold)),
{
    v.push(Piece { text, tone, bold });
    assert(line_view(v@) =~= line_view(old(v)@).push((text@, tone, bold)));
}

fn put_str(v: &mut Vec<Piece>, text: &str, tone: Tone, bold: bool)
    ensures
        line_view(final(v)@) == line_view(old(v)@).push((text@, tone, bold)),
{
    put(v, owned(text), tone, bold);
}

// ---------------------------------------------------------------------------
// The header line
// ---------------------------------------------------------------------------

/// `count (size)`.
pub open spec fn count_and_size(n: int, b: int) -> Seq<char> {
    decimal(n as nat) + " ("@ + format_bytes_spec(b as nat) + ")"@
}

/// The header of the history view.
pub open spec fn history_header(n: nat) -> Seq<(Seq<char>, Tone, bool)> {
    seq![
        (" 🏛️ etop History & Tombstone Archive "@, Tone::Cyan, true),
        raw(" | Archived Removals: "@),
        (decimal(n), Tone::Yellow, true),
        raw(" | Press [Esc/h] to return to Live Inventory"@),
    ]
}

/// The start of the inventory header: the counts, and while loading the spinner,
/// else the totals and the sort.
pub open spec fn header_start(app: App) -> Seq<(Seq<char>, Tone, bool)> {
    let items = app.items@;
    let counts = decimal(app.filtered_indices@.len()) + "/"@ + decimal(items.len());
    if app.is_loading {
        seq![
            (" ⚡ etop "@, Tone::Cyan, true),
            (" "@ + spinner_frame(app.spin_idx as int) + " "@, Tone::Yellow, true),
            ("Auditing macOS toolchains..."@, Tone::Yellow, false),
            raw(" | Items: "@),
            (counts, Tone::White, true),
        ]
    } else {
        seq![
            (" ⚡ etop "@, Tone::Cyan, true),
            raw(" | Items: "@),
            (counts, Tone::White, true),
            raw(" | Orphans: "@),
            (count_and_size(orphan_total(items).0, orphan_total(items).1), Tone::Magenta, true),
            raw(" | Marked: "@),
            (count_and_size(
                text_set(app.marked_for_prune@).len() as int,
                marked_size(items, text_set(app.marked_for_prune@)),
            ), Tone::Green, true),
            raw(" | Sort: "@),
            (sort_label(app.active_sort), Tone::LightBlue, false),
        ]
    }
}

/// The ecosystem and category filters of the header, when any is active.
pub open spec fn header_choices(app: App, eco: Seq<char>, cats: Seq<char>) -> Seq<(Seq<char>, Tone, bool)> {
    let e = if app.active_ecosystems@.len() > 0 {
        seq![raw(" | Eco: "@), (eco, Tone::LightCyan, true)]
    } else {
        seq![]
    };
    let c = if app.active_categories@.len() > 0 {
        seq![raw(" | Cat: "@), (cats, Tone::Yellow, false)]
    } else {
        seq![]
    };
    e + c
}

/// A marker shown while its toggle is on.
pub open spec fn flag_part(on: bool, text: Seq<char>, tone: Tone) -> Seq<(Seq<char>, Tone, bool)> {
    if on { seq![(text, tone, true)] } else { seq![] }
}

/// The inactivity threshold, when one is set.
pub open spec fn days_part(days: Option<u64>) -> Seq<(Seq<char>, Tone, bool)> {
    match days {
        Some(d) => seq![raw(" | Inactive: "@), (">"@ + decimal(d as nat) + "d"@, Tone::LightYellow, false)],
        None => seq![],
    }
}

/// The search query, when there is one.
pub open spec fn search_part(q: Seq<char>) -> Seq<(Seq<char>, Tone, bool)> {
    if q.len() > 0 {
        seq![raw(" | 🔍 \""@), (q, Tone::LightGreen, true), raw("\""@)]
    } else {
        seq![]
    }
}

/// The inactivity threshold, the toggles and the search of the header.
pub open spec fn header_flags(app: App) -> Seq<(Seq<char>, Tone, bool)> {
    days_part(app.min_inactivity_days) + flag_part(app.only_orphans, " [ORPHANS]"@, Tone::Magenta)
        + flag_part(app.only_caches, " [CACHES]"@, Tone::Yellow) + flag_part(
        app.only_top_level,
        " [TOP-LEVEL]"@,
        Tone::Cyan,
    ) + search_part(app.search_query@)
}

/// The header of the inventory view, given the texts of the ecosystem and
/// category summaries.
pub open spec fn inventory_header(app: App, eco: Seq<char>, cats: Seq<char>) -> Seq<(Seq<char>, Tone, bool)> {
    header_start(app) + header_choices(app, eco, cats) + header_flags(app)
}

fn count_size_text(n: usize, b: u64) -> (r: String)
    ensures
        r@ == count_and_size(n as int, b as int),
{
    let mut s = u64_decimal(n as u64);
    append_str(&mut s, " (");
    append_str(&mut s, format_bytes(b).as_str());
    append_str(&mut s, ")");
    s
}

impl App {
    /// The header line: in the history view, the number of archived removals; else
    /// the counts, the totals, the sort and the active filters.
    pub fn header_line(&self) -> (r: Vec<Piece>)
        requires
            self.input_mode != InputMode::HistoryView ==> total_size(self.items@) <= u64::MAX,
            self.input_mode != InputMode::HistoryView ==> self.spin_idx < 10,
        ensures
            self.input_mode == InputMode::HistoryView ==> line_view(r@) == history_header(self.tombstones@.len()),
            self.input_mode != InputMode::HistoryView ==> exists|eco: Seq<char>, cats: Seq<char>|
                summary_ok(upper_texts(self.active_ecosystems@), eco) && summary_ok(
                    category_names(self.active_categories@),
                    cats,
                ) && line_view(r@) == inventory_header(*self, eco, cats),
    {
        let mut v: Vec<Piece> = Vec::new();
        if self.input_mode == InputMode::HistoryView {
            put_str(&mut v, " 🏛️ etop History & Tombstone Archive ", Tone::Cyan, true);
            put_str(&mut v, " | Archived Removals: ", Tone::Plain, false);
            put(&mut v, u64_decimal(self.tombstones.len() as u64), Tone::Yellow, true);
            put_str(&mut v, " | Press [Esc/h] to return to Live Inventory", Tone::Plain, false);
            assert(line_view(v@) =~= history_header(self.tombstones@.len()));
            return v;
        }
        let eco = self.ecosystems_summary();
        let cats = self.categories_summary();
        let mut v = self.header_start_line();
        self.put_choices(&mut v, eco.as_str(), cats.as_str());
        self.put_flags(&mut v);
        proof {
            assert(line_view(v@) =~= inventory_header(*self, eco@, cats@));
        }
        v
    }

    fn header_start_line(&self) -> (r: Vec<Piece>)
        requires
            total_size(self.items@) <= u64::MAX,
            self.spin_idx < 10,
        ensures
            line_view(r@) == header_start(*self),
    {
        let mut v: Vec<Piece> = Vec::new();
        let mut counts = u64_decimal(self.filtered_indices.len() as u64);
        append_str(&mut counts, "/");
        append_str(&mut counts, u64_decimal(self.items.len() as u64).as_str());
        put_str(&mut v, " ⚡ etop ", Tone::Cyan, true);
        if self.is_loading {
            put(&mut v, cat3(" ", self.spinner(), " "), Tone::Yellow, true);
            put_str(&mut v, "Auditing macOS toolchains...", Tone::Yellow, false);
            put_str(&mut v, " | Items: ", Tone::Plain, false);
            put(&mut v, counts, Tone::White, true);
        } else {
            let totals = self.header_totals();
            put_str(&mut v, " | Items: ", Tone::Plain, false);
            put(&mut v, counts, Tone::White, true);
            put_str(&mut v, " | Orphans: ", Tone::Plain, false);
            put(&mut v, count_size_text(totals.2, totals.3), Tone::Magenta, true);
            put_str(&mut v, " | Marked: ", Tone::Plain, false);
            put(&mut v, count_size_text(totals.0, totals.1), Tone::Green, true);
            put_str(&mut v, " | Sort: ", Tone::Plain, false);
            put_str(&mut v, self.active_sort.label(), Tone::LightBlue, false);
        }
        assert(line_view(v@) =~= header_start(*self));
        v
    }

    fn put_choices(&self, v: &mut Vec<Piece>, eco: &str, cats: &str)
        ensures
            line_view(final(v)@) == line_view(old(v)@) + header_choices(*self, eco@, cats@),
    {
        let ghost before = line_view(v@);
        if self.active_ecosystems.len() > 0 {
            put_str(v, " | Eco: ", Tone::Plain, false);
            put_str(v, eco, Tone::LightCyan, true);
        }
        let ghost mid = line_view(v@);
        if self.active_categories.len() > 0 {
            put_str(v, " | Cat: ", Tone::Plain, false);
            put_str(v, cats, Tone::Yellow, false);
        }
        proof {
            let e = if self.active_ecosystems@.len() > 0 {
                seq![raw(" | Eco: "@), (eco@, Tone::LightCyan, true)]
            } else {
                seq![]
            };
            assert(mid =~= before + e);
            assert(line_view(v@) =~= before + header_choices(*self, eco@, cats@));
        }
    }

    fn put_flags(&self, v: &mut Vec<Piece>)
        ensures
            line_view(final(v)@) == line_view(old(v)@) + header_flags(*self),
    {
        let ghost s0 = line_view(v@);
        put_days(v, self.min_inactivity_days);
        put_flag(v, self.only_orphans, " [ORPHANS]", Tone::Magenta);
        put_flag(v, self.only_caches, " [CACHES]", Tone::Yellow);
        put_flag(v, self.only_top_level, " [TOP-LEVEL]", Tone::Cyan);
        put_search(v, self.search_query.as_str());
        assert(line_view(v@) =~= s0 + header_flags(*self));
    }
}

fn put_flag(v: &mut Vec<Piece>, on: bool, text: &str, tone: Tone)
    ensures
        line_view(final(v)@) == line_view(old(v)@) + flag_part(on, text@, tone),
{
    if on {
        put_str(v, text, tone, true);
    }
    assert(line_view(v@) =~= line_view(old(v)@) + flag_part(on, text@, tone));
}

fn put_days(v: &mut Vec<Piece>, days: Option<u64>)
    ensures
        line_view(final(v)@) == line_view(old(v)@) + days_part(days),
{
    match days {
        Some(d) => {
            put_str(v, " | Inactive: ", Tone::Plain, false);
            put(v, cat3(">", u64_decimal(d).as_str(), "d"), Tone::LightYellow, false);
        },
        None => {},
    }
    assert(line_view(v@) =~= line_view(old(v)@) + days_part(days));
}

fn put_search(v: &mut Vec<Piece>, q: &str)
    ensures
        line_view(final(v)@) == line_view(old(v)@) + search_part(q@),
{
    if chars_of(q).len() > 0 {
        put_str(v, " | 🔍 \"", Tone::Plain, false);
        put_str(v, q, Tone::LightGreen, true);
        put_str(v, "\"", Tone::Plain, false);
    }
    assert(line_view(v@) =~= line_view(old(v)@) + search_part(q@));
}

// ---------------------------------------------------------------------------
// The footer line
// ---------------------------------------------------------------------------

/// A bold piece.
pub open spec fn strong(t: Seq<char>, tone: Tone) -> (Seq<char>, Tone, bool) {
    (t, tone, true)
}

/// A piece in a colour, not bold.
pub open spec fn tinted(t: Seq<char>, tone: Tone) -> (Seq<char>, Tone, bool) {
    (t, tone, false)
}

/// The footer of the history view.
pub open spec fn history_footer() -> Seq<(Seq<char>, Tone, bool)> {
    seq![
        strong(" [j/k/↑/↓] "@, Tone::Yellow),
        raw("Navigate  "@),
        strong("[Esc / Enter / h] "@, Tone::Cyan),
        raw("Return to Live Inventory"@),
    ]
}

/// The footer while a search is typed.
pub open spec fn search_footer(q: Seq<char>) -> Seq<(Seq<char>, Tone, bool)> {
    seq![
        strong(" 🔍 SEARCH: "@, Tone::Yellow),
        strong(q, Tone::White),
        tinted("█"@, Tone::Cyan),
        tinted("  (Press Enter/Esc to confirm)"@, Tone::DarkGray),
    ]
}

/// `[ON]` in the toggle's colour, or a grey `[off]`.
pub open spec fn on_badge(on: bool, tone: Tone) -> (Seq<char>, Tone, bool) {
    if on { strong("[ON]"@, tone) } else { tinted("[off]"@, Tone::DarkGray) }
}

/// A green tick, or a grey empty box.
pub open spec fn tick_badge(on: bool) -> (Seq<char>, Tone, bool) {
    if on { strong("[✓]"@, Tone::Green) } else { tinted("[ ]"@, Tone::DarkGray) }
}

/// The inactivity threshold as the filter menu shows it.
pub open spec fn inactivity_text(days: Option<u64>) -> Seq<char> {
    match days {
        Some(d) => ">"@ + decimal(d as nat) + "d"@,
        None => "ALL"@,
    }
}

/// The toggles of the filter menu.
pub open spec fn filter_toggles(app: App) -> Seq<(Seq<char>, Tone, bool)> {
    seq![
        strong(" 🎛️ FILTER: "@, Tone::Magenta),
        strong("[o] "@, Tone::Yellow),
        raw("Orphans "@),
        on_badge(app.only_orphans, Tone::Magenta),
        raw("  "@),
        strong("[c] "@, Tone::Yellow),
        raw("Caches "@),
        on_badge(app.only_caches, Tone::Yellow),
        raw("  "@),
        strong("[t] "@, Tone::Yellow),
        raw("Top-Level "@),
        on_badge(app.only_top_level, Tone::Cyan),
        raw("  "@),
    ]
}

/// The sub-menus of the filter menu, given the summaries' texts.
pub open spec fn filter_choices(app: App, eco: Seq<char>, cats: Seq<char>) -> Seq<(Seq<char>, Tone, bool)> {
    seq![
        strong("[e] "@, Tone::Cyan),
        tinted("Eco:"@ + eco + " -> "@, Tone::LightCyan),
        strong("[d] "@, Tone::Green),
        tinted("Domain:"@ + cats + " -> "@, Tone::LightGreen),
        strong("[i] "@, Tone::LightYellow),
        tinted("Inact:"@ + inactivity_text(app.min_inactivity_days) + " "@, Tone::LightYellow),
        strong("[a] "@, Tone::White),
        raw("Reset  "@),
        strong("[Esc/Enter] "@, Tone::Red),
        raw("Done"@),
    ]
}

/// The footer of the filter menu.
pub open spec fn filter_footer(app: App, eco: Seq<char>, cats: Seq<char>) -> Seq<(Seq<char>, Tone, bool)> {
    filter_toggles(app) + filter_choices(app, eco, cats)
}

/// One entry of a selection menu.
pub open spec fn choice(on: bool, label: Seq<char>, hotkey: Seq<char>) -> Seq<(Seq<char>, Tone, bool)> {
    seq![strong("["@ + hotkey + "] "@, Tone::Yellow), raw(label + " "@), tick_badge(on), raw("  "@)]
}

/// The end of a selection menu.
pub open spec fn menu_end() -> Seq<(Seq<char>, Tone, bool)> {
    seq![strong("[x] "@, Tone::White), raw("All  "@), strong("[Esc/Enter] "@, Tone::Red), raw("Back"@)]
}

/// The footer of the ecosystem menu.
pub open spec fn ecosystem_footer(ecos: Seq<String>) -> Seq<(Seq<char>, Tone, bool)> {
    seq![strong(" 🌐 ECOSYSTEMS: "@, Tone::Cyan)]
        + choice(lists(ecos, "ruby"@), "Ruby"@, "r"@)
        + choice(lists(ecos, "rust"@), "Rust"@, "u"@)
        + choice(lists(ecos, "js"@), "JS"@, "j"@)
        + choice(lists(ecos, "python"@), "Py"@, "p"@)
        + choice(lists(ecos, "go"@), "Go"@, "g"@)
        + choice(lists(ecos, "brew"@), "Brew"@, "b"@)
        + choice(lists(ecos, "mise"@), "Mise"@, "m"@)
        + choice(lists(ecos, "apps"@), "Apps"@, "a"@)
        + choice(lists(ecos, "cache"@), "Cache"@, "c"@)
        + choice(lists(ecos, "docker"@), "Docker"@, "k"@)
        + menu_end()
}

/// The footer of the category menu.
pub open spec fn category_footer(cats: Seq<Category>) -> Seq<(Seq<char>, Tone, bool)> {
    seq![strong(" 🗂️ DOMAINS: "@, Tone::Green)]
        + choice(cats.contains(Category::LanguagesAndRuntimes), "Runtimes"@, "r"@)
        + choice(cats.contains(Category::DatabasesAndStorage), "DB"@, "d"@)
        + choice(cats.contains(Category::CliDeveloperTools), "CLI"@, "c"@)
        + choice(cats.contains(Category::InfrastructureAndCloud), "Infra"@, "i"@)
        + choice(cats.contains(Category::BuildAndPackageManagers), "PkgMgr"@, "p"@)
        + choice(cats.contains(Category::GuiAppsAndMedia), "GUI"@, "g"@)
        + choice(cats.contains(Category::BuildArtifactsAndCaches), "Cache"@, "b"@)
        + choice(cats.contains(Category::SystemAndLibraries), "System"@, "s"@)
        + menu_end()
}

/// The footer of the sort menu.
pub open spec fn sort_footer() -> Seq<(Seq<char>, Tone, bool)> {
    seq![
        strong(" 📊 SORT: "@, Tone::LightBlue),
        strong("[1] "@, Tone::Yellow),
        raw("Disk Size  "@),
        strong("[2] "@, Tone::Yellow),
        raw("Name (A-Z)  "@),
        strong("[3] "@, Tone::Yellow),
        raw("Inactivity  "@),
        strong("[4] "@, Tone::Yellow),
        raw("Source Eco  "@),
        strong("[5] "@, Tone::Yellow),
        raw("Category  "@),
        strong("[Esc/Enter] "@, Tone::Red),
        raw("Done"@),
    ]
}

/// The footer of the mark menu.
pub open spec fn mark_footer() -> Seq<(Seq<char>, Tone, bool)> {
    seq![
        strong(" 🏷️ MARK: "@, Tone::Green),
        strong("[a] "@, Tone::Yellow),
        raw("Mark All Visible  "@),
        strong("[o] "@, Tone::Magenta),
        raw("Mark Orphans  "@),
        strong("[c] "@, Tone::Yellow),
        raw("Mark Caches  "@),
        strong("[x] "@, Tone::Red),
        raw("Clear All Marks  "@),
        strong("[Esc/Enter] "@, Tone::White),
        raw("Done"@),
    ]
}

/// The keys of the main view.
pub open spec fn main_keys() -> Seq<(Seq<char>, Tone, bool)> {
    seq![
        strong(" [f] "@, Tone::Magenta),
        raw("Filter  "@),
        strong("[s] "@, Tone::LightBlue),
        raw("Sort  "@),
        strong("[m] "@, Tone::Green),
        raw("Mark  "@),
        strong("[h] "@, Tone::Cyan),
        raw("History  "@),
        strong("[/] "@, Tone::Yellow),
        raw("Search  "@),
        strong("[Space] "@, Tone::Green),
        raw("Toggle  "@),
        strong("[x] "@, Tone::LightGreen),
        strong("Export Cleanup  "@, Tone::LightGreen),
        strong("[?] "@, Tone::Cyan),
        raw("Help  "@),
        strong("[q] "@, Tone::Red),
        raw("Quit"@),
    ]
}

/// The footer of the main view: its keys, then the last status message.
pub open spec fn main_footer(msg: Option<(Seq<char>, bool)>) -> Seq<(Seq<char>, Tone, bool)> {
    match msg {
        Some((m, ok)) => main_keys() + seq![
            raw(" | "@),
            tinted("📢 "@ + m, if ok { Tone::LightGreen } else { Tone::LightRed }),
        ],
        None => main_keys(),
    }
}

/// The status message as text.
pub open spec fn message_view(m: Option<(String, bool)>) -> Option<(Seq<char>, bool)> {
    match m {
        Some((t, ok)) => Some((t@, ok)),
        None => None,
    }
}

fn put_choice(v: &mut Vec<Piece>, on: bool, label: &str, hotkey: &str)
    ensures
        line_view(final(v)@) == line_view(old(v)@) + choice(on, label@, hotkey@),
{
    put(v, cat3("[", hotkey, "] "), Tone::Yellow, true);
    put(v, cat(label, " "), Tone::Plain, false);
    if on {
        put_str(v, "[✓]", Tone::Green, true);
    } else {
        put_str(v, "[ ]", Tone::DarkGray, false);
    }
    put_str(v, "  ", Tone::Plain, false);
    assert(line_view(v@) =~= line_view(old(v)@) + choice(on, label@, hotkey@));
}

fn put_menu_end(v: &mut Vec<Piece>)
    ensures
        line_view(final(v)@) == line_view(old(v)@) + menu_end(),
{
    put_str(v, "[x] ", Tone::White, true);
    put_str(v, "All  ", Tone::Plain, false);
    put_str(v, "[Esc/Enter] ", Tone::Red, true);
    put_str(v, "Back", Tone::Plain, false);
    assert(line_view(v@) =~= line_view(old(v)@) + menu_end());
}

fn put_on_badge(v: &mut Vec<Piece>, on: bool, tone: Tone)
    ensures
        line_view(final(v)@) == line_view(old(v)@).push(on_badge(on, tone)),
{
    if on {
        put_str(v, "[ON]", tone, true);
    } else {
        put_str(v, "[off]", Tone::DarkGray, false);
    }
}

fn has_category(v: &Vec<Category>, c: Category) -> (r: bool)
    ensures
        r == v@.contains(c),
{
    let mut i: usize = 0;
    while i < v.len()
        invariant
            i <= v@.len(),
            forall|j: int| 0 <= j < i ==> v@[j] != c,
        decreases v@.len() - i,
    {
        if v[i] == c {
            assert(v@[i as int] == c);
            return true;
        }
        i += 1;
    }
    false
}

fn history_footer_line() -> (r: Vec<Piece>)
    ensures
        line_view(r@) == history_footer(),
{
    let mut v: Vec<Piece> = Vec::new();
    put_str(&mut v, " [j/k/↑/↓] ", Tone::Yellow, true);
    put_str(&mut v, "Navigate  ", Tone::Plain, false);
    put_str(&mut v, "[Esc / Enter / h] ", Tone::Cyan, true);
    put_str(&mut v, "Return to Live Inventory", Tone::Plain, false);
    assert(line_view(v@) =~= history_footer());
    v
}

fn search_footer_line(q: &str) -> (r: Vec<Piece>)
    ensures
        line_view(r@) == search_footer(q@),
{
    let mut v: Vec<Piece> = Vec::new();
    put_str(&mut v, " 🔍 SEARCH: ", Tone::Yellow, true);
    put_str(&mut v, q, Tone::White, true);
    put_str(&mut v, "█", Tone::Cyan, false);
    put_str(&mut v, "  (Press Enter/Esc to confirm)", Tone::DarkGray, false);
    assert(line_view(v@) =~= search_footer(q@));
    v
}

fn sort_footer_line() -> (r: Vec<Piece>)
    ensures
        line_view(r@) == sort_footer(),
{
    let mut v: Vec<Piece> = Vec::new();
    put_str(&mut v, " 📊 SORT: ", Tone::LightBlue, true);
    put_str(&mut v, "[1] ", Tone::Yellow, true);
    put_str(&mut v, "Disk Size  ", Tone::Plain, false);
    put_str(&mut v, "[2] ", Tone::Yellow, true);
    put_str(&mut v, "Name (A-Z)  ", Tone::Plain, false);
    put_str(&mut v, "[3] ", Tone::Yellow, true);
    put_str(&mut v, "Inactivity  ", Tone::Plain, false);
    put_str(&mut v, "[4] ", Tone::Yellow, true);
    put_str(&mut v, "Source Eco  ", Tone::Plain, false);
    put_str(&mut v, "[5] ", Tone::Yellow, true);
    put_str(&mut v, "Category  ", Tone::Plain, false);
    put_str(&mut v, "[Esc/Enter] ", Tone::Red, true);
    put_str(&mut v, "Done", Tone::Plain, false);
    assert(line_view(v@) =~= sort_footer());
    v
}

fn mark_footer_line() -> (r: Vec<Piece>)
    ensures
        line_view(r@) == mark_footer(),
{
    let mut v: Vec<Piece> = Vec::new();
    put_str(&mut v, " 🏷️ MARK: ", Tone::Green, true);
    put_str(&mut v, "[a] ", Tone::Yellow, true);
    put_str(&mut v, "Mark All Visible  ", Tone::Plain, false);
    put_str(&mut v, "[o] ", Tone::Magenta, true);
    put_str(&mut v, "Mark Orphans  ", Tone::Plain, false);
    put_str(&mut v, "[c] ", Tone::Yellow, true);
    put_str(&mut v, "Mark Caches  ", Tone::Plain, false);
    put_str(&mut v, "[x] ", Tone::Red, true);
    put_str(&mut v, "Clear All Marks  ", Tone::Plain, false);
    put_str(&mut v, "[Esc/Enter] ", Tone::White, true);
    put_str(&mut v, "Done", Tone::Plain, false);
    assert(line_view(v@) =~= mark_footer());
    v
}

fn main_keys_line() -> (r: Vec<Piece>)
    ensures
        line_view(r@) == main_keys(),
{
    let mut v: Vec<Piece> = Vec::new();
    put_str(&mut v, " [f] ", Tone::Magenta, true);
    put_str(&mut v, "Filter  ", Tone::Plain, false);
    put_str(&mut v, "[s] ", Tone::LightBlue, true);
    put_str(&mut v, "Sort  ", Tone::Plain, false);
    put_str(&mut v, "[m] ", Tone::Green, true);
    put_str(&mut v, "Mark  ", Tone::Plain, false);
    put_str(&mut v, "[h] ", Tone::Cyan, true);
    put_str(&mut v, "History  ", Tone::Plain, false);
    put_str(&mut v, "[/] ", Tone::Yellow, true);
    put_str(&mut v, "Search  ", Tone::Plain, false);
    put_str(&mut v, "[Space] ", Tone::Green, true);
    put_str(&mut v, "Toggle  ", Tone::Plain, false);
    put_str(&mut v, "[x] ", Tone::LightGreen, true);
    put_str(&mut v, "Export Cleanup  ", Tone::LightGreen, true);
    put_str(&mut v, "[?] ", Tone::Cyan, true);
    put_str(&mut v, "Help  ", Tone::Plain, false);
    put_str(&mut v, "[q] ", Tone::Red, true);
    put_str(&mut v, "Quit", Tone::Plain, false);
    assert(line_view(v@) =~= main_keys());
    v
}

fn main_footer_line(msg: &Option<(String, bool)>) -> (r: Vec<Piece>)
    ensures
        line_view(r@) == main_footer(message_view(*msg)),
{
    let mut v = main_keys_line();
    match msg {
        Some((m, ok)) => {
            put_str(&mut v, " | ", Tone::Plain, false);
            let tone = if *ok { Tone::LightGreen } else { Tone::LightRed };
            put(&mut v, cat("📢 ", m.as_str()), tone, false);
            assert(line_view(v@) =~= main_footer(message_view(*msg)));
        },
        None => {},
    }
    v
}

impl App {
    fn filter_footer_line(&self, eco: &str, cats: &str) -> (r: Vec<Piece>)
        ensures
            line_view(r@) == filter_footer(*self, eco@, cats@),
    {
        let mut v: Vec<Piece> = Vec::new();
        put_str(&mut v, " 🎛️ FILTER: ", Tone::Magenta, true);
        put_str(&mut v, "[o] ", Tone::Yellow, true);
        put_str(&mut v, "Orphans ", Tone::Plain, false);
        put_on_badge(&mut v, self.only_orphans, Tone::Magenta);
        put_str(&mut v, "  ", Tone::Plain, false);
        put_str(&mut v, "[c] ", Tone::Yellow, true);
        put_str(&mut v, "Caches ", Tone::Plain, false);
        put_on_badge(&mut v, self.only_caches, Tone::Yellow);
        put_str(&mut v, "  ", Tone::Plain, false);
        put_str(&mut v, "[t] ", Tone::Yellow, true);
        put_str(&mut v, "Top-Level ", Tone::Plain, false);
        put_on_badge(&mut v, self.only_top_level, Tone::Cyan);
        put_str(&mut v, "  ", Tone::Plain, false);
        let ghost toggles = line_view(v@);
        assert(toggles =~= filter_toggles(*self));
        let inact = match self.min_inactivity_days {
            Some(d) => cat3(">", u64_decimal(d).as_str(), "d"),
            None => owned("ALL"),
        };
        put_str(&mut v, "[e] ", Tone::Cyan, true);
        put(&mut v, cat3("Eco:", eco, " -> "), Tone::LightCyan, false);
        put_str(&mut v, "[d] ", Tone::Green, true);
        put(&mut v, cat3("Domain:", cats, " -> "), Tone::LightGreen, false);
        put_str(&mut v, "[i] ", Tone::LightYellow, true);
        put(&mut v, cat3("Inact:", inact.as_str(), " "), Tone::LightYellow, false);
        put_str(&mut v, "[a] ", Tone::White, true);
        put_str(&mut v, "Reset  ", Tone::Plain, false);
        put_str(&mut v, "[Esc/Enter] ", Tone::Red, true);
        put_str(&mut v, "Done", Tone::Plain, false);
        assert(line_view(v@) =~= toggles + filter_choices(*self, eco@, cats@));
        v
    }

    fn ecosystem_footer_line(&self) -> (r: Vec<Piece>)
        ensures
            line_view(r@) == ecosystem_footer(self.active_ecosystems@),
    {
        let e = &self.active_ecosystems;
        let mut v: Vec<Piece> = Vec::new();
        put_str(&mut v, " 🌐 ECOSYSTEMS: ", Tone::Cyan, true);
        assert(line_view(v@) =~= seq![strong(" 🌐 ECOSYSTEMS: "@, Tone::Cyan)]);
        put_choice(&mut v, lists_exec(e, chars_of("ruby").as_slice()), "Ruby", "r");
        put_choice(&mut v, lists_exec(e, chars_of("rust").as_slice()), "Rust", "u");
        put_choice(&mut v, lists_exec(e, chars_of("js").as_slice()), "JS", "j");
        put_choice(&mut v, lists_exec(e, chars_of("python").as_slice()), "Py", "p");
        put_choice(&mut v, lists_exec(e, chars_of("go").as_slice()), "Go", "g");
        put_choice(&mut v, lists_exec(e, chars_of("brew").as_slice()), "Brew", "b");
        put_choice(&mut v, lists_exec(e, chars_of("mise").as_slice()), "Mise", "m");
        put_choice(&mut v, lists_exec(e, chars_of("apps").as_slice()), "Apps", "a");
        put_choice(&mut v, lists_exec(e, chars_of("cache").as_slice()), "Cache", "c");
        put_choice(&mut v, lists_exec(e, chars_of("docker").as_slice()), "Docker", "k");
        put_menu_end(&mut v);
        v
    }

    fn category_footer_line(&self) -> (r: Vec<Piece>)
        ensures
            line_view(r@) == category_footer(self.active_categories@),
    {
        let c = &self.active_categories;
        let mut v: Vec<Piece> = Vec::new();
        put_str(&mut v, " 🗂️ DOMAINS: ", Tone::Green, true);
        assert(line_view(v@) =~= seq![strong(" 🗂️ DOMAINS: "@, Tone::Green)]);
        put_choice(&mut v, has_category(c, Category::LanguagesAndRuntimes), "Runtimes", "r");
        put_choice(&mut v, has_category(c, Category::DatabasesAndStorage), "DB", "d");
        put_choice(&mut v, has_category(c, Category::CliDeveloperTools), "CLI", "c");
        put_choice(&mut v, has_category(c, Category::InfrastructureAndCloud), "Infra", "i");
        put_choice(&mut v, has_category(c, Category::BuildAndPackageManagers), "PkgMgr", "p");
        put_choice(&mut v, has_category(c, Category::GuiAppsAndMedia), "GUI", "g");
        put_choice(&mut v, has_category(c, Category::BuildArtifactsAndCaches), "Cache", "b");
        put_choice(&mut v, has_category(c, Category::SystemAndLibraries), "System", "s");
        put_menu_end(&mut v);
        v
    }

    /// The footer line: the keys or the menu of the current mode; in the
    /// main view and the help, also the last status message.
    pub fn footer_line(&self) -> (r: Vec<Piece>)
        ensures
            self.input_mode == InputMode::HistoryView ==> line_view(r@) == history_footer(),
            self.input_mode == InputMode::Searching ==> line_view(r@) == search_footer(self.search_query@),
            self.input_mode == InputMode::FilterMenu ==> exists|eco: Seq<char>, cats: Seq<char>|
                summary_ok(upper_texts(self.active_ecosystems@), eco) && summary_ok(
                    category_names(self.active_categories@),
                    cats,
                ) && line_view(r@) == filter_footer(*self, eco, cats),
            self.input_mode == InputMode::EcosystemMenu ==> line_view(r@) == ecosystem_footer(
                self.active_ecosystems@,
            ),
            self.input_mode == InputMode::CategoryMenu ==> line_view(r@) == category_footer(
                self.active_categories@,
            ),
            self.input_mode == InputMode::SortMenu ==> line_view(r@) == sort_footer(),
            self.input_mode == InputMode::MarkMenu ==> line_view(r@) == mark_footer(),
            (self.input_mode == InputMode::Normal || self.input_mode == InputMode::HelpModal) ==> line_view(r@)
                == main_footer(message_view(self.status_message)),
    {
        match self.input_mode {
            InputMode::HistoryView => history_footer_line(),
            InputMode::Searching => search_footer_line(self.search_query.as_str()),
            InputMode::FilterMenu => {
                let eco = self.ecosystems_summary();
                let cats = self.categories_summary();
                let v = self.filter_footer_line(eco.as_str(), cats.as_str());
                assert(summary_ok(upper_texts(self.active_ecosystems@), eco@) && summary_ok(
                    category_names(self.active_categories@),
                    cats@,
                ) && line_view(v@) == filter_footer(*self, eco@, cats@));
                v
            },
            InputMode::EcosystemMenu => self.ecosystem_footer_line(),
            InputMode::CategoryMenu => self.category_footer_line(),
            InputMode::SortMenu => sort_footer_line(),
            InputMode::MarkMenu => mark_footer_line(),
            InputMode::Normal | InputMode::HelpModal => main_footer_line(&self.status_message),
        }
    }
}

// ---------------------------------------------------------------------------
// The package table
// ---------------------------------------------------------------------------

/// The colour in which a status is shown.
pub open spec fn status_tone(s: PackageStatus) -> Tone {
    match s {
        PackageStatus::Orphan => Tone::Magenta,
        PackageStatus::TopLevel => Tone::Cyan,
        PackageStatus::Dependency { .. } => Tone::Red,
        PackageStatus::BuildCache => Tone::Yellow,
        PackageStatus::ActiveRuntime => Tone::Green,
    }
}

/// The cells of an item's row at the moment `now`: mark, source, name,
/// category, size, status and last use.
pub open spec fn item_row(item: InventoryItem, marked: bool, now: Timestamp) -> Seq<(Seq<char>, Tone, bool)> {
    seq![
        tick_badge(marked),
        raw(source_icon(item.source) + " "@ + source_label(item.source)),
        strong(item.name@, Tone::Plain),
        raw(category_name(item.category)),
        raw(format_bytes_spec(item.size_bytes as nat)),
        strong(status_short(status_of(item)), status_tone(status_of(item))),
        raw(last_access_text(inactivity_at(item, now))),
    ]
}

/// The title of the package table.
pub open spec fn table_title(loading: bool, spin: int) -> Seq<char> {
    if loading {
        " Installed Packages & Artifacts "@ + spinner_frame(spin) + " Streaming live discoveries... "@
    } else {
        " Installed Packages & Artifacts "@
    }
}

fn status_tone_of(s: &PackageStatus) -> (r: Tone)
    ensures
        r == status_tone(*s),
{
    match s {
        PackageStatus::Orphan => Tone::Magenta,
        PackageStatus::TopLevel => Tone::Cyan,
        PackageStatus::Dependency { .. } => Tone::Red,
        PackageStatus::BuildCache => Tone::Yellow,
        PackageStatus::ActiveRuntime => Tone::Green,
    }
}

/// The cells of an item's row at the moment `now`.
pub fn item_row_at(item: &InventoryItem, marked: bool, now: Timestamp) -> (r: Vec<Piece>)
    ensures
        line_view(r@) == item_row(*item, marked, now),
{
    let mut v: Vec<Piece> = Vec::new();
    if marked {
        put_str(&mut v, "[✓]", Tone::Green, true);
    } else {
        put_str(&mut v, "[ ]", Tone::DarkGray, false);
    }
    put(&mut v, cat3(item.source.icon(), " ", item.source.label()), Tone::Plain, false);
    put(&mut v, item.name.clone(), Tone::Plain, true);
    put_str(&mut v, item.category.as_str(), Tone::Plain, false);
    put(&mut v, item.formatted_size(), Tone::Plain, false);
    let status = item.status();
    put(&mut v, status_short_text(&status), status_tone_of(&status), true);
    put(&mut v, item.formatted_last_accessed_at(now), Tone::Plain, false);
    assert(line_view(v@) =~= item_row(*item, marked, now));
    v
}

impl App {
    /// The cells of the table's row `i` (a position in the listing) at the
    /// moment `now`; the mark shows whether the item is marked for pruning.
    pub fn table_row(&self, i: usize, now: Timestamp) -> (r: Vec<Piece>)
        requires
            i < self.filtered_indices@.len(),
            self.filtered_indices@[i as int] < self.items@.len(),
        ensures
            line_view(r@) == item_row(
                self.items@[self.filtered_indices@[i as int] as int],
                lists(self.marked_for_prune@, self.items@[self.filtered_indices@[i as int] as int].id@),
                now,
            ),
    {
        let item = &self.items[self.filtered_indices[i]];
        let marked = lists_exec(&self.marked_for_prune, chars_of(item.id.as_str()).as_slice());
        item_row_at(item, marked, now)
    }

    /// The title of the package table, with the spinner while loading.
    pub fn table_title(&self) -> (r: String)
        requires
            self.spin_idx < 10,
        ensures
            r@ == table_title(self.is_loading, self.spin_idx as int),
    {
        if self.is_loading {
            cat3(" Installed Packages & Artifacts ", self.spinner(), " Streaming live discoveries... ")
        } else {
            owned(" Installed Packages & Artifacts ")
        }
    }
}

// ---------------------------------------------------------------------------
// The package inspector
// ---------------------------------------------------------------------------

/// What a list of lines shows.
pub open spec fn lines_view(v: Seq<Vec<Piece>>) -> Seq<Seq<(Seq<char>, Tone, bool)>> {
    v.map_values(|l: Vec<Piece>| line_view(l@))
}

/// A version, or `unknown`.
pub open spec fn version_text(v: Option<String>) -> Seq<char> {
    match v {
        Some(t) => t@,
        None => "unknown"@,
    }
}

/// A blank line, a title line, then one line per path; nothing for no paths.
pub open spec fn titled_paths(head: Seq<(Seq<char>, Tone, bool)>, paths: Seq<String>, tone: Tone) -> Seq<
    Seq<(Seq<char>, Tone, bool)>,
> {
    if paths.len() == 0 {
        seq![]
    } else {
        seq![seq![], head] + paths.map_values(|p: String| seq![raw("  • "@), tinted(p@, tone)])
    }
}

/// A titled list of paths with their count, after a blank line; nothing for no paths.
pub open spec fn path_section(title: Seq<char>, tone: Tone, word: Seq<char>, paths: Seq<String>) -> Seq<
    Seq<(Seq<char>, Tone, bool)>,
> {
    titled_paths(
        seq![strong(title, tone), tinted("("@ + decimal(paths.len()) + " "@ + word + ")"@, Tone::DarkGray)],
        paths,
        Tone::White,
    )
}

/// An environment value as the inspector shows it: cut to its first 37 bytes and
/// `...` when longer than 40 bytes.
pub open spec fn env_shown(v: Seq<char>) -> Seq<char> {
    if utf8_len(v) > 40 {
        prefix_upto(v, 37) + "..."@
    } else {
        v
    }
}

/// A long environment value can be cut after its 37th byte: a character ends there.
pub open spec fn env_cut_ok(v: Seq<char>) -> bool {
    utf8_len(v) > 40 ==> utf8_len(prefix_upto(v, 37)) == 37
}

/// The environment variables, after a blank line; nothing for none.
pub open spec fn env_section(env: Seq<(String, String)>) -> Seq<Seq<(Seq<char>, Tone, bool)>> {
    if env.len() == 0 {
        seq![]
    } else {
        seq![
            seq![],
            seq![
                strong("🌐 Environment Variables: "@, Tone::LightCyan),
                tinted("("@ + decimal(env.len()) + " active)"@, Tone::DarkGray),
            ],
        ] + env.map_values(
            |kv: (String, String)|
                seq![strong("  "@ + kv.0@ + "="@, Tone::LightGreen), tinted(env_shown(kv.1@), Tone::White)],
        )
    }
}

/// The name, category, status, size and path of an item.
pub open spec fn item_head(item: InventoryItem) -> Seq<Seq<(Seq<char>, Tone, bool)>> {
    let st = status_of(item);
    seq![
        seq![
            strong("📦 Package: "@, Tone::Cyan),
            strong(item.name@, Tone::White),
            raw(" ("@),
            tinted(version_text(item.version), Tone::Yellow),
            raw(")"@),
        ],
        seq![tinted("🏷️  Category: "@, Tone::Cyan), raw(category_display(item.category))],
        seq![tinted("🔗 Status: "@, Tone::Cyan), strong(status_detail(st), status_tone(st))],
        seq![tinted("💾 Real Disk Size: "@, Tone::Cyan), strong(format_bytes_spec(item.size_bytes as nat), Tone::Green)],
        seq![tinted("📂 Install Path: "@, Tone::Cyan), tinted(item.install_path@, Tone::DarkGray)],
    ]
}

/// The inactivity at `now` and the dependents of an item, where there are any.
pub open spec fn item_usage(item: InventoryItem, now: Timestamp) -> Seq<Seq<(Seq<char>, Tone, bool)>> {
    let days = match inactivity_at(item, now) {
        Some(d) => seq![
            seq![tinted("⏱️  Last Accessed: "@, Tone::Cyan), tinted(decimal(d as nat) + " days ago"@, Tone::White)],
        ],
        None => seq![],
    };
    let req = if item.required_by@.len() > 0 {
        seq![
            seq![
                strong("⛓️  Required By: "@, Tone::Red),
                tinted(sep_joined(item.required_by@.map_values(|p: String| p@), ", "@), Tone::LightRed),
            ],
        ]
    } else {
        seq![]
    };
    days + req
}

/// The associated files and variables of an item.
pub open spec fn item_meta(meta: AssociatedMetadata) -> Seq<Seq<(Seq<char>, Tone, bool)>> {
    path_section("⚙️  Preserved Configs: "@, Tone::Yellow, "found"@, meta.configs@) + path_section(
        "💾 Data & State Dirs: "@,
        Tone::Cyan,
        "found"@,
        meta.data_dirs@,
    ) + path_section("📜 Associated Logs: "@, Tone::Magenta, "found"@, meta.logs@) + path_section(
        "⚡ Associated Caches: "@,
        Tone::LightYellow,
        "found"@,
        meta.caches@,
    ) + env_section(meta.env_vars@)
}

/// A blank line, then the uninstall and reinstall commands of an item.
pub open spec fn item_commands(item: InventoryItem) -> Seq<Seq<(Seq<char>, Tone, bool)>> {
    let u = match item.uninstall_cmd {
        Some(c) => seq![
            seq![strong("✂️  Uninstall Command:\n"@, Tone::LightYellow), tinted("  "@ + c@, Tone::White)],
        ],
        None => seq![],
    };
    let r = match item.reinstall_cmd {
        Some(c) => seq![
            seq![],
            seq![strong("🔄 Reinstall Command:\n"@, Tone::LightGreen), tinted("  "@ + c@, Tone::White)],
        ],
        None => seq![],
    };
    seq![seq![]] + u + r
}

/// The inspector's lines for an item with its associated metadata, at `now`.
pub open spec fn item_detail(item: InventoryItem, meta: AssociatedMetadata, now: Timestamp) -> Seq<
    Seq<(Seq<char>, Tone, bool)>,
> {
    item_head(item) + item_usage(item, now) + item_meta(meta) + item_commands(item)
}

fn push_line(lines: &mut Vec<Vec<Piece>>, l: Vec<Piece>)
    ensures
        lines_view(final(lines)@) == lines_view(old(lines)@).push(line_view(l@)),
{
    let ghost lv = line_view(l@);
    lines.push(l);
    assert(lines_view(lines@) =~= lines_view(old(lines)@).push(lv));
}

fn push_blank(lines: &mut Vec<Vec<Piece>>)
    ensures
        lines_view(final(lines)@) == lines_view(old(lines)@).push(seq![]),
{
    let l: Vec<Piece> = Vec::new();
    assert(line_view(l@) =~= seq![]);
    push_line(lines, l);
}

fn two(a: &str, ta: Tone, ba: bool, b: String, tb: Tone, bb: bool) -> (r: Vec<Piece>)
    ensures
        line_view(r@) == seq![(a@, ta, ba), (b@, tb, bb)],
{
    let mut v: Vec<Piece> = Vec::new();
    put_str(&mut v, a, ta, ba);
    put(&mut v, b, tb, bb);
    assert(line_view(v@) =~= seq![(a@, ta, ba), (b@, tb, bb)]);
    v
}

fn put_titled_paths(lines: &mut Vec<Vec<Piece>>, head: Vec<Piece>, paths: &Vec<String>, tone: Tone)
    ensures
        lines_view(final(lines)@) == lines_view(old(lines)@) + titled_paths(line_view(head@), paths@, tone),
{
    if paths.len() == 0 {
        assert(lines_view(lines@) =~= lines_view(old(lines)@) + titled_paths(line_view(head@), paths@, tone));
        return;
    }
    let ghost hv = line_view(head@);
    push_blank(lines);
    push_line(lines, head);
    let ghost start = lines_view(lines@);
    let ghost f = |p: String| seq![raw("  • "@), tinted(p@, tone)];
    let mut i: usize = 0;
    while i < paths.len()
        invariant
            i <= paths@.len(),
            f == (|p: String| seq![raw("  • "@), tinted(p@, tone)]),
            lines_view(lines@) == start + paths@.take(i as int).map_values(f),
        decreases paths@.len() - i,
    {
        push_line(lines, two("  • ", Tone::Plain, false, paths[i].clone(), tone, false));
        assert(paths@.take(i + 1).map_values(f) =~= paths@.take(i as int).map_values(f).push(f(paths@[i as int])));
        i = i + 1;
    }
    assert(paths@.take(i as int) =~= paths@);
    assert(lines_view(lines@) =~= lines_view(old(lines)@) + titled_paths(hv, paths@, tone));
}

fn put_paths(lines: &mut Vec<Vec<Piece>>, title: &str, tone: Tone, word: &str, paths: &Vec<String>)
    ensures
        lines_view(final(lines)@) == lines_view(old(lines)@) + path_section(title@, tone, word@, paths@),
{
    let mut count = cat3("(", u64_decimal(paths.len() as u64).as_str(), " ");
    append_str(&mut count, word);
    append_str(&mut count, ")");
    put_titled_paths(lines, two(title, tone, true, count, Tone::DarkGray, false), paths, Tone::White);
}

/// An environment value as the inspector shows it.
pub fn env_shown_text(v: &str) -> (r: String)
    requires
        env_cut_ok(v@),
    ensures
        r@ == env_shown(v@),
{
    let cs = chars_of(v);
    if utf8_len_at_least(cs.as_slice(), 41) {
        cat(utf8_prefix(v, 37).as_str(), "...")
    } else {
        owned(v)
    }
}

fn put_env(lines: &mut Vec<Vec<Piece>>, env: &Vec<(String, String)>)
    requires
        forall|k: int| 0 <= k < env@.len() ==> env_cut_ok(#[trigger] env@[k].1@),
    ensures
        lines_view(final(lines)@) == lines_view(old(lines)@) + env_section(env@),
{
    if env.len() == 0 {
        assert(lines_view(lines@) =~= lines_view(old(lines)@) + env_section(env@));
        return;
    }
    push_blank(lines);
    push_line(
        lines,
        two(
            "🌐 Environment Variables: ",
            Tone::LightCyan,
            true,
            cat3("(", u64_decimal(env.len() as u64).as_str(), " active)"),
            Tone::DarkGray,
            false,
        ),
    );
    let ghost start = lines_view(lines@);
    let ghost f = |kv: (String, String)|
        seq![strong("  "@ + kv.0@ + "="@, Tone::LightGreen), tinted(env_shown(kv.1@), Tone::White)];
    let mut i: usize = 0;
    while i < env.len()
        invariant
            i <= env@.len(),
            forall|k: int| 0 <= k < env@.len() ==> env_cut_ok(#[trigger] env@[k].1@),
            f == (|kv: (String, String)|
                seq![strong("  "@ + kv.0@ + "="@, Tone::LightGreen), tinted(env_shown(kv.1@), Tone::White)]),
            lines_view(lines@) == start + env@.take(i as int).map_values(f),
        decreases env@.len() - i,
    {
        let key = cat3("  ", env[i].0.as_str(), "=");
        let shown = env_shown_text(env[i].1.as_str());
        let mut l: Vec<Piece> = Vec::new();
        put(&mut l, key, Tone::LightGreen, true);
        put(&mut l, shown, Tone::White, false);
        assert(line_view(l@) =~= f(env@[i as int]));
        push_line(lines, l);
        assert(env@.take(i + 1).map_values(f) =~= env@.take(i as int).map_values(f).push(f(env@[i as int])));
        i = i + 1;
    }
    assert(env@.take(i as int) =~= env@);
    assert(lines_view(lines@) =~= lines_view(old(lines)@) + env_section(env@));
}

fn item_head_lines(item: &InventoryItem) -> (r: Vec<Vec<Piece>>)
    ensures
        lines_view(r@) == item_head(*item),
{
    let mut lines: Vec<Vec<Piece>> = Vec::new();
    let mut l: Vec<Piece> = Vec::new();
    put_str(&mut l, "📦 Package: ", Tone::Cyan, true);
    put(&mut l, item.name.clone(), Tone::White, true);
    put_str(&mut l, " (", Tone::Plain, false);
    match &item.version {
        Some(v) => put(&mut l, v.clone(), Tone::Yellow, false),
        None => put_str(&mut l, "unknown", Tone::Yellow, false),
    }
    put_str(&mut l, ")", Tone::Plain, false);
    assert(line_view(l@) =~= item_head(*item)[0]);
    push_line(&mut lines, l);
    push_line(&mut lines, two("🏷️  Category: ", Tone::Cyan, false, item.category.to_display_string(), Tone::Plain, false));
    let st = item.status();
    push_line(&mut lines, two("🔗 Status: ", Tone::Cyan, false, status_detail_text(&st), status_tone_of(&st), true));
    push_line(&mut lines, two("💾 Real Disk Size: ", Tone::Cyan, false, item.formatted_size(), Tone::Green, true));
    push_line(&mut lines, two("📂 Install Path: ", Tone::Cyan, false, item.install_path.clone(), Tone::DarkGray, false));
    assert(lines_view(lines@) =~= item_head(*item));
    lines
}

fn put_usage(lines: &mut Vec<Vec<Piece>>, item: &InventoryItem, now: Timestamp)
    ensures
        lines_view(final(lines)@) == lines_view(old(lines)@) + item_usage(*item, now),
{
    let ghost s0 = lines_view(lines@);
    match item.inactivity_days_at(now) {
        Some(d) => {
            push_line(
                lines,
                two("⏱️  Last Accessed: ", Tone::Cyan, false, cat(u64_decimal(d as u64).as_str(), " days ago"), Tone::White, false),
            );
        },
        None => {},
    }
    let ghost s1 = lines_view(lines@);
    if item.required_by.len() > 0 {
        push_line(lines, two("⛓️  Required By: ", Tone::Red, true, join_with(&item.required_by, ", "), Tone::LightRed, false));
    }
    assert(lines_view(lines@) =~= s0 + item_usage(*item, now));
}

fn put_commands(lines: &mut Vec<Vec<Piece>>, item: &InventoryItem)
    ensures
        lines_view(final(lines)@) == lines_view(old(lines)@) + item_commands(*item),
{
    let ghost s0 = lines_view(lines@);
    push_blank(lines);
    match &item.uninstall_cmd {
        Some(c) => {
            push_line(lines, two("✂️  Uninstall Command:\n", Tone::LightYellow, true, cat("  ", c.as_str()), Tone::White, false));
        },
        None => {},
    }
    match &item.reinstall_cmd {
        Some(c) => {
            push_blank(lines);
            push_line(lines, two("🔄 Reinstall Command:\n", Tone::LightGreen, true, cat("  ", c.as_str()), Tone::White, false));
        },
        None => {},
    }
    assert(lines_view(lines@) =~= s0 + item_commands(*item));
}

/// The inspector's lines for an item with its associated metadata, at `now`.
pub fn item_detail_lines(item: &InventoryItem, meta: &AssociatedMetadata, now: Timestamp) -> (r: Vec<Vec<Piece>>)
    requires
        forall|k: int| 0 <= k < meta.env_vars@.len() ==> env_cut_ok(#[trigger] meta.env_vars@[k].1@),
    ensures
        lines_view(r@) == item_detail(*item, *meta, now),
{
    let mut lines = item_head_lines(item);
    put_usage(&mut lines, item, now);
    let ghost s2 = lines_view(lines@);
    put_paths(&mut lines, "⚙️  Preserved Configs: ", Tone::Yellow, "found", &meta.configs);
    put_paths(&mut lines, "💾 Data & State Dirs: ", Tone::Cyan, "found", &meta.data_dirs);
    put_paths(&mut lines, "📜 Associated Logs: ", Tone::Magenta, "found", &meta.logs);
    put_paths(&mut lines, "⚡ Associated Caches: ", Tone::LightYellow, "found", &meta.caches);
    put_env(&mut lines, &meta.env_vars);
    assert(lines_view(lines@) =~= s2 + item_meta(*meta));
    put_commands(&mut lines, item);
    assert(lines_view(lines@) =~= item_detail(*item, *meta, now));
    lines
}

/// What the background audit goes through, as the loading view lists it.
pub open spec fn audit_steps() -> Seq<Seq<char>> {
    seq![
        "Homebrew Formulae & Casks (brew info --json)"@,
        "Mise Runtimes (Ruby, Node, Python, Go, Rust)"@,
        "Cargo Binaries (~/.cargo/.crates2.json)"@,
        "Ruby Gems across installed runtimes"@,
        "NPM / Bun / Yarn Global Packages"@,
        "Python UV & Pip Isolated Tools"@,
        "macOS /Applications Bundle Info.plist"@,
        "Compiler Build Caches & Docker Dangling Layers"@,
        "Parallel APFS Inode Sizing & POSIX Access Times"@,
    ]
}

/// The inspector while the first audit runs, with the spinner frame `sp` and the
/// current stage.
pub open spec fn loading_lines(sp: Seq<char>, stage: Seq<char>) -> Seq<Seq<(Seq<char>, Tone, bool)>> {
    seq![
        seq![strong(" "@ + sp + " "@, Tone::Yellow), strong("Background Systems Audit in Progress"@, Tone::Cyan)],
        seq![raw("=================================================="@)],
        seq![tinted("  Current Stage: "@, Tone::Yellow), tinted(stage, Tone::White)],
        seq![],
    ] + audit_steps().map_values(|w: Seq<char>| seq![tinted("  "@ + sp + " "@, Tone::Cyan), raw(w)]) + seq![
        seq![raw("=================================================="@)],
        seq![tinted("⚡ Controls are fully responsive during loading!"@, Tone::Green)],
    ]
}

/// The inspector when no item is selected.
pub open spec fn no_match_lines() -> Seq<Seq<(Seq<char>, Tone, bool)>> {
    seq![seq![raw("No package matches the current filters"@)]]
}

fn loading_lines_for(spin: &str, stage: &str) -> (r: Vec<Vec<Piece>>)
    ensures
        lines_view(r@) == loading_lines(spin@, stage@),
{
    let mut lines: Vec<Vec<Piece>> = Vec::new();
    push_line(&mut lines, two(cat3(" ", spin, " ").as_str(), Tone::Yellow, true, owned("Background Systems Audit in Progress"), Tone::Cyan, true));
    let mut l: Vec<Piece> = Vec::new();
    put_str(&mut l, "==================================================", Tone::Plain, false);
    assert(line_view(l@) =~= seq![raw("=================================================="@)]);
    push_line(&mut lines, l);
    push_line(&mut lines, two("  Current Stage: ", Tone::Yellow, false, owned(stage), Tone::White, false));
    push_blank(&mut lines);
    let ghost s4 = lines_view(lines@);
    let sp = cat3("  ", spin, " ");
    push_line(&mut lines, two(sp.as_str(), Tone::Cyan, false, owned("Homebrew Formulae & Casks (brew info --json)"), Tone::Plain, false));
    push_line(&mut lines, two(sp.as_str(), Tone::Cyan, false, owned("Mise Runtimes (Ruby, Node, Python, Go, Rust)"), Tone::Plain, false));
    push_line(&mut lines, two(sp.as_str(), Tone::Cyan, false, owned("Cargo Binaries (~/.cargo/.crates2.json)"), Tone::Plain, false));
    push_line(&mut lines, two(sp.as_str(), Tone::Cyan, false, owned("Ruby Gems across installed runtimes"), Tone::Plain, false));
    push_line(&mut lines, two(sp.as_str(), Tone::Cyan, false, owned("NPM / Bun / Yarn Global Packages"), Tone::Plain, false));
    push_line(&mut lines, two(sp.as_str(), Tone::Cyan, false, owned("Python UV & Pip Isolated Tools"), Tone::Plain, false));
    push_line(&mut lines, two(sp.as_str(), Tone::Cyan, false, owned("macOS /Applications Bundle Info.plist"), Tone::Plain, false));
    push_line(&mut lines, two(sp.as_str(), Tone::Cyan, false, owned("Compiler Build Caches & Docker Dangling Layers"), Tone::Plain, false));
    push_line(&mut lines, two(sp.as_str(), Tone::Cyan, false, owned("Parallel APFS Inode Sizing & POSIX Access Times"), Tone::Plain, false));
    proof {
        let f = |w: Seq<char>| seq![tinted("  "@ + spin@ + " "@, Tone::Cyan), raw(w)];
        assert(audit_steps().map_values(f) =~= seq![
            f(audit_steps()[0]), f(audit_steps()[1]), f(audit_steps()[2]), f(audit_steps()[3]), f(audit_steps()[4]),
            f(audit_steps()[5]), f(audit_steps()[6]), f(audit_steps()[7]), f(audit_steps()[8]),
        ]);
        assert(lines_view(lines@) =~= s4 + audit_steps().map_values(f));
    }
    let ghost s5 = lines_view(lines@);
    let mut l2: Vec<Piece> = Vec::new();
    put_str(&mut l2, "==================================================", Tone::Plain, false);
    assert(line_view(l2@) =~= seq![raw("=================================================="@)]);
    push_line(&mut lines, l2);
    let mut l3: Vec<Piece> = Vec::new();
    put_str(&mut l3, "⚡ Controls are fully responsive during loading!", Tone::Green, false);
    assert(line_view(l3@) =~= seq![tinted("⚡ Controls are fully responsive during loading!"@, Tone::Green)]);
    push_line(&mut lines, l3);
    assert(lines_view(lines@) =~= loading_lines(spin@, stage@));
    lines
}

impl App {
    /// The inspector's lines at `now`: the audit's progress while the first audit
    /// runs with nothing found yet; else the selected item with `meta`, its
    /// associated metadata; else a note that nothing matches.
    pub fn inspector_lines(&self, meta: &AssociatedMetadata, now: Timestamp) -> (r: Vec<Vec<Piece>>)
        requires
            self.spin_idx < 10,
            forall|k: int| 0 <= k < meta.env_vars@.len() ==> env_cut_ok(#[trigger] meta.env_vars@[k].1@),
        ensures
            self.items@.len() == 0 && self.is_loading ==> lines_view(r@) == loading_lines(
                spinner_frame(self.spin_idx as int),
                self.current_stage@,
            ),
            !(self.items@.len() == 0 && self.is_loading) ==> lines_view(r@) == (match self.current_selected_spec() {
                Some(item) => item_detail(item, *meta, now),
                None => no_match_lines(),
            }),
    {
        if self.items.len() == 0 && self.is_loading {
            return loading_lines_for(self.spinner(), self.current_stage.as_str());
        }
        match self.current_selected_item() {
            Some(item) => item_detail_lines(item, meta, now),
            None => {
                let mut l: Vec<Piece> = Vec::new();
                put_str(&mut l, "No package matches the current filters", Tone::Plain, false);
                assert(line_view(l@) =~= seq![raw("No package matches the current filters"@)]);
                let mut lines: Vec<Vec<Piece>> = Vec::new();
                push_line(&mut lines, l);
                assert(lines_view(lines@) =~= no_match_lines());
                lines
            },
        }
    }

    /// The selected item, if the selection is in the listing.
    pub open spec fn current_selected_spec(&self) -> Option<InventoryItem> {
        if self.selected_index < self.filtered_indices@.len()
            && self.filtered_indices@[self.selected_index as int] < self.items@.len() {
            Some(self.items@[self.filtered_indices@[self.selected_index as int] as int])
        } else {
            None
        }
    }
}

// ---------------------------------------------------------------------------
// The history view
// ---------------------------------------------------------------------------

/// The cells of a tombstone's row: removal time, source, name, size and the
/// number of preserved configs.
pub open spec fn tombstone_row(t: PackageTombstone) -> Seq<(Seq<char>, Tone, bool)> {
    seq![
        raw(minute_stamp_text(t.removed_at.secs, t.removed_at.nanos)),
        raw(source_icon(t.source) + " "@ + source_label(t.source)),
        strong(t.name@, Tone::Plain),
        raw(format_bytes_spec(t.size_bytes as nat)),
        raw(decimal(t.associated_metadata.configs@.len()) + " files"@),
    ]
}

/// The cells of a tombstone's row.
pub fn tombstone_row_of(t: &PackageTombstone) -> (r: Vec<Piece>)
    ensures
        line_view(r@) == tombstone_row(*t),
{
    let mut v: Vec<Piece> = Vec::new();
    put(&mut v, minute_stamp(t.removed_at), Tone::Plain, false);
    put(&mut v, cat3(t.source.icon(), " ", t.source.label()), Tone::Plain, false);
    put(&mut v, t.name.clone(), Tone::Plain, true);
    put(&mut v, format_bytes(t.size_bytes), Tone::Plain, false);
    put(&mut v, cat(u64_decimal(t.associated_metadata.configs.len() as u64).as_str(), " files"), Tone::Plain, false);
    assert(line_view(v@) =~= tombstone_row(*t));
    v
}

/// The name, removal time, category, size and path of a tombstone.
pub open spec fn tombstone_head(t: PackageTombstone) -> Seq<Seq<(Seq<char>, Tone, bool)>> {
    seq![
        seq![
            strong("🏛️ Archived Tombstone: "@, Tone::Cyan),
            strong(t.name@, Tone::White),
            raw(" ("@),
            tinted(version_text(t.version), Tone::Yellow),
            raw(")"@),
        ],
        seq![
            tinted("🕒 Removed At: "@, Tone::Cyan),
            tinted(second_stamp_text(t.removed_at.secs, t.removed_at.nanos), Tone::LightCyan),
        ],
        seq![tinted("🏷️  Category: "@, Tone::Cyan), raw(category_display(t.category))],
        seq![tinted("💾 Reclaimed Size: "@, Tone::Cyan), strong(format_bytes_spec(t.size_bytes as nat), Tone::Green)],
        seq![tinted("📂 Original Install Path: "@, Tone::Cyan), tinted(t.install_path@, Tone::DarkGray)],
    ]
}

/// The variables of a tombstone, after a blank line and a title; nothing for none.
pub open spec fn tombstone_env(env: Seq<(String, String)>) -> Seq<Seq<(Seq<char>, Tone, bool)>> {
    if env.len() == 0 {
        seq![]
    } else {
        seq![seq![], seq![strong("🌐 Associated Environment Variables: "@, Tone::LightCyan)]] + env.map_values(
            |kv: (String, String)| seq![strong("  "@ + kv.0@ + "="@, Tone::LightGreen), tinted(kv.1@, Tone::White)],
        )
    }
}

/// The inverse command of a tombstone, after a blank line; nothing without one.
pub open spec fn tombstone_reinstall(c: Option<String>) -> Seq<Seq<(Seq<char>, Tone, bool)>> {
    match c {
        Some(c) => seq![
            seq![],
            seq![strong("🔄 Inverse Reinstall Command:\n"@, Tone::LightGreen), tinted("  "@ + c@, Tone::White)],
        ],
        None => seq![],
    }
}

/// The inspector's lines for a tombstone.
pub open spec fn tombstone_detail(t: PackageTombstone) -> Seq<Seq<(Seq<char>, Tone, bool)>> {
    let m = t.associated_metadata;
    tombstone_head(t) + path_section("⚙️  Preserved Config Files: "@, Tone::Yellow, "preserved"@, m.configs@)
        + path_section("💾 Preserved Data Dirs: "@, Tone::Cyan, "preserved"@, m.data_dirs@) + titled_paths(
        seq![strong("📜 Associated Log File Paths: "@, Tone::Magenta)],
        m.logs@,
        Tone::DarkGray,
    ) + tombstone_env(m.env_vars@) + tombstone_reinstall(t.reinstall_cmd)
}

/// The history inspector when no tombstone is selected.
pub open spec fn no_tombstone_lines() -> Seq<Seq<(Seq<char>, Tone, bool)>> {
    seq![seq![raw("No package tombstone selected. Run a cleanup to archive packages."@)]]
}

fn tombstone_head_lines(t: &PackageTombstone) -> (r: Vec<Vec<Piece>>)
    ensures
        lines_view(r@) == tombstone_head(*t),
{
    let mut lines: Vec<Vec<Piece>> = Vec::new();
    let mut l: Vec<Piece> = Vec::new();
    put_str(&mut l, "🏛️ Archived Tombstone: ", Tone::Cyan, true);
    put(&mut l, t.name.clone(), Tone::White, true);
    put_str(&mut l, " (", Tone::Plain, false);
    match &t.version {
        Some(v) => put(&mut l, v.clone(), Tone::Yellow, false),
        None => put_str(&mut l, "unknown", Tone::Yellow, false),
    }
    put_str(&mut l, ")", Tone::Plain, false);
    assert(line_view(l@) =~= tombstone_head(*t)[0]);
    push_line(&mut lines, l);
    push_line(&mut lines, two("🕒 Removed At: ", Tone::Cyan, false, second_stamp(t.removed_at), Tone::LightCyan, false));
    push_line(&mut lines, two("🏷️  Category: ", Tone::Cyan, false, t.category.to_display_string(), Tone::Plain, false));
    push_line(&mut lines, two("💾 Reclaimed Size: ", Tone::Cyan, false, format_bytes(t.size_bytes), Tone::Green, true));
    push_line(&mut lines, two("📂 Original Install Path: ", Tone::Cyan, false, t.install_path.clone(), Tone::DarkGray, false));
    assert(lines_view(lines@) =~= tombstone_head(*t));
    lines
}

fn put_tombstone_env(lines: &mut Vec<Vec<Piece>>, env: &Vec<(String, String)>)
    ensures
        lines_view(final(lines)@) == lines_view(old(lines)@) + tombstone_env(env@),
{
    if env.len() == 0 {
        assert(lines_view(lines@) =~= lines_view(old(lines)@) + tombstone_env(env@));
        return;
    }
    push_blank(lines);
    let mut h: Vec<Piece> = Vec::new();
    put_str(&mut h, "🌐 Associated Environment Variables: ", Tone::LightCyan, true);
    assert(line_view(h@) =~= seq![strong("🌐 Associated Environment Variables: "@, Tone::LightCyan)]);
    push_line(lines, h);
    let ghost start = lines_view(lines@);
    let ghost f = |kv: (String, String)| seq![strong("  "@ + kv.0@ + "="@, Tone::LightGreen), tinted(kv.1@, Tone::White)];
    let mut i: usize = 0;
    while i < env.len()
        invariant
            i <= env@.len(),
            f == (|kv: (String, String)|
                seq![strong("  "@ + kv.0@ + "="@, Tone::LightGreen), tinted(kv.1@, Tone::White)]),
            lines_view(lines@) == start + env@.take(i as int).map_values(f),
        decreases env@.len() - i,
    {
        push_line(lines, two(cat3("  ", env[i].0.as_str(), "=").as_str(), Tone::LightGreen, true, env[i].1.clone(), Tone::White, false));
        assert(env@.take(i + 1).map_values(f) =~= env@.take(i as int).map_values(f).push(f(env@[i as int])));
        i = i + 1;
    }
    assert(env@.take(i as int) =~= env@);
    assert(lines_view(lines@) =~= lines_view(old(lines)@) + tombstone_env(env@));
}

/// The inspector's lines for a tombstone.
pub fn tombstone_detail_lines(t: &PackageTombstone) -> (r: Vec<Vec<Piece>>)
    ensures
        lines_view(r@) == tombstone_detail(*t),
{
    let m = &t.associated_metadata;
    let mut lines = tombstone_head_lines(t);
    put_paths(&mut lines, "⚙️  Preserved Config Files: ", Tone::Yellow, "preserved", &m.configs);
    put_paths(&mut lines, "💾 Preserved Data Dirs: ", Tone::Cyan, "preserved", &m.data_dirs);
    let mut h: Vec<Piece> = Vec::new();
    put_str(&mut h, "📜 Associated Log File Paths: ", Tone::Magenta, true);
    assert(line_view(h@) =~= seq![strong("📜 Associated Log File Paths: "@, Tone::Magenta)]);
    put_titled_paths(&mut lines, h, &m.logs, Tone::DarkGray);
    put_tombstone_env(&mut lines, &m.env_vars);
    let ghost s = lines_view(lines@);
    match &t.reinstall_cmd {
        Some(c) => {
            push_blank(&mut lines);
            push_line(&mut lines, two("🔄 Inverse Reinstall Command:\n", Tone::LightGreen, true, cat("  ", c.as_str()), Tone::White, false));
        },
        None => {},
    }
    assert(lines_view(lines@) =~= s + tombstone_reinstall(t.reinstall_cmd));
    assert(lines_view(lines@) =~= tombstone_detail(*t));
    lines
}

impl App {
    /// The history inspector's lines: the selected tombstone, or a note that none is.
    pub fn tombstone_lines(&self) -> (r: Vec<Vec<Piece>>)
        ensures
            lines_view(r@) == (if self.selected_tombstone_idx < self.tombstones@.len() {
                tombstone_detail(self.tombstones@[self.selected_tombstone_idx as int])
            } else {
                no_tombstone_lines()
            }),
    {
        if self.selected_tombstone_idx < self.tombstones.len() {
            tombstone_detail_lines(&self.tombstones[self.selected_tombstone_idx])
        } else {
            let mut l: Vec<Piece> = Vec::new();
            put_str(&mut l, "No package tombstone selected. Run a cleanup to archive packages.", Tone::Plain, false);
            assert(line_view(l@) =~= seq![raw("No package tombstone selected. Run a cleanup to archive packages."@)]);
            let mut lines: Vec<Vec<Piece>> = Vec::new();
            push_line(&mut lines, l);
            assert(lines_view(lines@) =~= no_tombstone_lines());
            lines
        }
    }
}

} // verus!
