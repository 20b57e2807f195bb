use vstd::prelude::*;
use crate::models::category::Category;
use crate::models::item::{InventoryItem, PackageSource, item_matches};
use crate::tui::app::{InputMode, SortOrder};

verus! {

/// A key press, as the dashboard reads it.
#[derive(Debug, Clone, Copy, PartialEq, Eq, Structural)]
pub enum Key {
    Char { c: char, ctrl: bool },
    Esc,
    Enter,
    Backspace,
    Up,
    Down,
    PageUp,
    PageDown,
    Other,
}

/// The ecosystems that the ecosystem menu toggles.
#[derive(Debug, Clone, Copy, PartialEq, Eq, Structural)]
pub enum EcoChoice {
    Ruby,
    Rust,
    Js,
    Python,
    Go,
    Brew,
    Mise,
    Apps,
    Cache,
    Docker,
}

/// The query text of an ecosystem choice.
pub open spec fn eco_query(e: EcoChoice) -> Seq<char> {
    match e {
        EcoChoice::Ruby => "ruby"@,
        EcoChoice::Rust => "rust"@,
        EcoChoice::Js => "js"@,
        EcoChoice::Python => "python"@,
        EcoChoice::Go => "go"@,
        EcoChoice::Brew => "brew"@,
        EcoChoice::Mise => "mise"@,
        EcoChoice::Apps => "apps"@,
        EcoChoice::Cache => "cache"@,
        EcoChoice::Docker => "docker"@,
    }
}

impl EcoChoice {
    /// The query text of the choice.
    pub fn query(&self) -> (r: &'static str)
        ensures
            r@ == eco_query(*self),
    {
        match self {
            EcoChoice::Ruby => "ruby",
            EcoChoice::Rust => "rust",
            EcoChoice::Js => "js",
            EcoChoice::Python => "python",
            EcoChoice::Go => "go",
            EcoChoice::Brew => "brew",
            EcoChoice::Mise => "mise",
            EcoChoice::Apps => "apps",
            EcoChoice::Cache => "cache",
            EcoChoice::Docker => "docker",
        }
    }
}

/// What a key press asks of the dashboard.
#[derive(Debug, Clone, Copy, PartialEq, Eq, Structural)]
pub enum Action {
    Nothing,
    Quit,
    SetMode(InputMode),
    SearchPop,
    SearchClear,
    SearchPush(char),
    ToggleOrphans,
    ToggleCaches,
    ToggleTopLevel,
    CycleInactivity,
    ClearFilters,
    ToggleEcosystem(EcoChoice),
    ClearEcosystems,
    ToggleCategory(Category),
    ClearCategories,
    /// Sort, then back to the normal mode.
    SortBy(SortOrder),
    /// Bulk marks, then back to the normal mode.
    MarkAll,
    MarkOrphans,
    MarkCaches,
    ClearMarks,
    Next,
    Previous,
    PageDown,
    PageUp,
    ToggleMark,
    OpenHistory,
    GenerateScripts,
}

/// The character of a key press, whatever its modifiers, if it is a character.
pub open spec fn ch(k: Key) -> Option<char> {
    match k {
        Key::Char { c, ctrl } => Some(c),
        _ => None,
    }
}

/// What a key press asks for in each mode.
pub open spec fn action_for(mode: InputMode, k: Key) -> Action {
    match mode {
        InputMode::Searching => match k {
            Key::Esc | Key::Enter => Action::SetMode(InputMode::Normal),
            Key::Backspace => Action::SearchPop,
            Key::Char { c, ctrl } => if c == 'u' && ctrl {
                Action::SearchClear
            } else {
                Action::SearchPush(c)
            },
            _ => Action::Nothing,
        },
        InputMode::FilterMenu => if k == Key::Esc || k == Key::Enter || ch(k) == Some('q') || ch(k) == Some('f') {
            Action::SetMode(InputMode::Normal)
        } else if ch(k) == Some('o') {
            Action::ToggleOrphans
        } else if ch(k) == Some('c') {
            Action::ToggleCaches
        } else if ch(k) == Some('t') {
            Action::ToggleTopLevel
        } else if ch(k) == Some('e') {
            Action::SetMode(InputMode::EcosystemMenu)
        } else if ch(k) == Some('d') {
            Action::SetMode(InputMode::CategoryMenu)
        } else if ch(k) == Some('i') {
            Action::CycleInactivity
        } else if ch(k) == Some('a') {
            Action::ClearFilters
        } else {
            Action::Nothing
        },
        InputMode::EcosystemMenu => if k == Key::Esc || k == Key::Enter || ch(k) == Some('q') || ch(k) == Some('f') {
            Action::SetMode(InputMode::FilterMenu)
        } else if ch(k) == Some('r') {
            Action::ToggleEcosystem(EcoChoice::Ruby)
        } else if ch(k) == Some('u') {
            Action::ToggleEcosystem(EcoChoice::Rust)
        } else if ch(k) == Some('j') {
            Action::ToggleEcosystem(EcoChoice::Js)
        } else if ch(k) == Some('p') {
            Action::ToggleEcosystem(EcoChoice::Python)
        } else if ch(k) == Some('g') {
            Action::ToggleEcosystem(EcoChoice::Go)
        } else if ch(k) == Some('b') {
            Action::ToggleEcosystem(EcoChoice::Brew)
        } else if ch(k) == Some('m') {
            Action::ToggleEcosystem(EcoChoice::Mise)
        } else if ch(k) == Some('a') {
            Action::ToggleEcosystem(EcoChoice::Apps)
        } else if ch(k) == Some('c') {
            Action::ToggleEcosystem(EcoChoice::Cache)
        } else if ch(k) == Some('d') || ch(k) == Some('k') {
            Action::ToggleEcosystem(EcoChoice::Docker)
        } else if ch(k) == Some('x') {
            Action::ClearEcosystems
        } else {
            Action::Nothing
        },
        InputMode::CategoryMenu => if k == Key::Esc || k == Key::Enter || ch(k) == Some('q') || ch(k) == Some('f') {
            Action::SetMode(InputMode::FilterMenu)
        } else if ch(k) == Some('r') {
            Action::ToggleCategory(Category::LanguagesAndRuntimes)
        } else if ch(k) == Some('d') {
            Action::ToggleCategory(Category::DatabasesAndStorage)
        } else if ch(k) == Some('c') {
            Action::ToggleCategory(Category::CliDeveloperTools)
        } else if ch(k) == Some('i') {
            Action::ToggleCategory(Category::InfrastructureAndCloud)
        } else if ch(k) == Some('p') {
            Action::ToggleCategory(Category::BuildAndPackageManagers)
        } else if ch(k) == Some('g') {
            Action::ToggleCategory(Category::GuiAppsAndMedia)
        } else if ch(k) == Some('b') {
            Action::ToggleCategory(Category::BuildArtifactsAndCaches)
        } else if ch(k) == Some('s') {
            Action::ToggleCategory(Category::SystemAndLibraries)
        } else if ch(k) == Some('x') {
            Action::ClearCategories
        } else {
            Action::Nothing
        },
        InputMode::SortMenu => if k == Key::Esc || k == Key::Enter || ch(k) == Some('q') || ch(k) == Some('s') {
            Action::SetMode(InputMode::Normal)
        } else if ch(k) == Some('1') {
            Action::SortBy(SortOrder::SizeDesc)
        } else if ch(k) == Some('2') {
            Action::SortBy(SortOrder::NameAsc)
        } else if ch(k) == Some('3') {
            Action::SortBy(SortOrder::LastUsedDesc)
        } else if ch(k) == Some('4') {
            Action::SortBy(SortOrder::SourceAsc)
        } else if ch(k) == Some('5') {
            Action::SortBy(SortOrder::CategoryAsc)
        } else {
            Action::Nothing
        },
        InputMode::MarkMenu => if k == Key::Esc || k == Key::Enter || ch(k) == Some('q') || ch(k) == Some('m') {
            Action::SetMode(InputMode::Normal)
        } else if ch(k) == Some('a') {
            Action::MarkAll
        } else if ch(k) == Some('o') {
            Action::MarkOrphans
        } else if ch(k) == Some('c') {
            Action::MarkCaches
        } else if ch(k) == Some('x') {
            Action::ClearMarks
        } else {
            Action::Nothing
        },
        InputMode::HistoryView => if k == Key::Esc || k == Key::Enter || ch(k) == Some('q') || ch(k) == Some('h') {
            Action::SetMode(InputMode::Normal)
        } else if k == Key::Down || ch(k) == Some('j') {
            Action::Next
        } else if k == Key::Up || ch(k) == Some('k') {
            Action::Previous
        } else if k == Key::PageDown {
            Action::PageDown
        } else if k == Key::PageUp {
            Action::PageUp
        } else {
            Action::Nothing
        },
        InputMode::HelpModal => if k == Key::Esc || ch(k) == Some('q') || ch(k) == Some('?') || k == Key::Enter {
            Action::SetMode(InputMode::Normal)
        } else {
            Action::Nothing
        },
        InputMode::Normal => if ch(k) == Some('q') || k == Key::Esc {
            Action::Quit
        } else if ch(k) == Some('f') {
            Action::SetMode(InputMode::FilterMenu)
        } else if ch(k) == Some('s') {
            Action::SetMode(InputMode::SortMenu)
        } else if ch(k) == Some('m') {
            Action::SetMode(InputMode::MarkMenu)
        } else if ch(k) == Some('h') {
            Action::OpenHistory
        } else if ch(k) == Some('/') {
            Action::SetMode(InputMode::Searching)
        } else if ch(k) == Some('?') {
            Action::SetMode(InputMode::HelpModal)
        } else if k == Key::Down || ch(k) == Some('j') {
            Action::Next
        } else if k == Key::Up || ch(k) == Some('k') {
            Action::Previous
        } else if k == Key::PageDown {
            Action::PageDown
        } else if k == Key::PageUp {
            Action::PageUp
        } else if ch(k) == Some(' ') {
            Action::ToggleMark
        } else if ch(k) == Some('a') {
            Action::ClearFilters
        } else if ch(k) == Some('x') || k == Key::Enter {
            Action::GenerateScripts
        } else {
            Action::Nothing
        },
    }
}

fn is(k: Key, c: char) -> (r: bool)
    ensures
        r == (ch(k) == Some(c)),
{
    match k {
        Key::Char { c: d, ctrl } => d == c,
        _ => false,
    }
}

/// What a key press asks for in the given mode.
pub fn key_action(mode: InputMode, k: Key) -> (r: Action)
    ensures
        r == action_for(mode, k),
{
    let closing = k == Key::Esc || k == Key::Enter || is(k, 'q');
    match mode {
        InputMode::Searching => match k {
            Key::Esc | Key::Enter => Action::SetMode(InputMode::Normal),
            Key::Backspace => Action::SearchPop,
            Key::Char { c, ctrl } => if c == 'u' && ctrl {
                Action::SearchClear
            } else {
                Action::SearchPush(c)
            },
            _ => Action::Nothing,
        },
        InputMode::FilterMenu => if closing || is(k, 'f') {
            Action::SetMode(InputMode::Normal)
        } else if is(k, 'o') {
            Action::ToggleOrphans
        } else if is(k, 'c') {
            Action::ToggleCaches
        } else if is(k, 't') {
            Action::ToggleTopLevel
        } else if is(k, 'e') {
            Action::SetMode(InputMode::EcosystemMenu)
        } else if is(k, 'd') {
            Action::SetMode(InputMode::CategoryMenu)
        } else if is(k, 'i') {
            Action::CycleInactivity
        } else if is(k, 'a') {
            Action::ClearFilters
        } else {
            Action::Nothing
        },
        InputMode::EcosystemMenu => if closing || is(k, 'f') {
            Action::SetMode(InputMode::FilterMenu)
        } else if is(k, 'r') {
            Action::ToggleEcosystem(EcoChoice::Ruby)
        } else if is(k, 'u') {
            Action::ToggleEcosystem(EcoChoice::Rust)
        } else if is(k, 'j') {
            Action::ToggleEcosystem(EcoChoice::Js)
        } else if is(k, 'p') {
            Action::ToggleEcosystem(EcoChoice::Python)
        } else if is(k, 'g') {
            Action::ToggleEcosystem(EcoChoice::Go)
        } else if is(k, 'b') {
            Action::ToggleEcosystem(EcoChoice::Brew)
        } else if is(k, 'm') {
            Action::ToggleEcosystem(EcoChoice::Mise)
        } else if is(k, 'a') {
            Action::ToggleEcosystem(EcoChoice::Apps)
        } else if is(k, 'c') {
            Action::ToggleEcosystem(EcoChoice::Cache)
        } else if is(k, 'd') || is(k, 'k') {
            Action::ToggleEcosystem(EcoChoice::Docker)
        } else if is(k, 'x') {
            Action::ClearEcosystems
        } else {
            Action::Nothing
        },
        InputMode::CategoryMenu => if closing || is(k, 'f') {
            Action::SetMode(InputMode::FilterMenu)
        } else if is(k, 'r') {
            Action::ToggleCategory(Category::LanguagesAndRuntimes)
        } else if is(k, 'd') {
            Action::ToggleCategory(Category::DatabasesAndStorage)
        } else if is(k, 'c') {
            Action::ToggleCategory(Category::CliDeveloperTools)
        } else if is(k, 'i') {
            Action::ToggleCategory(Category::InfrastructureAndCloud)
        } else if is(k, 'p') {
            Action::ToggleCategory(Category::BuildAndPackageManagers)
        } else if is(k, 'g') {
            Action::ToggleCategory(Category::GuiAppsAndMedia)
        } else if is(k, 'b') {
            Action::ToggleCategory(Category::BuildArtifactsAndCaches)
        } else if is(k, 's') {
            Action::ToggleCategory(Category::SystemAndLibraries)
        } else if is(k, 'x') {
            Action::ClearCategories
        } else {
            Action::Nothing
        },
        InputMode::SortMenu => if closing || is(k, 's') {
            Action::SetMode(InputMode::Normal)
        } else if is(k, '1') {
            Action::SortBy(SortOrder::SizeDesc)
        } else if is(k, '2') {
            Action::SortBy(SortOrder::NameAsc)
        } else if is(k, '3') {
            Action::SortBy(SortOrder::LastUsedDesc)
        } else if is(k, '4') {
            Action::SortBy(SortOrder::SourceAsc)
        } else if is(k, '5') {
            Action::SortBy(SortOrder::CategoryAsc)
        } else {
            Action::Nothing
        },
        InputMode::MarkMenu => if closing || is(k, 'm') {
            Action::SetMode(InputMode::Normal)
        } else if is(k, 'a') {
            Action::MarkAll
        } else if is(k, 'o') {
            Action::MarkOrphans
        } else if is(k, 'c') {
            Action::MarkCaches
        } else if is(k, 'x') {
            Action::ClearMarks
        } else {
            Action::Nothing
        },
        InputMode::HistoryView => if closing || is(k, 'h') {
            Action::SetMode(InputMode::Normal)
        } else if k == Key::Down || is(k, 'j') {
            Action::Next
        } else if k == Key::Up || is(k, 'k') {
            Action::Previous
        } else if k == Key::PageDown {
            Action::PageDown
        } else if k == Key::PageUp {
            Action::PageUp
        } else {
            Action::Nothing
        },
        InputMode::HelpModal => if closing || is(k, '?') {
            Action::SetMode(InputMode::Normal)
        } else {
            Action::Nothing
        },
        InputMode::Normal => if is(k, 'q') || k == Key::Esc {
            Action::Quit
        } else if is(k, 'f') {
            Action::SetMode(InputMode::FilterMenu)
        } else if is(k, 's') {
            Action::SetMode(InputMode::SortMenu)
        } else if is(k, 'm') {
            Action::SetMode(InputMode::MarkMenu)
        } else if is(k, 'h') {
            Action::OpenHistory
        } else if is(k, '/') {
            Action::SetMode(InputMode::Searching)
        } else if is(k, '?') {
            Action::SetMode(InputMode::HelpModal)
        } else if k == Key::Down || is(k, 'j') {
            Action::Next
        } else if k == Key::Up || is(k, 'k') {
            Action::Previous
        } else if k == Key::PageDown {
            Action::PageDown
        } else if k == Key::PageUp {
            Action::PageUp
        } else if is(k, ' ') {
            Action::ToggleMark
        } else if is(k, 'a') {
            Action::ClearFilters
        } else if is(k, 'x') || k == Key::Enter {
            Action::GenerateScripts
        } else {
            Action::Nothing
        },
    }
}

/// The source that each choice of the ecosystem menu is meant to select.
pub open spec fn menu_source(c: EcoChoice) -> PackageSource {
    match c {
        EcoChoice::Ruby => PackageSource::Gem,
        EcoChoice::Rust => PackageSource::CargoBin,
        EcoChoice::Js => PackageSource::NpmGlobal,
        EcoChoice::Python => PackageSource::UvTool,
        EcoChoice::Go => PackageSource::GoBin,
        EcoChoice::Brew => PackageSource::BrewFormula,
        EcoChoice::Mise => PackageSource::MiseRuntime,
        EcoChoice::Apps => PackageSource::MacApp,
        EcoChoice::Cache => PackageSource::BuildCache,
        EcoChoice::Docker => PackageSource::DockerImage,
    }
}

/// Each choice of the ecosystem menu selects the items of its source (Ruby
/// selects gems, Rust Cargo binaries, JS npm packages, and so on; Brew selects
/// formulas and casks alike).
pub proof fn menu_choices_select_their_sources(c: EcoChoice, it: InventoryItem)
    requires
        it.source == menu_source(c) || (c == EcoChoice::Brew && it.source == PackageSource::BrewCask),
    ensures
        item_matches(it, eco_query(c)),
{
}

} // verus!
