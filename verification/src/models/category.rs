use vstd::prelude::*;
use crate::text::{to_lower, trim_str, str_eq, trim_spec, unicode_lower, append_str, push_char, all_ascii, ascii_lower};

verus! {

/// Deterministic categorization taxonomy
#[derive(Debug, Clone, Copy, PartialEq, Eq, Structural, PartialOrd, Ord, Hash)]
pub enum Category {
    LanguagesAndRuntimes,
    DatabasesAndStorage,
    CliDeveloperTools,
    InfrastructureAndCloud,
    BuildAndPackageManagers,
    GuiAppsAndMedia,
    BuildArtifactsAndCaches,
    SystemAndLibraries,
    Uncategorized,
}

/// The human-readable name of a category.
pub open spec fn category_name(c: Category) -> Seq<char> {
    match c {
        Category::LanguagesAndRuntimes => "Languages & Runtimes"@,
        Category::DatabasesAndStorage => "Databases & Storage"@,
        Category::CliDeveloperTools => "CLI Developer Tools"@,
        Category::InfrastructureAndCloud => "Infrastructure & Cloud"@,
        Category::BuildAndPackageManagers => "Build & Package Managers"@,
        Category::GuiAppsAndMedia => "GUI Apps & Media"@,
        Category::BuildArtifactsAndCaches => "Build Artifacts & Caches"@,
        Category::SystemAndLibraries => "System & Libraries"@,
        Category::Uncategorized => "Uncategorized"@,
    }
}

/// The emoji that marks a category.
pub open spec fn category_emoji(c: Category) -> Seq<char> {
    match c {
        Category::LanguagesAndRuntimes => "⚡"@,
        Category::DatabasesAndStorage => "🗄️"@,
        Category::CliDeveloperTools => "🛠️"@,
        Category::InfrastructureAndCloud => "☁️"@,
        Category::BuildAndPackageManagers => "📦"@,
        Category::GuiAppsAndMedia => "🖥️"@,
        Category::BuildArtifactsAndCaches => "🧹"@,
        Category::SystemAndLibraries => "⚙️"@,
        Category::Uncategorized => "❓"@,
    }
}

/// How a category is displayed: its emoji, a space, its name.
pub open spec fn category_display(c: Category) -> Seq<char> {
    category_emoji(c).push(' ') + category_name(c)
}

/// The category that a normalized (trimmed, lower-cased) configuration key names.
pub open spec fn category_of_key(k: Seq<char>) -> Category {
    if k == "languages & runtimes"@ || k == "languages and runtimes"@ {
        Category::LanguagesAndRuntimes
    } else if k == "databases & storage"@ || k == "databases and storage"@ {
        Category::DatabasesAndStorage
    } else if k == "cli developer tools"@ || k == "cli tools"@ {
        Category::CliDeveloperTools
    } else if k == "infrastructure & cloud"@ || k == "cloud & infra"@ {
        Category::InfrastructureAndCloud
    } else if k == "build & package managers"@ || k == "package managers"@ {
        Category::BuildAndPackageManagers
    } else if k == "gui apps & media"@ || k == "gui apps"@ {
        Category::GuiAppsAndMedia
    } else if k == "build artifacts & caches"@ || k == "caches"@ {
        Category::BuildArtifactsAndCaches
    } else if k == "system & libraries"@ || k == "system libraries"@ {
        Category::SystemAndLibraries
    } else {
        Category::Uncategorized
    }
}

impl Category {
    pub fn as_str(&self) -> (r: &'static str)
        ensures
            r@ == category_name(*self),
    {
        match self {
            Category::LanguagesAndRuntimes => "Languages & Runtimes",
            Category::DatabasesAndStorage => "Databases & Storage",
            Category::CliDeveloperTools => "CLI Developer Tools",
            Category::InfrastructureAndCloud => "Infrastructure & Cloud",
            Category::BuildAndPackageManagers => "Build & Package Managers",
            Category::GuiAppsAndMedia => "GUI Apps & Media",
            Category::BuildArtifactsAndCaches => "Build Artifacts & Caches",
            Category::SystemAndLibraries => "System & Libraries",
            Category::Uncategorized => "Uncategorized",
        }
    }

    pub fn emoji(&self) -> (r: &'static str)
        ensures
            r@ == category_emoji(*self),
    {
        match self {
            Category::LanguagesAndRuntimes => "⚡",
            Category::DatabasesAndStorage => "🗄️",
            Category::CliDeveloperTools => "🛠️",
            Category::InfrastructureAndCloud => "☁️",
            Category::BuildAndPackageManagers => "📦",
            Category::GuiAppsAndMedia => "🖥️",
            Category::BuildArtifactsAndCaches => "🧹",
            Category::SystemAndLibraries => "⚙️",
            Category::Uncategorized => "❓",
        }
    }

    /// The displayed form of a category: emoji, space, name.
    pub fn to_display_string(&self) -> (r: String)
        ensures
            r@ == category_display(*self),
    {
        let mut s = String::new();
        append_str(&mut s, self.emoji());
        push_char(&mut s, ' ');
        append_str(&mut s, self.as_str());
        s
    }
}

/// The category named by an already trimmed and lower-cased key.
pub fn category_from_key(k: &str) -> (r: Category)
    ensures
        r == category_of_key(k@),
{
    if str_eq(k, "languages & runtimes") || str_eq(k, "languages and runtimes") {
        Category::LanguagesAndRuntimes
    } else if str_eq(k, "databases & storage") || str_eq(k, "databases and storage") {
        Category::DatabasesAndStorage
    } else if str_eq(k, "cli developer tools") || str_eq(k, "cli tools") {
        Category::CliDeveloperTools
    } else if str_eq(k, "infrastructure & cloud") || str_eq(k, "cloud & infra") {
        Category::InfrastructureAndCloud
    } else if str_eq(k, "build & package managers") || str_eq(k, "package managers") {
        Category::BuildAndPackageManagers
    } else if str_eq(k, "gui apps & media") || str_eq(k, "gui apps") {
        Category::GuiAppsAndMedia
    } else if str_eq(k, "build artifacts & caches") || str_eq(k, "caches") {
        Category::BuildArtifactsAndCaches
    } else if str_eq(k, "system & libraries") || str_eq(k, "system libraries") {
        Category::SystemAndLibraries
    } else {
        Category::Uncategorized
    }
}

/// Parses a category name from the rules file: trimmed, lower-cased, then matched.
pub fn parse_category_string(s: &str) -> (r: Category)
    ensures
        r == category_of_key(unicode_lower(trim_spec(s@))),
        all_ascii(trim_spec(s@)) ==> r == category_of_key(ascii_lower(trim_spec(s@))),
{
    let t = trim_str(s);
    let k = to_lower(t.as_str());
    category_from_key(k.as_str())
}

/// Every category's name reads back as that category: the name is ASCII text
/// with nothing to trim, and its ASCII lower case is a key of that category, so
/// `parse_category_string(c.as_str())` is `c`.
pub proof fn category_name_reads_back(c: Category)
    ensures
        all_ascii(category_name(c)),
        trim_spec(category_name(c)) == category_name(c),
        category_of_key(ascii_lower(category_name(c))) == c,
{
    reveal_strlit("languages & runtimes");
    reveal_strlit("languages and runtimes");
    reveal_strlit("databases & storage");
    reveal_strlit("databases and storage");
    reveal_strlit("cli developer tools");
    reveal_strlit("cli tools");
    reveal_strlit("infrastructure & cloud");
    reveal_strlit("cloud & infra");
    reveal_strlit("build & package managers");
    reveal_strlit("package managers");
    reveal_strlit("gui apps & media");
    reveal_strlit("gui apps");
    reveal_strlit("build artifacts & caches");
    reveal_strlit("caches");
    reveal_strlit("system & libraries");
    reveal_strlit("system libraries");
    reveal_strlit("uncategorized");
    match c {
        Category::LanguagesAndRuntimes => {
            reveal_strlit("Languages & Runtimes");
            assert(ascii_lower(category_name(c)) =~= "languages & runtimes"@);
            assert(category_of_key(ascii_lower(category_name(c))) == c);
        },
        Category::DatabasesAndStorage => {
            reveal_strlit("Databases & Storage");
            assert(ascii_lower(category_name(c)) =~= "databases & storage"@);
            assert(category_of_key(ascii_lower(category_name(c))) == c);
        },
        Category::CliDeveloperTools => {
            reveal_strlit("CLI Developer Tools");
            assert(ascii_lower(category_name(c)) =~= "cli developer tools"@);
            assert("cli developer tools"@[0] != "databases & storage"@[0]);
            assert(category_of_key(ascii_lower(category_name(c))) == c);
        },
        Category::InfrastructureAndCloud => {
            reveal_strlit("Infrastructure & Cloud");
            assert(ascii_lower(category_name(c)) =~= "infrastructure & cloud"@);
            assert("infrastructure & cloud"@[0] != "languages and runtimes"@[0]);
            assert(category_of_key(ascii_lower(category_name(c))) == c);
        },
        Category::BuildAndPackageManagers => {
            reveal_strlit("Build & Package Managers");
            assert(ascii_lower(category_name(c)) =~= "build & package managers"@);
            assert(category_of_key(ascii_lower(category_name(c))) == c);
        },
        Category::GuiAppsAndMedia => {
            reveal_strlit("GUI Apps & Media");
            assert(ascii_lower(category_name(c)) =~= "gui apps & media"@);
            assert("gui apps & media"@[0] != "package managers"@[0]);
            assert(category_of_key(ascii_lower(category_name(c))) == c);
        },
        Category::BuildArtifactsAndCaches => {
            reveal_strlit("Build Artifacts & Caches");
            assert(ascii_lower(category_name(c)) =~= "build artifacts & caches"@);
            assert("build artifacts & caches"@[6] != "build & package managers"@[6]);
            assert(category_of_key(ascii_lower(category_name(c))) == c);
        },
        Category::SystemAndLibraries => {
            reveal_strlit("System & Libraries");
            assert(ascii_lower(category_name(c)) =~= "system & libraries"@);
            assert(category_of_key(ascii_lower(category_name(c))) == c);
        },
        Category::Uncategorized => {
            reveal_strlit("Uncategorized");
            assert(ascii_lower(category_name(c)) =~= "uncategorized"@);
            assert("uncategorized"@[0] != "cloud & infra"@[0]);
            assert(category_of_key(ascii_lower(category_name(c))) == c);
        },
    }
    let n = category_name(c);
    assert(n.len() > 0 && n[0] != ' ' && n.last() != ' ');
}

} // verus!
