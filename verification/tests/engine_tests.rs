use etop::engine::dep_graph::DependencyGraph;
use etop::engine::fs_auditor::{sizes_fit, FsAuditor, PathAudit, PathKind};
use etop::engine::taxonomy::{TaxonomyConfigFile, TaxonomyEngine};
use etop::models::category::Category;
use etop::models::item::{InventoryItem, PackageSource, PackageStatus, Timestamp};

fn item(id: &str, name: &str, top: bool, deps: &[&str]) -> InventoryItem {
    InventoryItem {
        id: id.to_string(),
        name: name.to_string(),
        source: PackageSource::BrewFormula,
        version: None,
        install_path: format!("/opt/homebrew/opt/{}", name),
        size_bytes: 10,
        last_accessed_at: None,
        last_modified_at: None,
        is_top_level: top,
        required_by: deps.iter().map(|d| d.to_string()).collect(),
        category: Category::Uncategorized,
        uninstall_cmd: Some(format!("brew uninstall {}", name)),
        reinstall_cmd: None,
    }
}

#[test]
fn default_taxonomy_classifies_by_name_then_tokens_then_id() {
    let t = TaxonomyEngine::default_engine();
    assert_eq!(t.classify("ripgrep", "brew:ripgrep"), Category::CliDeveloperTools);
    assert_eq!(t.classify("PostgreSQL@14", "brew:postgresql@14"), Category::DatabasesAndStorage);
    assert_eq!(t.classify("ruby (3.3.0)", "mise:ruby@3.3.0"), Category::LanguagesAndRuntimes);
    assert_eq!(t.classify("something", "cargo:something"), Category::BuildAndPackageManagers);
    assert_eq!(t.classify("unknown-thing", "x:y"), Category::Uncategorized);
    assert_eq!(t.classify("Docker", "app:docker"), Category::InfrastructureAndCloud);
}

#[test]
fn taxonomy_from_rules_file_lowercases_keywords() {
    let cfg = TaxonomyConfigFile {
        categories: vec![
            ("GUI Apps".to_string(), vec!["Figma".to_string(), "Slack".to_string()]),
            ("databases & storage".to_string(), vec!["mongo".to_string()]),
        ],
    };
    let t = TaxonomyEngine::from_config(cfg);
    assert_eq!(t.classify("figma", "app:figma"), Category::GuiAppsAndMedia);
    assert_eq!(t.classify("mongo-tools", "brew:mongo-tools"), Category::DatabasesAndStorage);
    assert_eq!(t.classify("ripgrep", "brew:ripgrep"), Category::Uncategorized);
    let none = TaxonomyEngine::from_optional_config(None);
    assert_eq!(none.classify("jq", "brew:jq"), Category::CliDeveloperTools);
}

#[test]
fn dependency_graph_links_and_finds_orphans() {
    let mut items = vec![
        item("brew:git", "git", true, &["brew:pcre2", "brew:gettext"]),
        item("brew:pcre2", "pcre2", false, &[]),
        item("brew:gettext", "gettext", false, &[]),
        item("brew:libyaml", "libyaml", false, &["brew:stale"]),
        item("brew:jq", "jq", true, &[]),
    ];
    let g = DependencyGraph::resolve(&mut items);
    assert!(g.is_orphan("brew:libyaml"));
    assert!(!g.is_orphan("brew:pcre2"));
    assert!(!g.is_orphan("brew:jq"));
    assert_eq!(g.orphan_count(), 1);
    assert_eq!(items[1].required_by, vec!["brew:git".to_string()]);
    assert_eq!(items[3].required_by.len(), 0);
    assert_eq!(items[3].status(), PackageStatus::Orphan);
    assert_eq!(items[1].status(), PackageStatus::Dependency { required_by_count: 1 });
    assert_eq!(items[4].status(), PackageStatus::TopLevel);
}

#[test]
fn orphan_status_matches_graph_on_concrete_items() {
    let mut items = vec![
        item("brew:a", "a", false, &[]),
        item("brew:b", "b", true, &["brew:a"]),
        item("brew:c", "c", false, &[]),
    ];
    let g = DependencyGraph::resolve(&mut items);
    for it in &items {
        assert_eq!(it.is_orphan(), g.is_orphan(&it.id));
    }
}

#[test]
fn audit_records_size_and_times() {
    let mut it = item("brew:jq", "jq", true, &[]);
    FsAuditor::apply(&mut it, None);
    assert_eq!(it.size_bytes, 10);
    let t = Timestamp { secs: 100, nanos: 5 };
    FsAuditor::apply(&mut it, Some(PathAudit { size_bytes: 4096, modified: Some(Some(t)), accessed: None }));
    assert_eq!(it.size_bytes, 4096);
    assert_eq!(it.last_modified_at, Some(t));
    assert_eq!(it.last_accessed_at, None);
    FsAuditor::apply(&mut it, Some(PathAudit { size_bytes: 1, modified: Some(None), accessed: Some(Some(t)) }));
    assert_eq!(it.last_modified_at, None);
    assert_eq!(it.last_accessed_at, Some(t));
}

#[test]
fn classify_all_sets_every_category() {
    let t = TaxonomyEngine::default_engine();
    let mut items = vec![item("brew:ripgrep", "ripgrep", true, &[]), item("x:y", "unknown-thing", false, &[])];
    items[1].category = Category::GuiAppsAndMedia;
    t.classify_all(&mut items);
    assert_eq!(items[0].category, Category::CliDeveloperTools);
    assert_eq!(items[1].category, Category::Uncategorized);
    assert_eq!(items[0].name, "ripgrep");
    assert_eq!(items.len(), 2);
}

#[test]
fn path_sizes_count_files_and_directories_only() {
    let kids = vec![10u64, 20, 30];
    assert_eq!(FsAuditor::path_size(&PathKind::Dir, &kids), 60);
    assert_eq!(FsAuditor::path_size(&PathKind::File { len: 7 }, &Vec::new()), 7);
    assert_eq!(FsAuditor::path_size(&PathKind::Symlink, &kids), 0);
    assert_eq!(FsAuditor::path_size(&PathKind::Missing, &Vec::new()), 0);
    assert_eq!(FsAuditor::path_size(&PathKind::Other, &Vec::new()), 0);
    assert!(sizes_fit(&kids));
    assert!(!sizes_fit(&vec![u64::MAX, 1]));
}
