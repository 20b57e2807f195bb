use etop::models::category::Category;
use etop::models::item::{InventoryItem, PackageSource, PackageStatus, Timestamp};
use etop::report::{
    category_breakdown, filter_indices, info_matches, prune_indices_for, sort_items, source_breakdown,
    status_detail_text, status_info_text, status_short_text, summarize, table_totals, visible_window,
    FilterOptions, PruneOptions,
};

fn item(id: &str, name: &str, source: PackageSource, size: u64, top: bool, cat: Category) -> InventoryItem {
    InventoryItem {
        id: id.to_string(),
        name: name.to_string(),
        source,
        version: None,
        install_path: format!("/x/{}", name),
        size_bytes: size,
        last_accessed_at: None,
        last_modified_at: None,
        is_top_level: top,
        required_by: Vec::new(),
        category: cat,
        uninstall_cmd: Some(format!("remove {}", name)),
        reinstall_cmd: None,
    }
}

fn sample() -> Vec<InventoryItem> {
    let mut dep = item("brew:openssl", "openssl", PackageSource::BrewFormula, 50, false, Category::SystemAndLibraries);
    dep.required_by = vec!["brew:curl".to_string()];
    vec![
        item("brew:postgresql@16", "postgresql@16", PackageSource::BrewFormula, 300, true, Category::DatabasesAndStorage),
        item("brew:libyaml", "libyaml", PackageSource::BrewFormula, 100, false, Category::SystemAndLibraries),
        item("npm:typescript", "typescript", PackageSource::NpmGlobal, 500, true, Category::CliDeveloperTools),
        item("cache:uv-wheels", "UV Cache", PackageSource::BuildCache, 200, true, Category::BuildArtifactsAndCaches),
        dep,
        item("go:gopls", "gopls", PackageSource::GoBin, 300, true, Category::CliDeveloperTools),
    ]
}

fn now() -> Timestamp {
    Timestamp { secs: 1_000 * 86_400, nanos: 0 }
}

#[test]
fn sorting_by_each_criterion() {
    let mut items = sample();
    sort_items(&mut items, "size", now());
    let n: Vec<&str> = items.iter().map(|i| i.name.as_str()).collect();
    assert_eq!(n, vec!["typescript", "postgresql@16", "gopls", "UV Cache", "libyaml", "openssl"]);
    sort_items(&mut items, "NAME", now());
    let n: Vec<&str> = items.iter().map(|i| i.name.as_str()).collect();
    assert_eq!(n, vec!["gopls", "libyaml", "openssl", "postgresql@16", "typescript", "UV Cache"]);
    sort_items(&mut items, "source", now());
    assert_eq!(items[0].source, PackageSource::BrewFormula);
    assert_eq!(items[5].source, PackageSource::BuildCache);
    let mut items = sample();
    items[1].last_accessed_at = Some(Timestamp { secs: 0, nanos: 0 });
    sort_items(&mut items, "last-used", now());
    assert_eq!(items[0].name, "libyaml");
    assert_eq!(items[1].name, "typescript");
}

#[test]
fn info_query_matches_names_ids_and_aliases() {
    let items = sample();
    assert_eq!(info_matches(&items, "postgres"), vec![0]);
    assert_eq!(info_matches(&items, "GOLANG"), vec![5]);
    assert_eq!(info_matches(&items, "brew:"), vec![0, 1, 4]);
    assert_eq!(info_matches(&items, "nodejs"), vec![2]);
    assert_eq!(info_matches(&items, "typescript"), vec![2]);
}

#[test]
fn filter_command_options() {
    let items = sample();
    let base = FilterOptions { ecosystem: None, orphans: false, caches: false, top_level: false, older_than: None, category: None };
    assert_eq!(filter_indices(&items, &base, now()), vec![0, 1, 2, 3, 4, 5]);
    let o = FilterOptions { ecosystem: Some("Brew".to_string()), ..base };
    assert_eq!(filter_indices(&items, &o, now()), vec![0, 1, 4]);
    let o = FilterOptions { ecosystem: None, orphans: true, caches: false, top_level: false, older_than: None, category: None };
    assert_eq!(filter_indices(&items, &o, now()), vec![1]);
    let o = FilterOptions { ecosystem: None, orphans: false, caches: false, top_level: false, older_than: None, category: Some("CLI".to_string()) };
    assert_eq!(filter_indices(&items, &o, now()), vec![2, 5]);
    let o = FilterOptions { ecosystem: None, orphans: false, caches: false, top_level: true, older_than: Some(1), category: None };
    assert_eq!(filter_indices(&items, &o, now()), Vec::<usize>::new());
}

#[test]
fn prune_command_defaults_to_orphans_and_caches() {
    let items = sample();
    let o = PruneOptions { orphans: false, caches: false, ecosystem: None, older_than: None };
    assert_eq!(prune_indices_for(&items, &o, now()), vec![1, 3]);
    let o = PruneOptions { orphans: false, caches: true, ecosystem: None, older_than: None };
    assert_eq!(prune_indices_for(&items, &o, now()), vec![3]);
    let o = PruneOptions { orphans: true, caches: false, ecosystem: Some("cache".to_string()), older_than: None };
    assert_eq!(prune_indices_for(&items, &o, now()), Vec::<usize>::new());
    let o = PruneOptions { orphans: false, caches: false, ecosystem: None, older_than: Some(0) };
    assert_eq!(prune_indices_for(&items, &o, now()), Vec::<usize>::new());
}

#[test]
fn summary_totals() {
    let items = sample();
    let s = summarize(&items);
    assert_eq!(s.total_count, 6);
    assert_eq!(s.total_bytes, 1450);
    assert_eq!(s.orphan_count, 1);
    assert_eq!(s.orphan_bytes, 100);
    assert_eq!(s.cache_count, 1);
    assert_eq!(s.cache_bytes, 200);
    assert_eq!(s.top_level_count, 3);
    assert_eq!(s.dependency_count, 1);
    assert_eq!(table_totals(&items, 2), (2, 1450, 100));
    assert_eq!(table_totals(&items, 0), (6, 1450, 100));
    assert_eq!(table_totals(&items, 60), (6, 1450, 100));
}

#[test]
fn breakdowns_group_and_order_by_size() {
    let items = sample();
    let b = source_breakdown(&items);
    assert_eq!(b.len(), 4);
    assert_eq!(b[0], (PackageSource::NpmGlobal, 1, 500));
    assert_eq!(b[1], (PackageSource::BrewFormula, 3, 450));
    assert_eq!(b[2], (PackageSource::GoBin, 1, 300));
    assert_eq!(b[3], (PackageSource::BuildCache, 1, 200));
    let c = category_breakdown(&items);
    assert_eq!(c[0], (Category::CliDeveloperTools, 2, 800));
    assert_eq!(c[1], (Category::DatabasesAndStorage, 1, 300));
    assert_eq!(c[3], (Category::SystemAndLibraries, 2, 150));
}

#[test]
fn status_texts_and_table_window() {
    let d = PackageStatus::Dependency { required_by_count: 3 };
    assert_eq!(status_short_text(&d), "Dep (3 refs)");
    assert_eq!(status_detail_text(&d), "Shared Dependency (Required by 3 packages)");
    assert_eq!(status_info_text(&PackageStatus::Orphan), "🧹 Orphan Dependency (0 references)");
    assert_eq!(visible_window(0, 10, 4), (0, 4));
    assert_eq!(visible_window(12, 10, 30), (3, 13));
    assert_eq!(visible_window(29, 10, 30), (20, 30));
}
