use etop::models::category::Category;
use etop::models::item::{InventoryItem, PackageSource, Timestamp};
use etop::models::tombstone::PackageTombstone;
use etop::tui::app::{App, AuditEvent, InputMode, SortOrder};
use etop::tui::keys::{key_action, Action, EcoChoice, Key};
use etop::tui::step::Effect;

fn item(id: &str, name: &str, source: PackageSource, size: u64, top: bool, cat: Category) -> InventoryItem {
    InventoryItem {
        id: id.to_string(),
        name: name.to_string(),
        source,
        version: None,
        install_path: format!("/x/{}", name),
        size_bytes: size,
        last_accessed_at: None,
        last_modified_at: None,
        is_top_level: top,
        required_by: Vec::new(),
        category: cat,
        uninstall_cmd: Some(format!("remove {}", name)),
        reinstall_cmd: None,
    }
}

fn sample() -> Vec<InventoryItem> {
    vec![
        item("brew:jq", "jq", PackageSource::BrewFormula, 300, true, Category::CliDeveloperTools),
        item("brew:libyaml", "libyaml", PackageSource::BrewFormula, 100, false, Category::SystemAndLibraries),
        item("npm:typescript", "TypeScript", PackageSource::NpmGlobal, 500, true, Category::CliDeveloperTools),
        item("cache:uv-wheels", "UV Cache", PackageSource::BuildCache, 200, true, Category::BuildArtifactsAndCaches),
    ]
}

fn loaded() -> App {
    let mut app = App::new_streaming();
    app.apply_event(AuditEvent::AuditComplete { final_items: sample(), elapsed_ms: 42 });
    app
}

fn names(app: &App) -> Vec<String> {
    app.filtered_indices.iter().map(|&i| app.items[i].name.clone()).collect()
}

#[test]
fn starts_empty_and_loading() {
    let app = App::new_streaming();
    assert!(app.is_loading);
    assert_eq!(app.items.len(), 0);
    assert_eq!(app.filtered_indices.len(), 0);
    assert_eq!(app.status_message, Some(("Starting real-time software audit...".to_string(), true)));
    assert_eq!(app.current_stage, "Initializing collectors & discovery engines...");
    assert_eq!(app.spinner(), "⠋");
}

#[test]
fn events_update_stage_items_and_status() {
    let mut app = App::new_streaming();
    app.tick_events(vec![
        AuditEvent::StageUpdate { stage_name: "Scanning".to_string(), discovered_count: 0 },
        AuditEvent::StageUpdate { stage_name: "Auditing".to_string(), discovered_count: 4 },
    ]);
    assert_eq!(app.spin_idx, 1);
    assert_eq!(app.current_stage, "Auditing");
    assert_eq!(app.status_message, Some(("Discovered 4 packages so far...".to_string(), true)));
    app.tick_events(vec![AuditEvent::IncrementalBatch { items: sample() }]);
    assert_eq!(app.filtered_indices.len(), 4);
    assert!(app.is_loading);
    app.tick_events(vec![AuditEvent::AuditComplete { final_items: sample(), elapsed_ms: 1234 }]);
    assert!(!app.is_loading);
    assert_eq!(app.status_message, Some(("✓ Complete! Audited 4 packages in 1234ms".to_string(), true)));
    for _ in 0..9 {
        app.tick_events(Vec::new());
    }
    assert_eq!(app.spin_idx, 2);
    assert_eq!(app.spinner(), "⠹");
}

#[test]
fn default_sort_is_largest_first_and_sorts_switch() {
    let mut app = loaded();
    assert_eq!(names(&app), vec!["TypeScript", "jq", "UV Cache", "libyaml"]);
    app.set_sort(SortOrder::NameAsc);
    assert_eq!(names(&app), vec!["jq", "libyaml", "TypeScript", "UV Cache"]);
    assert_eq!(app.status_message, Some(("Sort: Package Name (A-Z)".to_string(), true)));
    app.set_sort(SortOrder::SourceAsc);
    assert_eq!(names(&app), vec!["jq", "libyaml", "TypeScript", "UV Cache"]);
    app.set_sort(SortOrder::CategoryAsc);
    assert_eq!(names(&app), vec!["jq", "TypeScript", "UV Cache", "libyaml"]);
}

#[test]
fn filters_narrow_the_list() {
    let mut app = loaded();
    app.toggle_orphans();
    assert_eq!(names(&app), vec!["libyaml"]);
    assert_eq!(app.status_message, Some(("Orphan Filter: ON".to_string(), true)));
    app.toggle_orphans();
    app.toggle_caches();
    assert_eq!(names(&app), vec!["UV Cache"]);
    app.clear_filters();
    assert_eq!(app.filtered_indices.len(), 4);
    app.toggle_ecosystem("js");
    assert_eq!(names(&app), vec!["TypeScript"]);
    app.toggle_ecosystem("brew");
    assert_eq!(app.ecosystems_summary(), "BREW+JS");
    assert_eq!(app.status_message, Some(("Active Ecosystems: BREW+JS".to_string(), true)));
    assert_eq!(names(&app), vec!["TypeScript", "jq", "libyaml"]);
    app.toggle_ecosystem("js");
    assert_eq!(app.ecosystems_summary(), "BREW");
    app.clear_ecosystems();
    assert_eq!(app.ecosystems_summary(), "ALL");
    app.toggle_category(Category::SystemAndLibraries);
    app.toggle_category(Category::CliDeveloperTools);
    assert_eq!(app.categories_summary(), "CLI Developer Tools+System & Libraries");
    assert_eq!(names(&app), vec!["TypeScript", "jq", "libyaml"]);
    app.clear_categories();
    app.toggle_top_level();
    assert_eq!(names(&app), vec!["TypeScript", "jq", "UV Cache"]);
}

#[test]
fn search_matches_name_id_category_and_source() {
    let mut app = loaded();
    for c in "  TYPE".chars() {
        app.search_push(c);
    }
    assert_eq!(names(&app), vec!["TypeScript"]);
    app.search_clear();
    for c in "cache:".chars() {
        app.search_push(c);
    }
    assert_eq!(names(&app), vec!["UV Cache"]);
    app.search_pop();
    app.search_pop();
    assert_eq!(app.search_query, "cach");
    assert_eq!(names(&app), vec!["UV Cache"]);
}

#[test]
fn inactivity_threshold_cycles() {
    let mut app = loaded();
    app.cycle_inactivity();
    assert_eq!(app.min_inactivity_days, Some(30));
    assert_eq!(app.status_message, Some(("Inactivity Filter: >30 days".to_string(), true)));
    for _ in 0..3 {
        app.cycle_inactivity();
    }
    assert_eq!(app.min_inactivity_days, Some(365));
    app.cycle_inactivity();
    assert_eq!(app.min_inactivity_days, None);
    assert_eq!(app.status_message, Some(("Inactivity Filter: ALL".to_string(), true)));
    let mut old = loaded();
    old.items[0].last_accessed_at = Some(Timestamp { secs: 0, nanos: 0 });
    old.min_inactivity_days = Some(30);
    old.reapply_filters_at(Timestamp { secs: 40 * 86_400, nanos: 0 });
    assert_eq!(names(&old), vec!["jq"]);
}

#[test]
fn navigation_wraps_and_pages_stop_at_the_ends() {
    let mut app = loaded();
    assert_eq!(app.selected_index, 0);
    app.previous();
    assert_eq!(app.selected_index, 3);
    app.next();
    assert_eq!(app.selected_index, 0);
    app.page_down();
    assert_eq!(app.selected_index, 3);
    app.page_up();
    assert_eq!(app.selected_index, 0);
    app.next();
    app.next();
    app.previous();
    assert_eq!(app.selected_index, 1);
    app.toggle_caches();
    assert_eq!(app.selected_index, 0);
}

#[test]
fn marks_toggle_and_bulk_marks_count() {
    let mut app = loaded();
    app.toggle_mark();
    assert_eq!(app.marked_for_prune, vec!["npm:typescript".to_string()]);
    app.toggle_mark();
    assert!(app.marked_for_prune.is_empty());
    app.mark_visible_orphans();
    assert_eq!(app.marked_for_prune, vec!["brew:libyaml".to_string()]);
    assert_eq!(app.status_message, Some(("Marked 1 visible orphan dependencies".to_string(), true)));
    app.mark_all_visible();
    assert_eq!(app.status_message, Some(("Marked 4 visible packages".to_string(), true)));
    assert_eq!(app.marked_for_prune.len(), 4);
    app.mark_visible_caches();
    assert_eq!(app.marked_for_prune.len(), 4);
    let totals = app.header_totals();
    assert_eq!(totals, (4, 1100, 1, 100));
    app.clear_marks();
    assert!(app.marked_for_prune.is_empty());
    assert_eq!(app.status_message, Some(("Cleared all selections".to_string(), true)));
}

#[test]
fn prune_selection_prefers_marks_then_orphans_and_caches() {
    let mut app = loaded();
    let picked = app.prune_request();
    let ids: Vec<&str> = picked.iter().map(|i| i.id.as_str()).collect();
    assert_eq!(ids, vec!["cache:uv-wheels", "brew:libyaml"]);
    app.toggle_mark();
    let picked = app.prune_request();
    assert_eq!(picked.len(), 1);
    assert_eq!(picked[0].id, "npm:typescript");
    app.scripts_saved(&picked, "cleanup_x.sh");
    assert_eq!(
        app.status_message,
        Some(("Saved cleanup_x.sh & manifest (1 items, 500 B). Run 'bash cleanup_x.sh' to clean".to_string(), true))
    );
    let mut empty = App::new_streaming();
    assert!(empty.prune_request().is_empty());
    assert_eq!(empty.status_message, Some(("No items selected or orphan/cache to prune".to_string(), false)));
}

#[test]
fn history_view_navigates_tombstones() {
    let mut app = loaded();
    app.open_history(None);
    assert_eq!(app.status_message, Some(("Failed to load history store".to_string(), false)));
    assert_eq!(app.input_mode, InputMode::Normal);
    let ts: Vec<PackageTombstone> = sample()
        .iter()
        .map(|i| i.to_tombstone(etop::models::item::AssociatedMetadata::empty(), Vec::new(), Timestamp { secs: 0, nanos: 0 }))
        .collect();
    app.open_history(Some(ts));
    assert_eq!(app.input_mode, InputMode::HistoryView);
    assert_eq!(app.status_message, Some(("Loaded 4 uninstalled package tombstones".to_string(), true)));
    app.page_down();
    assert_eq!(app.selected_tombstone_idx, 3);
    app.next();
    assert_eq!(app.selected_tombstone_idx, 0);
    assert_eq!(app.selected_index, 0);
    let sel = app.current_selected_item().map(|i| i.name.clone());
    assert_eq!(sel.as_deref(), Some("TypeScript"));
}

#[test]
fn keys_map_to_actions_by_mode() {
    let ch = |c: char| Key::Char { c, ctrl: false };
    assert_eq!(key_action(InputMode::Normal, ch('q')), Action::Quit);
    assert_eq!(key_action(InputMode::Normal, Key::Enter), Action::GenerateScripts);
    assert_eq!(key_action(InputMode::Normal, ch('/')), Action::SetMode(InputMode::Searching));
    assert_eq!(key_action(InputMode::Searching, ch('q')), Action::SearchPush('q'));
    assert_eq!(key_action(InputMode::Searching, Key::Char { c: 'u', ctrl: true }), Action::SearchClear);
    assert_eq!(key_action(InputMode::Searching, Key::Backspace), Action::SearchPop);
    assert_eq!(key_action(InputMode::EcosystemMenu, ch('k')), Action::ToggleEcosystem(EcoChoice::Docker));
    assert_eq!(EcoChoice::Docker.query(), "docker");
    assert_eq!(key_action(InputMode::CategoryMenu, ch('x')), Action::ClearCategories);
    assert_eq!(key_action(InputMode::SortMenu, ch('3')), Action::SortBy(SortOrder::LastUsedDesc));
    assert_eq!(key_action(InputMode::MarkMenu, ch('o')), Action::MarkOrphans);
    assert_eq!(key_action(InputMode::HistoryView, Key::Down), Action::Next);
    assert_eq!(key_action(InputMode::HelpModal, ch('x')), Action::Nothing);
    assert_eq!(key_action(InputMode::FilterMenu, ch('e')), Action::SetMode(InputMode::EcosystemMenu));
}

#[test]
fn key_presses_drive_the_dashboard() {
    let ch = |c: char| Key::Char { c, ctrl: false };
    let mut app = loaded();
    assert_eq!(app.press(ch('s')), Effect::Continue);
    assert_eq!(app.input_mode, InputMode::SortMenu);
    assert_eq!(app.press(ch('2')), Effect::Continue);
    assert_eq!(app.input_mode, InputMode::Normal);
    assert_eq!(app.active_sort, SortOrder::NameAsc);
    assert_eq!(names(&app), vec!["jq", "libyaml", "TypeScript", "UV Cache"]);
    assert_eq!(app.press(ch('m')), Effect::Continue);
    assert_eq!(app.press(ch('o')), Effect::Continue);
    assert_eq!(app.input_mode, InputMode::Normal);
    assert_eq!(app.marked_for_prune, vec!["brew:libyaml".to_string()]);
    assert_eq!(app.press(ch('/')), Effect::Continue);
    assert_eq!(app.press(ch('t')), Effect::Continue);
    assert_eq!(app.search_query, "t");
    assert_eq!(app.press(Key::Enter), Effect::Continue);
    assert_eq!(app.input_mode, InputMode::Normal);
    assert_eq!(app.press(ch('h')), Effect::LoadHistory);
    assert_eq!(app.press(ch('x')), Effect::WriteScripts);
    assert_eq!(app.press(ch('q')), Effect::Quit);
    assert_eq!(app.perform(Action::Nothing), Effect::Continue);
}

#[test]
fn clearing_filters_lists_every_item() {
    let mut app = loaded();
    app.toggle_orphans();
    app.toggle_ecosystem("brew");
    app.search_push('z');
    assert_eq!(app.filtered_indices.len(), 0);
    app.clear_filters();
    let mut listed = app.filtered_indices.clone();
    listed.sort();
    assert_eq!(listed, vec![0, 1, 2, 3]);
    assert_eq!(app.status_message, Some(("Cleared all filters and search".to_string(), true)));
}

#[test]
fn inactivity_threshold_keeps_only_longer_inactivity() {
    let mut app = loaded();
    app.items[0].last_accessed_at = Some(Timestamp { secs: 0, nanos: 0 });
    app.items[1].last_accessed_at = Some(Timestamp { secs: -86_400, nanos: 0 });
    app.min_inactivity_days = Some(30);
    app.reapply_filters_at(Timestamp { secs: 30 * 86_400, nanos: 0 });
    assert_eq!(names(&app), vec!["libyaml"]);
}
