use etop::models::category::Category;
use etop::models::item::{AssociatedMetadata, InventoryItem, PackageSource, Timestamp};
use etop::models::tombstone::PackageTombstone;
use etop::text::{join_with, utf8_prefix};
use etop::tui::app::{App, AuditEvent, InputMode};
use etop::tui::screen::{env_shown_text, item_detail_lines, tombstone_detail_lines, tombstone_row_of, Piece, Tone};

fn item(id: &str, name: &str, source: PackageSource, size: u64, top: bool, cat: Category) -> InventoryItem {
    InventoryItem {
        id: id.to_string(),
        name: name.to_string(),
        source,
        version: None,
        install_path: format!("/x/{}", name),
        size_bytes: size,
        last_accessed_at: None,
        last_modified_at: None,
        is_top_level: top,
        required_by: Vec::new(),
        category: cat,
        uninstall_cmd: Some(format!("remove {}", name)),
        reinstall_cmd: None,
    }
}

fn sample() -> Vec<InventoryItem> {
    vec![
        item("brew:jq", "jq", PackageSource::BrewFormula, 300, true, Category::CliDeveloperTools),
        item("brew:libyaml", "libyaml", PackageSource::BrewFormula, 100, false, Category::SystemAndLibraries),
        item("npm:typescript", "TypeScript", PackageSource::NpmGlobal, 500, true, Category::CliDeveloperTools),
        item("cache:uv-wheels", "UV Cache", PackageSource::BuildCache, 200, true, Category::BuildArtifactsAndCaches),
    ]
}

fn loaded() -> App {
    let mut app = App::new_streaming();
    app.apply_event(AuditEvent::AuditComplete { final_items: sample(), elapsed_ms: 42 });
    app
}

fn texts(v: &[Piece]) -> Vec<String> {
    v.iter().map(|p| p.text.clone()).collect()
}

fn joined(v: &[Piece]) -> String {
    v.iter().map(|p| p.text.as_str()).collect::<Vec<_>>().join("")
}

fn at(secs: i64) -> Timestamp {
    Timestamp { secs, nanos: 0 }
}

#[test]
fn header_shows_counts_totals_and_sort() {
    let mut app = loaded();
    app.toggle_mark();
    let line = app.header_line();
    assert_eq!(
        joined(&line),
        " ⚡ etop  | Items: 4/4 | Orphans: 1 (100 B) | Marked: 1 (500 B) | Sort: Disk Size (Largest first)"
    );
    assert_eq!(line[0].tone, Tone::Cyan);
    assert!(line[0].bold);
    assert_eq!(line[4].text, "1 (100 B)");
    assert_eq!(line[4].tone, Tone::Magenta);
    assert_eq!(line[6].tone, Tone::Green);
    assert_eq!(line[8].tone, Tone::LightBlue);
    assert!(!line[8].bold);
}

#[test]
fn header_lists_active_filters() {
    let mut app = loaded();
    app.toggle_ecosystem("brew");
    app.toggle_category(Category::CliDeveloperTools);
    app.cycle_inactivity();
    app.toggle_orphans();
    app.search_push('j');
    let text = joined(&app.header_line());
    assert!(text.ends_with(" | Eco: BREW | Cat: CLI Developer Tools | Inactive: >30d [ORPHANS] | 🔍 \"j\""), "{}", text);
}

#[test]
fn header_while_loading_shows_the_spinner() {
    let app = App::new_streaming();
    let line = app.header_line();
    assert_eq!(texts(&line), vec![" ⚡ etop ", " ⠋ ", "Auditing macOS toolchains...", " | Items: ", "0/0"]);
    assert_eq!(line[1].tone, Tone::Yellow);
}

#[test]
fn history_header_counts_tombstones() {
    let mut app = loaded();
    app.open_history(Some(Vec::new()));
    assert_eq!(app.input_mode, InputMode::HistoryView);
    assert_eq!(
        joined(&app.header_line()),
        " 🏛️ etop History & Tombstone Archive  | Archived Removals: 0 | Press [Esc/h] to return to Live Inventory"
    );
}

#[test]
fn footer_follows_the_mode() {
    let mut app = loaded();
    let normal = joined(&app.footer_line());
    assert!(normal.starts_with(" [f] Filter  [s] Sort  [m] Mark  "), "{}", normal);
    assert!(normal.ends_with("Quit | 📢 ✓ Complete! Audited 4 packages in 42ms"), "{}", normal);
    app.input_mode = InputMode::FilterMenu;
    app.toggle_orphans();
    let filter = app.footer_line();
    assert_eq!(filter[3].text, "[ON]");
    assert_eq!(filter[3].tone, Tone::Magenta);
    assert_eq!(filter[7].text, "[off]");
    assert_eq!(filter[14].text, "Eco:ALL -> ");
    assert_eq!(filter[18].text, "Inact:ALL ");
    app.input_mode = InputMode::EcosystemMenu;
    app.toggle_ecosystem("rust");
    let eco = app.footer_line();
    assert_eq!(eco.len(), 1 + 10 * 4 + 4);
    assert_eq!(eco[3].text, "[ ]");
    assert_eq!(texts(&eco[5..9]), vec!["[u] ", "Rust ", "[✓]", "  "]);
    assert_eq!(eco[7].tone, Tone::Green);
    app.input_mode = InputMode::CategoryMenu;
    app.toggle_category(Category::DatabasesAndStorage);
    let cats = app.footer_line();
    assert_eq!(cats.len(), 1 + 8 * 4 + 4);
    assert_eq!(cats[7].text, "[✓]");
    app.input_mode = InputMode::Searching;
    app.search_query = "ty".to_string();
    assert_eq!(joined(&app.footer_line()), " 🔍 SEARCH: ty█  (Press Enter/Esc to confirm)");
}

#[test]
fn table_rows_show_each_column() {
    let mut app = loaded();
    app.toggle_mark();
    let row = app.table_row(0, at(0));
    assert_eq!(
        texts(&row),
        vec!["[✓]", "🌐 npm:global", "TypeScript", "CLI Developer Tools", "500 B", "Top-Level", "Unknown"]
    );
    assert_eq!(row[0].tone, Tone::Green);
    assert_eq!(row[5].tone, Tone::Cyan);
    let orphan = app.table_row(3, at(0));
    assert_eq!(orphan[0].text, "[ ]");
    assert_eq!(orphan[5].text, "Orphan (0 refs)");
    assert_eq!(orphan[5].tone, Tone::Magenta);
    assert_eq!(app.table_title(), " Installed Packages & Artifacts ");
    assert_eq!(App::new_streaming().table_title(), " Installed Packages & Artifacts ⠋ Streaming live discoveries... ");
}

#[test]
fn inspector_while_loading_lists_the_audit() {
    let app = App::new_streaming();
    let lines = app.inspector_lines(&AssociatedMetadata::empty(), at(0));
    assert_eq!(lines.len(), 15);
    assert_eq!(joined(&lines[0]), " ⠋ Background Systems Audit in Progress");
    assert_eq!(joined(&lines[2]), "  Current Stage: Initializing collectors & discovery engines...");
    assert!(lines[3].is_empty());
    assert_eq!(joined(&lines[4]), "  ⠋ Homebrew Formulae & Casks (brew info --json)");
    assert_eq!(joined(&lines[14]), "⚡ Controls are fully responsive during loading!");
}

#[test]
fn inspector_shows_the_selected_item() {
    let mut app = loaded();
    app.items[2].version = Some("5.4".to_string());
    app.items[2].last_accessed_at = Some(at(0));
    app.items[2].required_by = vec!["a".to_string(), "b".to_string()];
    let meta = AssociatedMetadata {
        configs: vec!["/h/.tsrc".to_string()],
        data_dirs: Vec::new(),
        logs: Vec::new(),
        caches: Vec::new(),
        env_vars: vec![("TS_HOME".to_string(), "/opt/ts".to_string())],
    };
    let lines = app.inspector_lines(&meta, at(3 * 86_400));
    let shown: Vec<String> = lines.iter().map(|l| joined(l)).collect();
    assert_eq!(
        shown,
        vec![
            "📦 Package: TypeScript (5.4)",
            "🏷️  Category: 🛠️ CLI Developer Tools",
            "🔗 Status: Shared Dependency (Required by 2 packages)",
            "💾 Real Disk Size: 500 B",
            "📂 Install Path: /x/TypeScript",
            "⏱️  Last Accessed: 3 days ago",
            "⛓️  Required By: a, b",
            "",
            "⚙️  Preserved Configs: (1 found)",
            "  • /h/.tsrc",
            "",
            "🌐 Environment Variables: (1 active)",
            "  TS_HOME=/opt/ts",
            "",
            "✂️  Uninstall Command:\n  remove TypeScript",
        ]
    );
    app.search_query = "zzz".to_string();
    app.reapply_filters();
    let none = app.inspector_lines(&meta, at(0));
    assert_eq!(none.len(), 1);
    assert_eq!(joined(&none[0]), "No package matches the current filters");
}

#[test]
fn item_detail_adds_reinstall_and_sections() {
    let mut it = item("brew:jq", "jq", PackageSource::BrewFormula, 2048, false, Category::CliDeveloperTools);
    it.reinstall_cmd = Some("brew install jq".to_string());
    it.required_by = vec!["x".to_string()];
    let meta = AssociatedMetadata {
        configs: Vec::new(),
        data_dirs: vec!["/d1".to_string(), "/d2".to_string()],
        logs: vec!["/l".to_string()],
        caches: vec!["/c".to_string()],
        env_vars: Vec::new(),
    };
    let shown: Vec<String> = item_detail_lines(&it, &meta, at(0)).iter().map(|l| joined(l)).collect();
    assert_eq!(shown.len(), 20);
    assert_eq!(shown[2], "🔗 Status: Shared Dependency (Required by 1 packages)");
    assert_eq!(shown[3], "💾 Real Disk Size: 2 KB");
    assert_eq!(shown[5], "⛓️  Required By: x");
    assert_eq!(&shown[6..10], &["".to_string(), "💾 Data & State Dirs: (2 found)".to_string(), "  • /d1".to_string(), "  • /d2".to_string()]);
    assert_eq!(shown[11], "📜 Associated Logs: (1 found)");
    assert_eq!(shown[14], "⚡ Associated Caches: (1 found)");
    assert_eq!(shown[17], "✂️  Uninstall Command:\n  remove jq");
    assert_eq!(&shown[shown.len() - 2..], &["".to_string(), "🔄 Reinstall Command:\n  brew install jq".to_string()]);
}

#[test]
fn long_environment_values_are_cut() {
    let long = "x".repeat(45);
    assert_eq!(env_shown_text(&long), format!("{}...", "x".repeat(37)));
    let exact = "y".repeat(40);
    assert_eq!(env_shown_text(&exact), exact);
    let wide = format!("{}é{}", "a".repeat(35), "b".repeat(10));
    assert_eq!(env_shown_text(&wide), format!("{}é...", "a".repeat(35)));
}

#[test]
fn utf8_prefix_stops_at_whole_characters() {
    assert_eq!(utf8_prefix("héllo", 2), "h");
    assert_eq!(utf8_prefix("héllo", 3), "hé");
    assert_eq!(utf8_prefix("abc", 10), "abc");
    assert_eq!(utf8_prefix("abc", 0), "");
}

#[test]
fn join_with_separates_parts() {
    assert_eq!(join_with(&vec!["a".to_string(), "b".to_string(), "c".to_string()], ", "), "a, b, c");
    assert_eq!(join_with(&vec!["only".to_string()], ", "), "only");
    assert_eq!(join_with(&Vec::new(), ", "), "");
}

fn tombstone() -> PackageTombstone {
    PackageTombstone {
        id: "brew:jq".to_string(),
        name: "jq".to_string(),
        source: PackageSource::BrewFormula,
        version: Some("1.7".to_string()),
        removed_at: at(0),
        install_path: "/opt/jq".to_string(),
        size_bytes: 3 * 1024 * 1024,
        last_accessed_at: None,
        category: Category::CliDeveloperTools,
        required_by: Vec::new(),
        associated_metadata: AssociatedMetadata {
            configs: vec!["/h/.jq".to_string()],
            data_dirs: Vec::new(),
            logs: vec!["/var/log/jq.log".to_string()],
            caches: Vec::new(),
            env_vars: vec![("JQ_COLORS".to_string(), "1;30".to_string())],
        },
        uninstall_cmd: Some("brew uninstall jq".to_string()),
        reinstall_cmd: Some("brew install jq".to_string()),
        log_purge_cmds: Vec::new(),
    }
}

#[test]
fn history_rows_and_inspector() {
    let t = tombstone();
    assert_eq!(
        texts(&tombstone_row_of(&t)),
        vec!["1970-01-01 00:00", "🍺 brew:formula", "jq", "3.0 MB", "1 files"]
    );
    let shown: Vec<String> = tombstone_detail_lines(&t).iter().map(|l| joined(l)).collect();
    assert_eq!(
        shown,
        vec![
            "🏛️ Archived Tombstone: jq (1.7)",
            "🕒 Removed At: 1970-01-01 00:00:00 UTC",
            "🏷️  Category: 🛠️ CLI Developer Tools",
            "💾 Reclaimed Size: 3.0 MB",
            "📂 Original Install Path: /opt/jq",
            "",
            "⚙️  Preserved Config Files: (1 preserved)",
            "  • /h/.jq",
            "",
            "📜 Associated Log File Paths: ",
            "  • /var/log/jq.log",
            "",
            "🌐 Associated Environment Variables: ",
            "  JQ_COLORS=1;30",
            "",
            "🔄 Inverse Reinstall Command:\n  brew install jq",
        ]
    );
    let mut app = App::new_streaming();
    assert_eq!(joined(&app.tombstone_lines()[0]), "No package tombstone selected. Run a cleanup to archive packages.");
    app.open_history(Some(vec![t]));
    assert_eq!(app.tombstone_lines().len(), 16);
}
