use etop::cleanup::history::{find_tombstone_index, sort_latest_first, HistoryStore};
use etop::cleanup::script_gen::{checked_total_size, ScriptGenerator};
use etop::models::category::Category;
use etop::models::item::{AssociatedMetadata, InventoryItem, PackageSource, Timestamp};
use etop::models::tombstone::{PackageTombstone, TombstoneManifest};

fn item(id: &str, name: &str, size: u64, uninstall: Option<&str>, reinstall: Option<&str>) -> InventoryItem {
    InventoryItem {
        id: id.to_string(),
        name: name.to_string(),
        source: PackageSource::BrewFormula,
        version: Some("1.0".to_string()),
        install_path: format!("/opt/homebrew/Cellar/{}", name),
        size_bytes: size,
        last_accessed_at: None,
        last_modified_at: None,
        is_top_level: false,
        required_by: Vec::new(),
        category: Category::CliDeveloperTools,
        uninstall_cmd: uninstall.map(|s| s.to_string()),
        reinstall_cmd: reinstall.map(|s| s.to_string()),
    }
}

fn tombstone(id: &str, name: &str, secs: i64) -> PackageTombstone {
    let it = item(id, name, 5, Some("brew uninstall x"), Some("brew install x"));
    it.to_tombstone(AssociatedMetadata::empty(), Vec::new(), Timestamp { secs, nanos: 0 })
}

#[test]
fn history_store_prefers_current_directory() {
    let s = HistoryStore::from_home(Some("/Users/me".to_string()), false, true);
    assert_eq!(s.tombstones_dir(), "/Users/me/.local/share/mac-cleanup/tombstones");
    let s = HistoryStore::from_home(Some("/Users/me".to_string()), true, true);
    assert_eq!(s.history_log_path(), "/Users/me/.local/share/etop/history.jsonl");
    let s = HistoryStore::from_home(None, false, false);
    assert_eq!(s.tombstones_dir(), "/tmp/etop/tombstones");
    assert_eq!(s.manifest_file_path("cleanup_1"), "/tmp/etop/tombstones/cleanup_1.json");
}

#[test]
fn tombstones_are_found_by_id_or_name_in_any_case() {
    let all = vec![tombstone("brew:ripgrep", "ripgrep", 10), tombstone("npm:typescript", "typescript", 20)];
    assert_eq!(find_tombstone_index(&all, "TypeScript"), Some(1));
    assert_eq!(find_tombstone_index(&all, "brew:rip"), Some(0));
    assert_eq!(find_tombstone_index(&all, "npm"), Some(1));
    assert_eq!(find_tombstone_index(&all, "python"), None);
}

#[test]
fn latest_removal_comes_first_and_ties_keep_order() {
    let all = vec![tombstone("a", "a", 10), tombstone("b", "b", 30), tombstone("c", "c", 10), tombstone("d", "d", -5)];
    let sorted = sort_latest_first(&all);
    let ids: Vec<&str> = sorted.iter().map(|t| t.id.as_str()).collect();
    assert_eq!(ids, vec!["b", "a", "c", "d"]);
}

#[test]
fn cleanup_script_runs_uninstalls_and_purges() {
    let t1 = item("brew:jq", "jq", 100, Some("brew uninstall jq"), Some("brew install jq"))
        .to_tombstone(AssociatedMetadata::empty(), vec!["rm -f \"/tmp/jq.log\"".to_string()], Timestamp { secs: 0, nanos: 0 });
    let t2 = item("go:gopls", "gopls", 50, Some("rm \"/go/bin/gopls\""), None)
        .to_tombstone(AssociatedMetadata::empty(), Vec::new(), Timestamp { secs: 0, nanos: 0 });
    let manifest = TombstoneManifest {
        manifest_id: "cleanup_20240101_000000".to_string(),
        created_at: Timestamp { secs: 0, nanos: 0 },
        total_packages: 2,
        total_reclaimed_bytes: 150,
        packages: vec![t1, t2],
    };
    let script = ScriptGenerator::render_cleanup_script(&manifest);
    assert!(script.starts_with("#!/usr/bin/env bash\n"));
    assert!(script.contains("brew uninstall jq\n"));
    assert!(script.contains("rm \"/go/bin/gopls\"\n"));
    assert!(script.contains("rm -f \"/tmp/jq.log\"\n"));
    assert!(script.contains("rollback_reinstall_20240101_000000.sh"));
    let rollback = ScriptGenerator::render_rollback_script(&manifest);
    assert!(rollback.contains("brew install jq\n"));
    assert!(rollback.contains("# Manual restore required for gopls"));
}

#[test]
fn plan_names_files_after_the_stamp_and_totals_sizes() {
    let items = vec![item("brew:a", "a", 3, Some("x"), None), item("brew:b", "b", 4, Some("y"), None)];
    let metas = vec![AssociatedMetadata::empty(), AssociatedMetadata::empty()];
    let purges = vec![vec!["rm -f \"/l/a.log\"".to_string()], Vec::new()];
    let removed = vec![Timestamp { secs: 5, nanos: 0 }, Timestamp { secs: 6, nanos: 0 }];
    let when = Timestamp { secs: 1_700_000_000, nanos: 0 };
    let plan = ScriptGenerator::plan(&items, &metas, &purges, &removed, when, when, "out");
    assert_eq!(plan.manifest.packages.len(), 2);
    assert_eq!(plan.manifest.packages[0].id, "brew:a");
    assert_eq!(plan.manifest.packages[1].id, "brew:b");
    assert_eq!(plan.manifest.packages[0].log_purge_cmds, purges[0]);
    assert_eq!(plan.manifest.packages[1].removed_at, removed[1]);
    assert!(plan.cleanup_script.contains("rm -f \"/l/a.log\""));
    assert_eq!(plan.manifest.manifest_id, "cleanup_20231114_221320");
    assert_eq!(plan.cleanup_path, "out/cleanup_20231114_221320.sh");
    assert_eq!(plan.rollback_path, "out/rollback_reinstall_20231114_221320.sh");
    assert_eq!(plan.manifest_path, "out/cleanup_manifest_20231114_221320.json");
    assert_eq!(plan.manifest.total_reclaimed_bytes, 7);
    assert_eq!(plan.manifest.total_packages, 2);
    assert_eq!(checked_total_size(&items), Some(7));
    let huge = vec![item("a", "a", u64::MAX, None, None), item("b", "b", 1, None, None)];
    assert_eq!(checked_total_size(&huge), None);
}

#[test]
fn uninstalls_come_before_the_purge_phase() {
    let t1 = item("brew:jq", "jq", 100, Some("brew uninstall jq"), None)
        .to_tombstone(AssociatedMetadata::empty(), vec!["rm -f \"/tmp/jq.log\"".to_string()], Timestamp { secs: 0, nanos: 0 });
    let t2 = item("gem:rake", "rake", 10, Some("gem uninstall rake"), None)
        .to_tombstone(AssociatedMetadata::empty(), vec!["rm -rf \"/tmp/rake-cache\"".to_string()], Timestamp { secs: 0, nanos: 0 });
    let manifest = TombstoneManifest {
        manifest_id: "cleanup_20240101_000000".to_string(),
        created_at: Timestamp { secs: 0, nanos: 0 },
        total_packages: 2,
        total_reclaimed_bytes: 110,
        packages: vec![t1, t2],
    };
    let script = ScriptGenerator::render_cleanup_script(&manifest);
    let phase2 = script.find("# PHASE 2: Targeted Log Files & Transient Cache Purge").unwrap();
    for c in ["brew uninstall jq", "gem uninstall rake"] {
        assert!(script.find(c).unwrap() < phase2);
    }
    for c in ["rm -f \"/tmp/jq.log\"", "rm -rf \"/tmp/rake-cache\""] {
        assert!(script.find(c).unwrap() > phase2);
    }
}

#[test]
fn scripts_carry_the_creation_time() {
    let manifest = TombstoneManifest {
        manifest_id: "cleanup_20240101_000000".to_string(),
        created_at: Timestamp { secs: 1_704_067_200, nanos: 0 },
        total_packages: 0,
        total_reclaimed_bytes: 0,
        packages: Vec::new(),
    };
    let script = ScriptGenerator::render_cleanup_script(&manifest);
    assert!(script.contains("# Generated At:          2024-01-01T00:00:00+00:00\n"), "{}", script);
    let rollback = ScriptGenerator::render_rollback_script(&manifest);
    assert!(rollback.contains("2024-01-01T00:00:00+00:00"), "{}", rollback);
}
