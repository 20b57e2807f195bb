use etop::models::category::Category;
use etop::models::item::{AssociatedMetadata, InventoryItem, PackageSource};
use etop::models::metadata::{is_stem_usable, parent_step, PathProbe};

fn item(name: &str) -> InventoryItem {
    InventoryItem {
        id: format!("brew:{}", name),
        name: name.to_string(),
        source: PackageSource::BrewFormula,
        version: None,
        install_path: "/tmp/x".to_string(),
        size_bytes: 0,
        last_accessed_at: None,
        last_modified_at: None,
        is_top_level: true,
        required_by: Vec::new(),
        category: Category::Uncategorized,
        uninstall_cmd: None,
        reinstall_cmd: None,
    }
}

fn probe(is_dir: bool, is_file: bool) -> PathProbe {
    PathProbe { exists: is_dir || is_file, is_dir, is_file, entries: Vec::new() }
}

#[test]
fn candidates_follow_the_name_stem() {
    let c = item("PostgreSQL@16").metadata_candidates("/h").unwrap();
    assert_eq!(c.stem, "postgresql");
    assert_eq!(c.configs[0], "/h/.config/postgresql");
    assert_eq!(c.caches[2], "/h/.cache/postgresql");
    assert_eq!(c.logs[0], "/h/Library/Logs/PostgreSQL@16");
}

#[test]
fn parent_and_short_stems_are_not_searched() {
    assert!(item("..").metadata_candidates("/h").is_none());
    assert!(item(".").metadata_candidates("/h").is_none());
    assert!(item("x").metadata_candidates("/h").is_none());
    assert!(!is_stem_usable(".."));
    assert!(is_stem_usable("..x"));
}

#[test]
fn purges_skip_paths_with_parent_steps() {
    assert!(parent_step("/h/.cache/.."));
    assert!(parent_step("../x"));
    assert!(!parent_step("/h/.cache/..x"));
    let meta = AssociatedMetadata {
        configs: vec!["/h/.config/x".to_string()],
        data_dirs: Vec::new(),
        logs: vec!["/h/Library/Logs/x".to_string(), "/h/Library/Logs/../Preferences".to_string(), "/h/x.log".to_string()],
        caches: vec!["/h/.cache/..".to_string(), "/h/.cache/x".to_string()],
        env_vars: Vec::new(),
    };
    let cmds = InventoryItem::generate_targeted_log_purge_cmds(
        &meta,
        &vec![probe(true, false), probe(true, false), probe(false, true)],
        &vec![probe(true, false), probe(true, false)],
    );
    assert_eq!(
        cmds,
        vec![
            "rm -rf \"/h/Library/Logs/x\"".to_string(),
            "rm -f \"/h/x.log\"".to_string(),
            "rm -rf \"/h/.cache/x\"".to_string(),
        ]
    );
}
