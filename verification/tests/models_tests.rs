use etop::models::category::{parse_category_string, Category};
use etop::models::item::{InventoryItem, PackageSource, PackageStatus, Timestamp};
use etop::size::format_bytes;

fn item(id: &str, name: &str, source: PackageSource) -> InventoryItem {
    InventoryItem {
        id: id.to_string(),
        name: name.to_string(),
        source,
        version: None,
        install_path: "/tmp/x".to_string(),
        size_bytes: 0,
        last_accessed_at: None,
        last_modified_at: None,
        is_top_level: true,
        required_by: Vec::new(),
        category: Category::Uncategorized,
        uninstall_cmd: None,
        reinstall_cmd: None,
    }
}

fn float_format(bytes: u64) -> String {
    let kb: u64 = 1024;
    let mb = kb * 1024;
    let gb = mb * 1024;
    if bytes >= gb {
        format!("{:.2} GB", bytes as f64 / gb as f64)
    } else if bytes >= mb {
        format!("{:.1} MB", bytes as f64 / mb as f64)
    } else if bytes >= kb {
        format!("{:.0} KB", bytes as f64 / kb as f64)
    } else {
        format!("{} B", bytes)
    }
}

#[test]
fn format_bytes_exact_values() {
    assert_eq!(format_bytes(0), "0 B");
    assert_eq!(format_bytes(1023), "1023 B");
    assert_eq!(format_bytes(1024), "1 KB");
    assert_eq!(format_bytes(1536), "2 KB");
    assert_eq!(format_bytes(2560), "2 KB");
    assert_eq!(format_bytes(1048576), "1.0 MB");
    assert_eq!(format_bytes(1572864), "1.5 MB");
    assert_eq!(format_bytes(1073741824), "1.00 GB");
    assert_eq!(format_bytes(5 * 1073741824 / 2), "2.50 GB");
}

#[test]
fn format_bytes_agrees_with_float_formatting() {
    let samples: Vec<u64> = vec![
        1, 512, 1000, 1025, 3583, 3584, 10_000, 999_999, 1_048_575, 1_048_577, 5_000_000, 52_428_800,
        107_374_182, 1_073_741_823, 1_073_741_825, 3_221_225_472, 12_345_678_901, 999_999_999_999,
        u64::MAX / 3, u64::MAX - 1, u64::MAX,
    ];
    for b in samples {
        assert_eq!(format_bytes(b), float_format(b), "bytes = {}", b);
    }
    let mut x: u64 = 7;
    for _ in 0..2000 {
        x = x.wrapping_mul(6364136223846793005).wrapping_add(1442695040888963407);
        let b = x >> (x % 50);
        assert_eq!(format_bytes(b), float_format(b), "bytes = {}", b);
    }
}

#[test]
fn category_names_and_emoji() {
    assert_eq!(Category::LanguagesAndRuntimes.as_str(), "Languages & Runtimes");
    assert_eq!(Category::GuiAppsAndMedia.as_str(), "GUI Apps & Media");
    assert_eq!(Category::Uncategorized.emoji(), "❓");
    assert_eq!(Category::DatabasesAndStorage.emoji(), "🗄️");
    assert_eq!(Category::CliDeveloperTools.to_display_string(), "🛠️ CLI Developer Tools");
}

#[test]
fn category_strings_parse_with_aliases() {
    assert_eq!(parse_category_string("Languages & Runtimes"), Category::LanguagesAndRuntimes);
    assert_eq!(parse_category_string("  cli tools "), Category::CliDeveloperTools);
    assert_eq!(parse_category_string("CLOUD & INFRA"), Category::InfrastructureAndCloud);
    assert_eq!(parse_category_string("caches"), Category::BuildArtifactsAndCaches);
    assert_eq!(parse_category_string("package managers"), Category::BuildAndPackageManagers);
    assert_eq!(parse_category_string("something else"), Category::Uncategorized);
}

#[test]
fn source_labels_and_ecosystem_queries() {
    assert_eq!(PackageSource::BrewFormula.label(), "brew:formula");
    assert!(PackageSource::NpmGlobal.matches_ecosystem("JS"));
    assert!(PackageSource::CargoBin.matches_ecosystem("rust"));
    assert!(!PackageSource::CargoBin.matches_ecosystem("ruby"));
    let mise_ruby = item("mise:ruby@3.3.0", "ruby (3.3.0)", PackageSource::MiseRuntime);
    assert!(mise_ruby.matches_ecosystem("Ruby"));
    let go = item("go:gopls", "gopls", PackageSource::GoBin);
    assert!(go.matches_ecosystem("go"));
    assert!(!go.matches_ecosystem("python"));
}

#[test]
fn status_follows_the_relationship_rules() {
    let mut a = item("brew:openssl", "openssl", PackageSource::BrewFormula);
    assert_eq!(a.status(), PackageStatus::TopLevel);
    a.is_top_level = false;
    assert_eq!(a.status(), PackageStatus::Orphan);
    assert!(a.is_orphan());
    a.required_by = vec!["brew:curl".to_string(), "brew:git".to_string()];
    assert_eq!(a.status(), PackageStatus::Dependency { required_by_count: 2 });
    assert!(!a.is_orphan());
    let c = item("cache:uv-wheels", "UV", PackageSource::BuildCache);
    assert_eq!(c.status(), PackageStatus::BuildCache);
    assert!(c.is_cache());
    let r = item("mise:node@20", "node (20)", PackageSource::MiseRuntime);
    assert_eq!(r.status(), PackageStatus::ActiveRuntime);
    assert_eq!(PackageStatus::Orphan.label(), "🧹 Orphan (0 refs)");
}

#[test]
fn inactivity_counts_whole_days() {
    let mut a = item("npm:x", "x", PackageSource::NpmGlobal);
    let now = Timestamp { secs: 1_700_000_000, nanos: 0 };
    assert_eq!(a.inactivity_days_at(now), None);
    assert_eq!(a.formatted_last_accessed_at(now), "Unknown");
    a.last_accessed_at = Some(Timestamp { secs: 1_700_000_000 - 3 * 86_400 - 5, nanos: 0 });
    assert_eq!(a.inactivity_days_at(now), Some(3));
    assert_eq!(a.formatted_last_accessed_at(now), "3d ago");
    a.last_accessed_at = Some(Timestamp { secs: 1_700_000_000 - 86_400, nanos: 0 });
    assert_eq!(a.formatted_last_accessed_at(now), "1d ago");
    a.last_accessed_at = Some(Timestamp { secs: 1_700_000_100, nanos: 0 });
    assert_eq!(a.inactivity_days_at(now), Some(0));
    assert_eq!(a.formatted_last_accessed_at(now), "Today");
    a.size_bytes = 2048;
    assert_eq!(a.formatted_size(), "2 KB");
}

#[test]
fn category_names_parse_back() {
    for c in [
        Category::LanguagesAndRuntimes,
        Category::DatabasesAndStorage,
        Category::CliDeveloperTools,
        Category::InfrastructureAndCloud,
        Category::BuildAndPackageManagers,
        Category::GuiAppsAndMedia,
        Category::BuildArtifactsAndCaches,
        Category::SystemAndLibraries,
        Category::Uncategorized,
    ] {
        assert_eq!(parse_category_string(c.as_str()), c);
    }
}

#[test]
fn ecosystem_queries_ignore_case_and_name_one_source() {
    let all = [
        PackageSource::BrewFormula,
        PackageSource::BrewCask,
        PackageSource::MiseRuntime,
        PackageSource::CargoBin,
        PackageSource::Gem,
        PackageSource::NpmGlobal,
        PackageSource::UvTool,
        PackageSource::GoBin,
        PackageSource::MacApp,
        PackageSource::BuildCache,
        PackageSource::DockerImage,
    ];
    for s in all {
        assert_eq!(s.matches_ecosystem("RuBy"), s.matches_ecosystem("ruby"));
        let prefix = s.label().split(':').next().unwrap();
        assert!(s.matches_ecosystem(prefix), "{}", prefix);
    }
    let brew: Vec<PackageSource> = all.iter().copied().filter(|s| s.matches_ecosystem("Homebrew")).collect();
    assert_eq!(brew, vec![PackageSource::BrewFormula, PackageSource::BrewCask]);
    let rust: Vec<PackageSource> = all.iter().copied().filter(|s| s.matches_ecosystem("RUST")).collect();
    assert_eq!(rust, vec![PackageSource::CargoBin]);
}

#[test]
fn inactivity_reads_the_machine_clock() {
    let mut it = item("brew:jq", "jq", PackageSource::BrewFormula);
    assert_eq!(it.inactivity_days(), None);
    it.last_accessed_at = Some(Timestamp { secs: 0, nanos: 0 });
    let days = it.inactivity_days().unwrap();
    assert!(days > 19_000, "{}", days);
    assert!(it.formatted_last_accessed().ends_with("d ago"));
}
