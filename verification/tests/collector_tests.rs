use etop::collectors::brew::{brew_cellar_paths, brew_items, BrewCollector};
use etop::collectors::caches::{docker_items, CacheCollector};
use etop::collectors::cargo::{cargo_items, CargoCollector};
use etop::collectors::gem::{gem_items, GemCollector};
use etop::collectors::go::{go_items, GoCollector};
use etop::collectors::js::npm_items;
use etop::collectors::json::Json;
use etop::collectors::macos_apps::{app_items, plist_paths, plist_version, MacAppsCollector};
use etop::collectors::mise::{mise_data_dir, mise_items};
use etop::collectors::probe::{brew_prefix, npm_global_prefix, which_binary, which_candidates, ListedEntry};
use etop::collectors::python::uv_tool_items;
use etop::models::category::Category;
use etop::models::item::PackageSource;

fn s(x: &str) -> Json {
    Json::Str(x.to_string())
}

fn obj(members: Vec<(&str, Json)>) -> Json {
    Json::Object(members.into_iter().map(|(k, v)| (k.to_string(), v)).collect())
}

#[test]
fn which_binary_prefers_known_places_then_which() {
    assert_eq!(which_candidates("brew"), vec!["/opt/homebrew/bin/brew", "/usr/local/bin/brew", "/usr/bin/brew"]);
    assert_eq!(which_binary("uv", &vec![false, true, true], None), Some("/usr/local/bin/uv".to_string()));
    assert_eq!(
        which_binary("uv", &vec![false, false, false], Some("  /home/me/.cargo/bin/uv\n".to_string())),
        Some("/home/me/.cargo/bin/uv".to_string())
    );
    assert_eq!(which_binary("uv", &vec![false, false, false], Some("   \n".to_string())), None);
    assert_eq!(which_binary("uv", &vec![false, false, false], None), None);
}

#[test]
fn prefixes_fall_back_when_commands_fail() {
    assert_eq!(brew_prefix(Some("/opt/brew\n".to_string()), "/x/brew"), "/opt/brew");
    assert_eq!(brew_prefix(None, "/opt/homebrew/bin/brew"), "/opt/homebrew");
    assert_eq!(brew_prefix(None, "/opt/homebrew2/bin/brew"), "/usr/local");
    assert_eq!(npm_global_prefix(Some("".to_string())), "/usr/local");
    assert_eq!(npm_global_prefix(Some(" /usr/lib/node \n".to_string())), "/usr/lib/node");
}

#[test]
fn brew_formulae_and_casks_become_items() {
    let doc = obj(vec![
        (
            "formulae",
            Json::Array(vec![
                obj(vec![
                    ("name", s("git")),
                    ("installed", Json::Array(vec![obj(vec![("version", s("2.44.0")), ("installed_on_request", Json::Bool(true))])])),
                    ("dependencies", Json::Array(vec![s("pcre2"), Json::Null, s("gettext")])),
                ]),
                obj(vec![("name", s(""))]),
                obj(vec![
                    ("name", s("pcre2")),
                    ("installed", Json::Array(vec![obj(vec![("installed_as_dependency", Json::Bool(true))])])),
                ]),
            ]),
        ),
        ("casks", Json::Array(vec![obj(vec![("token", s("firefox")), ("version", s("125.0"))]), obj(vec![])])),
    ]);
    let cellars = brew_cellar_paths(&doc, "/opt/homebrew");
    assert_eq!(cellars, vec!["/opt/homebrew/Cellar/git/2.44.0", "/opt/homebrew/Cellar/pcre2/current"]);
    let items = brew_items(&doc, "/opt/homebrew", &vec![true, false]);
    assert_eq!(items.len(), 3);
    assert_eq!(items[0].id, "brew:git");
    assert_eq!(items[0].install_path, "/opt/homebrew/Cellar/git/2.44.0");
    assert_eq!(items[0].version.as_deref(), Some("2.44.0"));
    assert!(items[0].is_top_level);
    assert_eq!(items[0].required_by, vec!["brew:pcre2", "brew:gettext"]);
    assert_eq!(items[0].uninstall_cmd.as_deref(), Some("brew uninstall git"));
    assert_eq!(items[1].install_path, "/opt/homebrew/opt/pcre2");
    assert!(!items[1].is_top_level);
    assert_eq!(items[1].version, None);
    assert_eq!(items[2].id, "brew:cask:firefox");
    assert_eq!(items[2].source, PackageSource::BrewCask);
    assert_eq!(items[2].category, Category::GuiAppsAndMedia);
    assert_eq!(items[2].install_path, "/opt/homebrew/Caskroom/firefox");
    assert_eq!(items[2].reinstall_cmd.as_deref(), Some("brew install --cask firefox"));
    let c = BrewCollector::new(None);
    assert!(!c.is_available());
    assert_eq!(c.name(), "homebrew");
}

#[test]
fn mise_versions_become_runtime_items() {
    let doc = obj(vec![
        (
            "node",
            Json::Array(vec![
                obj(vec![("version", s("20.11.0")), ("active", Json::Bool(true)), ("install_path", s("/m/node/20.11.0"))]),
                obj(vec![("version", s("18.0.0")), ("installed", Json::Bool(false))]),
            ]),
        ),
        ("python", Json::Array(vec![obj(vec![("version", s("3.12.1"))]), obj(vec![("version", s(""))])])),
    ]);
    let dir = mise_data_dir(Some("/Users/me".to_string()));
    assert_eq!(dir, "/Users/me/.local/share/mise");
    assert_eq!(mise_data_dir(None), "/tmp");
    let items = mise_items(&doc, &dir);
    assert_eq!(items.len(), 2);
    assert_eq!(items[0].id, "mise:node@20.11.0");
    assert_eq!(items[0].name, "node (20.11.0)");
    assert!(items[0].is_top_level);
    assert_eq!(items[0].install_path, "/m/node/20.11.0");
    assert_eq!(items[1].install_path, "/Users/me/.local/share/mise/installs/python/3.12.1");
    assert!(!items[1].is_top_level);
    assert_eq!(items[1].reinstall_cmd.as_deref(), Some("mise use -g python@3.12.1"));
}

#[test]
fn npm_globals_become_items() {
    let doc = obj(vec![(
        "dependencies",
        obj(vec![("typescript", obj(vec![("version", s("5.4.2"))])), ("yarn", obj(vec![]))]),
    )]);
    let items = npm_items(&doc, "/usr/local");
    assert_eq!(items.len(), 2);
    assert_eq!(items[0].install_path, "/usr/local/lib/node_modules/typescript");
    assert_eq!(items[0].version.as_deref(), Some("5.4.2"));
    assert_eq!(items[1].version, None);
    assert_eq!(items[1].uninstall_cmd.as_deref(), Some("npm uninstall -g yarn"));
    assert_eq!(npm_items(&Json::Null, "/usr/local").len(), 0);
}

#[test]
fn cargo_installs_become_items() {
    let doc = obj(vec![(
        "installs",
        obj(vec![
            ("ripgrep 14.1.0 (registry+https://github.com/rust-lang/crates.io-index)", obj(vec![("bins", Json::Array(vec![s("rg")]))])),
            ("oddkey", obj(vec![])),
        ]),
    )]);
    let c = CargoCollector::new(None, Some("/Users/me".to_string()));
    assert_eq!(c.cargo_home, "/Users/me/.cargo");
    assert_eq!(c.crates_json_path(), "/Users/me/.cargo/.crates2.json");
    assert_eq!(CargoCollector::new(Some("/c".to_string()), None).cargo_home, "/c");
    let items = cargo_items(&doc, &c.cargo_home);
    assert_eq!(items[0].name, "ripgrep");
    assert_eq!(items[0].version.as_deref(), Some("14.1.0"));
    assert_eq!(items[0].install_path, "/Users/me/.cargo/bin/rg");
    assert_eq!(items[1].name, "oddkey");
    assert_eq!(items[1].version, None);
    assert_eq!(items[1].install_path, "/Users/me/.cargo/bin/oddkey");
}

#[test]
fn uv_tool_lines_become_items() {
    let out = "ruff v0.4.1\n- ruff\nblack v24.3.0\n- black\n\n   \nhttpie\n";
    let items = uv_tool_items(out, "/Users/me");
    assert_eq!(items.len(), 3);
    assert_eq!(items[0].name, "ruff");
    assert_eq!(items[0].version.as_deref(), Some("0.4.1"));
    assert_eq!(items[0].install_path, "/Users/me/.local/share/uv/tools/ruff");
    assert_eq!(items[2].name, "httpie");
    assert_eq!(items[2].version, None);
    assert_eq!(items[1].id, "uv:tool:black");
}

#[test]
fn gem_lines_become_items() {
    let out = "bootsnap (1.18.6)\nbundler (default: 2.5.6)\nracc (1.8.1, default: 1.7.3)\n\nnot a gem line\n";
    let items = gem_items(out, &Some("/gems/3.3.0".to_string()));
    assert_eq!(items.len(), 3);
    assert_eq!(items[0].name, "bootsnap");
    assert_eq!(items[0].version.as_deref(), Some("1.18.6"));
    assert_eq!(items[0].install_path, "/gems/3.3.0/gems/bootsnap-1.18.6");
    assert_eq!(items[0].uninstall_cmd.as_deref(), Some("gem uninstall bootsnap"));
    assert!(items[0].is_top_level);
    assert_eq!(items[1].version.as_deref(), Some("2.5.6"));
    assert_eq!(items[1].uninstall_cmd, None);
    assert!(!items[1].is_top_level);
    assert_eq!(items[2].version.as_deref(), Some("1.8.1"));
    assert_eq!(items[2].uninstall_cmd, None);
    let none_dir = gem_items("rake (13.0)", &None);
    assert_eq!(none_dir[0].install_path, "/tmp/gem/rake");
    let c = GemCollector::new(Vec::new(), Some("/usr/bin/gem".to_string()));
    assert_eq!(c.gem_bins, vec!["/usr/bin/gem"]);
    let c = GemCollector::new(vec!["/r/bin/gem".to_string()], Some("/usr/bin/gem".to_string()));
    assert_eq!(c.gem_bins, vec!["/r/bin/gem"]);
}

#[test]
fn go_binaries_become_items() {
    let c = GoCollector::new(None, Some("/Users/me".to_string()));
    assert_eq!(c.go_bin_dir, "/Users/me/go/bin");
    assert_eq!(GoCollector::new(Some("/gp".to_string()), None).go_bin_dir, "/gp/bin");
    assert_eq!(GoCollector::new(None, None).go_bin_dir, "/tmp/go/bin");
    let entries = vec![
        ListedEntry { name: "gopls".to_string(), is_dir: false, is_file: true },
        ListedEntry { name: ".hidden".to_string(), is_dir: false, is_file: true },
        ListedEntry { name: "sub".to_string(), is_dir: true, is_file: false },
    ];
    let items = go_items(&c.go_bin_dir, &entries);
    assert_eq!(items.len(), 1);
    assert_eq!(items[0].id, "go:gopls");
    assert_eq!(items[0].uninstall_cmd.as_deref(), Some("rm \"/Users/me/go/bin/gopls\""));
}

#[test]
fn caches_and_docker_rows_become_items() {
    let c = CacheCollector::new(Some("/Users/me".to_string()));
    assert_eq!(c.cache_paths()[1], "/Users/me/Library/Caches/Homebrew");
    let items = c.cache_items(&vec![true, false, false, true]);
    assert_eq!(items.len(), 2);
    assert_eq!(items[0].id, "cache:cargo-registry");
    assert_eq!(items[1].uninstall_cmd.as_deref(), Some("go clean -modcache"));
    let rows = vec![
        obj(vec![("Type", s("Images")), ("Reclaimable", s("1.2GB (50%)"))]),
        obj(vec![("Type", s("Containers")), ("Reclaimable", s("0B (0%)"))]),
        obj(vec![("Type", s("Local Volumes")), ("Reclaimable", s("3GB"))]),
        obj(vec![("Type", s("Build Cache")), ("Reclaimable", s("700MB"))]),
    ];
    let d = docker_items(&rows);
    assert_eq!(d.len(), 2);
    assert_eq!(d[0].id, "docker:dangling-images");
    assert_eq!(d[0].name, "Docker Reclaimable Images");
    assert_eq!(d[1].uninstall_cmd.as_deref(), Some("docker builder prune -f"));
    assert_eq!(d[1].source, PackageSource::DockerImage);
}

#[test]
fn application_bundles_become_items() {
    let c = MacAppsCollector::new(Some("/Users/me".to_string()), true);
    assert_eq!(c.app_dirs, vec!["/Applications", "/Users/me/Applications"]);
    assert_eq!(MacAppsCollector::new(Some("/Users/me".to_string()), false).app_dirs.len(), 1);
    let entries = vec![
        ListedEntry { name: "Visual Studio Code.app".to_string(), is_dir: true, is_file: false },
        ListedEntry { name: "notes.txt".to_string(), is_dir: false, is_file: true },
        ListedEntry { name: ".app".to_string(), is_dir: true, is_file: false },
        ListedEntry { name: "Slack.app".to_string(), is_dir: true, is_file: false },
    ];
    let plists = plist_paths("/Applications", &entries);
    assert_eq!(plists, vec!["/Applications/Visual Studio Code.app/Contents/Info.plist", "/Applications/Slack.app/Contents/Info.plist"]);
    let texts = vec![
        Some("<key>CFBundleShortVersionString</key>\n\t<string> 1.88.1 </string>".to_string()),
        None,
    ];
    let items = app_items("/Applications", &entries, &texts);
    assert_eq!(items.len(), 2);
    assert_eq!(items[0].id, "app:visual-studio-code");
    assert_eq!(items[0].name, "Visual Studio Code");
    assert_eq!(items[0].version.as_deref(), Some("1.88.1"));
    assert_eq!(items[0].uninstall_cmd.as_deref(), Some("rm -rf \"/Applications/Visual Studio Code.app\""));
    assert_eq!(items[1].version, None);
    assert_eq!(plist_version("<string>1</string>"), None);
    assert_eq!(plist_version("CFBundleShortVersionString<string>  </string>"), None);
}
