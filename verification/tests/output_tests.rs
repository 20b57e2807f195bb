use etop::collectors::brew::{brew_info, brew_items};
use etop::collectors::caches::{docker_items, docker_rows};
use etop::collectors::cargo::cargo_file_items;
use etop::collectors::js::npm_output_items;
use etop::collectors::json::Json;
use etop::collectors::mise::mise_output_items;

#[test]
fn docker_output_is_read_line_by_line() {
    let out = "{\"Type\":\"Images\",\"Reclaimable\":\"1.2GB (50%)\"}\r\n\n  not json\n  {\"Type\":\"Build Cache\",\"Reclaimable\":\"700MB\"}  \n";
    let rows = docker_rows(out);
    assert_eq!(rows.len(), 2);
    match &rows[0] {
        Json::Object(ms) => {
            assert_eq!(ms.len(), 2);
            assert_eq!(ms[0].0, "Reclaimable");
            assert_eq!(ms[1].0, "Type");
        }
        _ => panic!("expected an object"),
    }
    let items = docker_items(&rows);
    assert_eq!(items.len(), 2);
    assert_eq!(items[0].id, "docker:dangling-images");
    assert_eq!(items[1].uninstall_cmd.as_deref(), Some("docker builder prune -f"));
    assert!(docker_rows("").is_empty());
}

#[test]
fn brew_output_is_parsed_before_reading() {
    let out = r#"{"formulae":[{"name":"git","installed":[{"version":"2.44.0","installed_on_request":true}],"dependencies":["pcre2"]}],"casks":[{"token":"firefox","version":"125.0"}]}"#;
    let (doc, cellars) = brew_info(out, "/opt/homebrew").unwrap();
    assert_eq!(cellars, vec!["/opt/homebrew/Cellar/git/2.44.0".to_string()]);
    let items = brew_items(&doc, "/opt/homebrew", &vec![true]);
    assert_eq!(items.len(), 2);
    assert_eq!(items[0].name, "git");
    assert_eq!(items[1].id, "brew:cask:firefox");
    assert!(brew_info("Error: not json", "/opt/homebrew").is_none());
}

#[test]
fn tool_outputs_that_are_not_json_give_none() {
    assert!(mise_output_items("oops", "/m").is_none());
    assert!(npm_output_items("", "/usr/local").is_none());
    assert!(cargo_file_items("{", "/c").is_none());
    let npm = npm_output_items(r#"{"dependencies":{"typescript":{"version":"5.4.2"}}}"#, "/usr/local").unwrap();
    assert_eq!(npm.len(), 1);
    assert_eq!(npm[0].version.as_deref(), Some("5.4.2"));
    let mise = mise_output_items(r#"{"node":[{"version":"20.11.0","active":true,"install_path":"/m/node/20.11.0"}]}"#, "/m").unwrap();
    assert_eq!(mise.len(), 1);
    assert_eq!(mise[0].id, "mise:node@20.11.0");
    let cargo = cargo_file_items(r#"{"installs":{"ripgrep 14.1.0 (registry+x)":{"bins":["rg"]}}}"#, "/c").unwrap();
    assert_eq!(cargo.len(), 1);
}
