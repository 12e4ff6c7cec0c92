use livesplit_overlay::catalog::{AutoSplitter, AutoSplitterList, Games, List, Urls};
use livesplit_overlay::fetch::{get_list, AutoSplitterListManager};

fn entry(games: &[&str], urls: &[&str], script_type: Option<&str>, website: Option<&str>) -> AutoSplitter {
    AutoSplitter {
        games: Games { games: games.iter().map(|g| g.to_string()).collect() },
        urls: Urls { urls: urls.iter().map(|u| u.to_string()).collect() },
        module_type: Some("Script".to_string()),
        script_type: script_type.map(|s| s.to_string()),
        description: format!("Splitter for {}", games.join(", ")),
        website: website.map(|w| w.to_string()),
    }
}

fn catalog(entries: Vec<AutoSplitter>) -> List {
    List::from_source("<AutoSplitters/>".to_string(), AutoSplitterList { auto_splitters: entries })
}

#[test]
fn find_for_game_matches_exact_name_only() {
    let list = catalog(vec![entry(&["Foo"], &["https://example.org/foo.wasm"], None, None)]);
    let found = list.get_for_game("Foo").expect("entry for Foo");
    assert_eq!(found.games.games, vec!["Foo".to_string()]);
    assert!(list.get_for_game("foo").is_none());
    assert!(list.get_for_game("Foo ").is_none());
    assert!(list.get_for_game("").is_none());
}

#[test]
fn find_for_game_returns_first_matching_entry() {
    let list = catalog(vec![
        entry(&["Bar"], &[], None, Some("https://bar.example")),
        entry(&["Baz", "Qux"], &[], None, Some("https://first.example")),
        entry(&["Qux"], &[], None, Some("https://second.example")),
    ]);
    let found = list.get_for_game("Qux").unwrap();
    assert_eq!(found.website.as_deref(), Some("https://first.example"));
    assert_eq!(list.get_website_for_game("Qux"), Some("https://first.example"));
    assert_eq!(list.get_website_for_game("Bar"), Some("https://bar.example"));
    assert_eq!(list.get_website_for_game("Nothing"), None);
}

#[test]
fn website_absent_on_matching_entry() {
    let list = catalog(vec![
        entry(&["Foo"], &[], None, None),
        entry(&["Foo"], &[], None, Some("https://later.example")),
    ]);
    assert_eq!(list.get_website_for_game("Foo"), None);
}

#[test]
fn runtime_script_type_is_compatible() {
    assert!(entry(&["A"], &[], Some("AutoSplittingRuntime"), None).is_using_auto_splitting_runtime());
    assert!(!entry(&["A"], &[], Some("ASL"), None).is_using_auto_splitting_runtime());
    assert!(!entry(&["A"], &[], Some("autosplittingruntime"), None).is_using_auto_splitting_runtime());
    assert!(!entry(&["A"], &[], None, None).is_using_auto_splitting_runtime());
}

#[test]
fn empty_list_has_no_entries() {
    let list = List::empty();
    assert!(list.inner.auto_splitters.is_empty());
    assert!(list.source.is_empty());
    assert!(list.get_for_game("Foo").is_none());
}

#[test]
fn games_contains_is_exact() {
    let games = Games { games: vec!["Super Game".to_string(), "Другая игра".to_string()] };
    assert!(games.contains("Super Game"));
    assert!(games.contains("Другая игра"));
    assert!(!games.contains("super game"));
    assert!(!games.contains("Super"));
}

#[test]
fn manager_without_catalog_serves_empty_list() {
    let manager = AutoSplitterListManager::new(Ok(catalog(vec![entry(&["Foo"], &[], None, None)])));
    assert!(manager.is_ok().is_ok());
    assert!(get_list(&manager).get_for_game("Foo").is_some());
}
