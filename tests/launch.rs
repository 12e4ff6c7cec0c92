use livesplit_overlay::catalog::{AutoSplitter, AutoSplitterList, Games, List, SplitterInfo, Urls};
use livesplit_overlay::launch::{environment_entry, plan_game_launch};

fn splitter(game: &str, script_type: Option<&str>, website: Option<&str>) -> AutoSplitter {
    AutoSplitter {
        games: Games { games: vec![game.to_string()] },
        urls: Urls { urls: vec![] },
        module_type: None,
        script_type: script_type.map(str::to_string),
        description: format!("Splits {game} automatically."),
        website: website.map(str::to_string),
    }
}

#[test]
fn panel_reflects_catalog_entry() {
    let list = List::from_source(
        String::new(),
        AutoSplitterList {
            auto_splitters: vec![
                splitter("Runtime Game", Some("AutoSplittingRuntime"), Some("https://example.org")),
                splitter("Legacy Game", Some("ASL"), None),
            ],
        },
    );
    let p = list.panel_for_game("Runtime Game");
    assert!(p.website_enabled && p.activate_enabled);
    assert!(matches!(p.info, SplitterInfo::Description(ref d) if d == "Splits Runtime Game automatically."));
    let p = list.panel_for_game("Legacy Game");
    assert!(!p.website_enabled && !p.activate_enabled);
    assert!(matches!(p.info, SplitterInfo::Incompatible));
    let p = list.panel_for_game("Unknown Game");
    assert!(!p.website_enabled && !p.activate_enabled);
    assert!(matches!(p.info, SplitterInfo::Unavailable));
}

#[test]
fn environment_entries_split_at_first_equals() {
    assert_eq!(environment_entry("KEY=VALUE"), Some(("KEY".to_string(), "VALUE".to_string())));
    assert_eq!(environment_entry("A=b=c"), Some(("A".to_string(), "b=c".to_string())));
    assert_eq!(environment_entry("=x"), Some((String::new(), "x".to_string())));
    assert_eq!(environment_entry("NOEQUALS"), None);
}

#[test]
fn bare_launch_without_options() {
    let env = vec![("A".to_string(), "1".to_string())];
    let plan = plan_game_launch(false, "--fast", &env, Some("/games"), true).unwrap();
    assert!(plan.arguments.is_empty() && plan.environment.is_empty() && plan.working_directory.is_none());
}

#[test]
fn launch_with_options() {
    let env = vec![("A".to_string(), "1".to_string()), ("B".to_string(), "two words".to_string())];
    let plan = plan_game_launch(true, "--level 'World 1' -v", &env, Some("/games/x"), true).unwrap();
    assert_eq!(plan.arguments, vec!["--level", "World 1", "-v"]);
    assert_eq!(plan.environment, env);
    assert_eq!(plan.working_directory.as_deref(), Some("/games/x"));
    let plan = plan_game_launch(true, "   ", &env, Some("/missing"), false).unwrap();
    assert!(plan.arguments.is_empty());
    assert!(plan.working_directory.is_none());
}

#[test]
fn unclosed_quote_stops_launch() {
    assert!(plan_game_launch(true, "--name 'unterminated", &vec![], None, false).is_none());
}
