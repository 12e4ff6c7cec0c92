use livesplit_overlay::registry::TimerRegistry;
use livesplit_core::run::parser::TimerKind;
use livesplit_overlay::run::{can_save_format, default_run, load_run, load_run_from, load_timer};

#[test]
fn default_run_has_one_segment_and_is_not_saved() {
    let (run, can_save) = default_run();
    assert_eq!(run.len(), 1);
    assert_eq!(run.segment(0).name(), "Time");
    assert!(!can_save);
}

#[test]
fn unreadable_file_gives_default_run() {
    let (run, can_save) = load_run(None);
    assert_eq!(run.len(), 1);
    assert!(!can_save);
}

#[test]
fn unparsable_file_gives_default_run() {
    let (run, can_save) = load_run(Some(&[0xff, 0xfe, 0x00, 0x13, 0x37]));
    assert_eq!(run.len(), 1);
    assert_eq!(run.segment(0).name(), "Time");
    assert!(!can_save);
}

#[test]
fn parsed_run_without_segments_is_replaced() {
    let (run, can_save) = load_run_from(Some((livesplit_core::Run::new(), TimerKind::LiveSplit)));
    assert_eq!(run.len(), 1);
    assert!(!can_save);
}

#[test]
fn unparsable_file_handle_has_one_segment_and_saving_is_a_no_op() {
    let mut registry = TimerRegistry::new();
    let h = registry.get_or_create("broken.lss", |_: &str| load_timer(Some(b"\xff\xfe not splits")));
    let shared = registry.get(h).unwrap();
    assert_eq!(shared.timer.run().len(), 1);
    assert!(!shared.can_save_splits);
    assert_eq!(shared.save_path(), None);
}

const SPLITS: &str = r#"<?xml version="1.0" encoding="UTF-8"?>
<Run version="1.7.0">
  <GameIcon />
  <GameName>Game</GameName>
  <CategoryName>Any%</CategoryName>
  <Offset>00:00:00</Offset>
  <AttemptCount>0</AttemptCount>
  <Segments>
    <Segment><Name>One</Name></Segment>
    <Segment><Name>Two</Name></Segment>
  </Segments>
</Run>"#;

#[test]
fn parsed_livesplit_file_keeps_its_run_and_can_be_saved() {
    let (run, can_save) = load_run(Some(SPLITS.as_bytes()));
    assert_eq!(run.len(), 2);
    assert_eq!(run.segment(0).name(), "One");
    assert_eq!(run.segment(1).name(), "Two");
    assert_eq!(run.game_name(), "Game");
    assert!(can_save);
}

#[test]
fn parsed_file_of_another_timer_is_not_saved() {
    let mut other = livesplit_core::Run::new();
    other.push_segment(livesplit_core::Segment::new("Only"));
    let (run, can_save) = load_run_from(Some((other, TimerKind::WSplit)));
    assert_eq!(run.len(), 1);
    assert_eq!(run.segment(0).name(), "Only");
    assert!(!can_save);
    assert!(can_save_format(&TimerKind::LiveSplit));
    assert!(!can_save_format(&TimerKind::Generic("LiveSplit".into())));
}

#[test]
fn saveable_file_handle_saves_to_its_path() {
    let mut registry = TimerRegistry::new();
    let h = registry.get_or_create("game.lss", |_: &str| load_timer(Some(SPLITS.as_bytes())));
    let shared = registry.get(h).unwrap();
    assert_eq!(shared.timer.run().len(), 2);
    assert_eq!(shared.save_path(), Some("game.lss"));
}
