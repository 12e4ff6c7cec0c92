use livesplit_overlay::media::{media_state, milliseconds, play_pause_command, MediaCommand, MediaState, Phase};

#[test]
fn media_state_follows_phase() {
    assert_eq!(media_state(Phase::NotRunning), MediaState::Stopped);
    assert_eq!(media_state(Phase::Running), MediaState::Playing);
    assert_eq!(media_state(Phase::Ended), MediaState::Ended);
    assert_eq!(media_state(Phase::Paused), MediaState::Paused);
}

#[test]
fn play_and_pause_commands() {
    assert_eq!(play_pause_command(Phase::NotRunning, false), Some(MediaCommand::Start));
    assert_eq!(play_pause_command(Phase::NotRunning, true), None);
    assert_eq!(play_pause_command(Phase::Running, true), Some(MediaCommand::Pause));
    assert_eq!(play_pause_command(Phase::Running, false), None);
    assert_eq!(play_pause_command(Phase::Paused, false), Some(MediaCommand::Resume));
    assert_eq!(play_pause_command(Phase::Paused, true), None);
    assert_eq!(play_pause_command(Phase::Ended, false), None);
    assert_eq!(play_pause_command(Phase::Ended, true), None);
}

#[test]
fn milliseconds_round_toward_zero() {
    assert_eq!(milliseconds(12, 345_678_901), 12_345);
    assert_eq!(milliseconds(0, 999_999), 0);
    assert_eq!(milliseconds(-3, -250_000_000), -3_250);
    assert_eq!(milliseconds(-1, -999_999), -1_000);
}
