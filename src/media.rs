use vstd::prelude::*;

verus! {

/// The phase of a timer.
#[derive(Clone, Copy, Debug, PartialEq, Eq, Structural)]
pub enum Phase {
    NotRunning,
    Running,
    Ended,
    Paused,
}

/// The state that the host's media controls show.
#[derive(Clone, Copy, Debug, PartialEq, Eq, Structural)]
pub enum MediaState {
    Stopped,
    Playing,
    Ended,
    Paused,
}

/// What a play or pause request asks of the timer.
#[derive(Clone, Copy, Debug, PartialEq, Eq, Structural)]
pub enum MediaCommand {
    Start,
    Pause,
    Resume,
}

/// The media state of a timer in `phase`.
pub fn media_state(phase: Phase) -> (r: MediaState)
    ensures
        phase is NotRunning <==> r is Stopped,
        phase is Running <==> r is Playing,
        phase is Ended <==> r is Ended,
        phase is Paused <==> r is Paused,
{
    match phase {
        Phase::NotRunning => MediaState::Stopped,
        Phase::Running => MediaState::Playing,
        Phase::Ended => MediaState::Ended,
        Phase::Paused => MediaState::Paused,
    }
}

/// What a request to play (`pause` false) or to pause (`pause` true) does
/// to a timer in `phase`: play starts a timer that is not running and
/// resumes a paused one, pause pauses a running one; anything else is left
/// as it is.
pub fn play_pause_command(phase: Phase, pause: bool) -> (r: Option<MediaCommand>)
    ensures
        r == (if !pause && phase is NotRunning {
            Some(MediaCommand::Start)
        } else if !pause && phase is Paused {
            Some(MediaCommand::Resume)
        } else if pause && phase is Running {
            Some(MediaCommand::Pause)
        } else {
            None::<MediaCommand>
        }),
{
    match phase {
        Phase::NotRunning => if !pause {
            Some(MediaCommand::Start)
        } else {
            None
        },
        Phase::Running => if pause {
            Some(MediaCommand::Pause)
        } else {
            None
        },
        Phase::Ended => None,
        Phase::Paused => if !pause {
            Some(MediaCommand::Resume)
        } else {
            None
        },
    }
}

/// The most seconds, either way, whose milliseconds an `i64` holds.
pub const MAX_SECONDS: i64 = 9_223_372_036_854_774;

/// The whole milliseconds in `nanos` nanoseconds, rounded toward zero.
pub open spec fn whole_millis(nanos: int) -> int {
    if nanos >= 0 {
        nanos / 1_000_000
    } else {
        -((-nanos) / 1_000_000)
    }
}

/// Whole milliseconds of a time of `secs` seconds and `nanos` nanoseconds,
/// as the host's media controls count them.
pub fn milliseconds(secs: i64, nanos: i32) -> (r: i64)
    requires
        -MAX_SECONDS <= secs <= MAX_SECONDS,
        -1_000_000_000 < nanos < 1_000_000_000,
    ensures
        r == secs * 1000 + whole_millis(nanos as int),
{
    let millis: i64 = if nanos >= 0 {
        (nanos / 1_000_000) as i64
    } else {
        -(((-nanos) / 1_000_000) as i64)
    };
    assert(-1000 < millis < 1000);
    secs * 1000 + millis
}

} // verus!
