use vstd::prelude::*;
use livesplit_core::run::parser::TimerKind;

verus! {

/// livesplit-core's run: the segments of a game and category.
#[verifier::external_type_specification]
#[verifier::external_body]
pub struct ExRun(livesplit_core::Run);

/// livesplit-core's timer, which owns the run it times.
#[verifier::external_type_specification]
#[verifier::external_body]
pub struct ExTimer(livesplit_core::Timer);

/// The name of the one segment of the run that stands in for a splits file
/// that could not be loaded.
pub const DEFAULT_SEGMENT_NAME: &'static str = "Time";

/// The names of the segments of `run`, in order.
pub uninterp spec fn segment_names(run: livesplit_core::Run) -> Seq<Seq<char>>;

/// `Run::new` makes a run without segments.
pub assume_specification[ livesplit_core::Run::new ]() -> (r: livesplit_core::Run)
    ensures
        segment_names(r) == Seq::<Seq<char>>::empty(),
;

/// `Run::len` counts the segments.
pub assume_specification[ livesplit_core::Run::len ](run: &livesplit_core::Run) -> (r: usize)
    ensures
        r == segment_names(*run).len(),
;

/// Relies on `Segment::new` and `Run::push_segment`: appends a segment of
/// that name to the run.
#[verifier::external_body]
fn push_named_segment(run: &mut livesplit_core::Run, name: &str)
    ensures
        segment_names(*final(run)) == segment_names(*old(run)).push(name@),
{
    run.push_segment(livesplit_core::Segment::new(name));
}

/// livesplit-core's kind of splits file: the timer whose format it is.
#[verifier::external_type_specification]
pub struct ExTimerKind<'a>(TimerKind<'a>);

/// What livesplit's parser makes of the bytes of a splits file: the names
/// of the run's segments, and whether the file is in LiveSplit's own
/// format; `None` when no parser takes the file.
pub uninterp spec fn parsed_splits(data: Seq<u8>) -> Option<(Seq<Seq<char>>, bool)>;

/// Relies on `livesplit_core::run::parser::composite::parse`, given no
/// directory to load files from: the run that the bytes of a splits file
/// hold, and the kind of timer whose format it is.  No parser reads icons
/// or attempt logs from disk, so all of it follows from the bytes.
#[verifier::external_body]
fn parse_splits(data: &[u8]) -> (r: Option<(livesplit_core::Run, TimerKind<'static>)>)
    ensures
        r is None <==> parsed_splits(data@) is None,
        r matches Some((run, kind)) ==> parsed_splits(data@) == Some((segment_names(run), kind is LiveSplit)),
{
    let parsed = livesplit_core::run::parser::composite::parse(data, None).ok()?;
    Some((parsed.run, parsed.kind.into_owned()))
}

/// Only a file in LiveSplit's own format can be written back: saving would
/// turn a file of another timer into a LiveSplit file.
pub fn can_save_format(kind: &TimerKind) -> (r: bool)
    ensures
        r == (kind is LiveSplit),
{
    match kind {
        TimerKind::LiveSplit => true,
        _ => false,
    }
}

/// The names of the segments of the run that `timer` times, in order.
pub uninterp spec fn timer_segment_names(timer: livesplit_core::Timer) -> Seq<Seq<char>>;

/// Relies on `livesplit_core::Timer::new`, which fails only on a run
/// without segments and keeps the run it is given, segments unchanged.
#[verifier::external_body]
fn timer_of(run: livesplit_core::Run) -> (r: livesplit_core::Timer)
    requires
        segment_names(run).len() > 0,
    ensures
        timer_segment_names(r) == segment_names(run),
{
    livesplit_core::Timer::new(run).unwrap()
}

/// The run that stands in for a splits file that could not be loaded: one
/// segment, and not to be saved over the file.
pub fn default_run() -> (r: (livesplit_core::Run, bool))
    ensures
        segment_names(r.0) == seq![DEFAULT_SEGMENT_NAME@],
        !r.1,
{
    let mut run = livesplit_core::Run::new();
    push_named_segment(&mut run, DEFAULT_SEGMENT_NAME);
    proof {
        assert(Seq::<Seq<char>>::empty().push(DEFAULT_SEGMENT_NAME@) =~= seq![DEFAULT_SEGMENT_NAME@]);
    }
    (run, false)
}

/// Parsing gave a run, and it has segments.
pub open spec fn has_segments(parsed: Option<(livesplit_core::Run, TimerKind<'static>)>) -> bool {
    parsed is Some && segment_names((parsed->0).0).len() > 0
}

/// The run to time given what parsing the splits file gave: the parsed run
/// when it has segments, to be saved back only when the file is in
/// LiveSplit's format; else the default run, which is never saved.
pub fn load_run_from(parsed: Option<(livesplit_core::Run, TimerKind<'static>)>) -> (r: (livesplit_core::Run, bool))
    ensures
        segment_names(r.0).len() > 0,
        has_segments(parsed) ==> r.0 == (parsed->0).0 && r.1 == ((parsed->0).1 is LiveSplit),
        !has_segments(parsed) ==> segment_names(r.0) == seq![DEFAULT_SEGMENT_NAME@] && !r.1,
{
    match parsed {
        Some((run, format)) => {
            if run.len() > 0 {
                (run, can_save_format(&format))
            } else {
                default_run()
            }
        },
        None => default_run(),
    }
}

/// The bytes of a splits file parse into a run with segments.
pub open spec fn parses_with_segments(data: Seq<u8>) -> bool {
    parsed_splits(data) is Some && (parsed_splits(data)->0).0.len() > 0
}

/// The run to time for a splits file whose bytes are `data` (`None` when
/// it could not be read): the file's run when it parses into
/// one with segments, else the default run, never saved.
pub fn load_run(data: Option<&[u8]>) -> (r: (livesplit_core::Run, bool))
    ensures
        segment_names(r.0).len() > 0,
        data is None ==> segment_names(r.0) == seq![DEFAULT_SEGMENT_NAME@] && !r.1,
        data is Some && parses_with_segments(data->0@) ==> segment_names(r.0) == (parsed_splits(data->0@)->0).0
            && r.1 == ((parsed_splits(data->0@)->0).1),
        data is Some && !parses_with_segments(data->0@) ==> segment_names(r.0) == seq![DEFAULT_SEGMENT_NAME@]
            && !r.1,
        r.1 ==> data is Some,
{
    match data {
        Some(bytes) => load_run_from(parse_splits(bytes)),
        None => load_run_from(None),
    }
}

/// A timer for a splits file whose bytes are `data` (`None` when it could
/// not be read), with whether its run may be saved back to the file: the
/// file's run when it parses into one with segments, saved back only when
/// the file is in LiveSplit's format; else the default run, never saved.
pub fn load_timer(data: Option<&[u8]>) -> (r: (livesplit_core::Timer, bool))
    ensures
        data is None ==> timer_segment_names(r.0) == seq![DEFAULT_SEGMENT_NAME@] && !r.1,
        data is Some && parses_with_segments(data->0@) ==> timer_segment_names(r.0) == (parsed_splits(
            data->0@,
        )->0).0 && r.1 == ((parsed_splits(data->0@)->0).1),
        data is Some && !parses_with_segments(data->0@) ==> timer_segment_names(r.0) == seq![DEFAULT_SEGMENT_NAME@]
            && !r.1,
{
    let (run, can_save) = load_run(data);
    (timer_of(run), can_save)
}

} // verus!
