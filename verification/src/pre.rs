//! The input relay: the loop that reads from the controlling terminal's
//! input stream, runs each chunk through the transform pipeline, and
//! writes the result to the pty master. The surrounding process performs
//! the blocking reads and writes; this module decides, for every read
//! event, exactly what the relay does next.

use vstd::prelude::*;
use crate::Shsh;
use crate::error::{Error, ErrorType};
use crate::plugin::{
    outcome_views, pipeline_result, run_pipeline, Plugin, PipelineResult, SpecPipelineResult,
    StageOutcome,
};

verus! {

/// struct for pre run processing
pub struct PreRun {
    pub shsh: Shsh,
}

impl PreRun {
    /// Wraps the session state for the input relay.
    pub fn new(shsh: Shsh) -> (r: Self)
        ensures
            r.shsh == shsh,
    {
        PreRun { shsh }
    }
}

/// What one blocking read on the relay's source produced.
pub enum ReadEvent {
    /// a zero-length read: the stream is closed
    Eof,
    /// the bytes that the read filled into the relay's buffer, in order
    Data(Vec<u8>),
    /// the read failed
    Failed,
}

/// What the input relay does after one read event.
pub enum PreAction {
    /// end-of-input: the relay's loop ends cleanly, nothing is forwarded
    Finish,
    /// write the first chunk, fully, to the pty master; the second
    /// component holds the pipeline's side-channel chunks for the user's
    /// screen, in stage order
    Forward(Vec<u8>, Vec<Vec<u8>>),
    /// the stage with this index must be invoked again before the chunk
    /// can be decided
    MoreAttempts(usize),
    /// the relay is fatally broken: tear the session down with this error
    Fail(Error),
}

/// The input relay's contract, one read event at a time: end-of-input ends
/// the loop cleanly; a read failure is fatal with an I/O error; a chunk is
/// forwarded exactly as the pipeline rewrote it, a pipeline stop is fatal
/// to this relay, and an undecided stage asks for another invocation.
pub open spec fn pre_action_ok(
    stages: Seq<Plugin>,
    triggered: Seq<bool>,
    outcomes: Seq<Seq<StageOutcome>>,
    ev: ReadEvent,
    a: PreAction,
) -> bool {
    match ev {
        ReadEvent::Eof => a is Finish,
        ReadEvent::Failed => a matches PreAction::Fail(e) && e.error_type == ErrorType::IOError,
        ReadEvent::Data(b) => match pipeline_result(stages, triggered, outcomes, b@) {
            SpecPipelineResult::Done { chunk, side } => a matches PreAction::Forward(c, s)
                && c@ == chunk
                && s@.map_values(|v: Vec<u8>| v@) == side,
            SpecPipelineResult::Stopped { stage } => a matches PreAction::Fail(e)
                && e.error_type == ErrorType::PreRunError,
            SpecPipelineResult::Pending { stage } => a matches PreAction::MoreAttempts(s)
                && s as int == stage,
        },
    }
}

/// Decides the input relay's next step for one read event, exactly as
/// `pre_action_ok` states. Stage `k`'s invocation attempts (performed by
/// the surrounding process) produced `outcomes[k]`, in order.
pub fn pre_run_step(
    stages: &Vec<Plugin>,
    triggered: &Vec<bool>,
    outcomes: Vec<Vec<StageOutcome>>,
    ev: ReadEvent,
) -> (a: PreAction)
    requires
        triggered@.len() == stages@.len(),
        outcomes@.len() == stages@.len(),
    ensures
        pre_action_ok(stages@, triggered@, outcome_views(outcomes@), ev, a),
{
    match ev {
        ReadEvent::Eof => PreAction::Finish,
        ReadEvent::Failed => PreAction::Fail(
            Error::new(String::from_str("Error reading from stdin"), ErrorType::IOError),
        ),
        ReadEvent::Data(b) => match run_pipeline(stages, triggered, outcomes, b) {
            PipelineResult::Done(chunk, side) => PreAction::Forward(chunk, side),
            PipelineResult::Stopped(_) => PreAction::Fail(
                Error::new(
                    String::from_str("A pipeline stage stopped the input relay"),
                    ErrorType::PreRunError,
                ),
            ),
            PipelineResult::Pending(i) => PreAction::MoreAttempts(i),
        },
    }
}

/// Judges one write to the pty master: the write must fully drain the
/// transformed chunk — a short write is a fatal I/O error for this relay,
/// since partial forwarding would corrupt the shell's input stream.
pub fn check_write(written: usize, expected: usize) -> (r: Option<Error>)
    ensures
        r is None <==> written == expected,
        r matches Some(e) ==> e.error_type == ErrorType::IOError,
{
    if written == expected {
        None
    } else {
        Some(Error::new(
            String::from_str("Error writing to master pty: short write"),
            ErrorType::IOError,
        ))
    }
}

} // verus!
