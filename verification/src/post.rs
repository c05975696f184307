//! The output relay: the loop that reads from the pty master, runs each
//! chunk through the transform pipeline, and writes the result to the
//! controlling terminal's output stream. Unlike the input side, a
//! zero-length read here is the canonical liveness signal: the inner shell
//! has terminated, and the session must be torn down. The module also
//! holds the line-oriented read variant, which accumulates bytes until a
//! line terminator or buffer exhaustion and reports overflow distinctly
//! from I/O error, without losing already-read bytes.

use vstd::prelude::*;
use crate::Shsh;
use crate::error::{Error, ErrorType};
use crate::plugin::{
    outcome_views, pipeline_result, run_pipeline, Plugin, PipelineResult, SpecPipelineResult,
    StageOutcome,
};
use crate::pre::ReadEvent;

verus! {

/// struct for post run processing
pub struct PostRun {
    pub shsh: Shsh,
}

impl PostRun {
    /// Wraps the session state for the output relay.
    pub fn new(shsh: Shsh) -> (r: Self)
        ensures
            r.shsh == shsh,
    {
        PostRun { shsh }
    }
}

/// What the output relay does after one read event on the pty master.
pub enum PostAction {
    /// a zero-length read: the inner shell has closed its output side —
    /// the authoritative end-of-session signal; initiate teardown
    ChildClosed,
    /// write the first chunk, fully, to the user's screen; the second
    /// component holds the pipeline's side-channel chunks for the shell's
    /// input, in stage order
    Forward(Vec<u8>, Vec<Vec<u8>>),
    /// the stage with this index must be invoked again before the chunk
    /// can be decided
    MoreAttempts(usize),
    /// the relay is fatally broken: tear the session down with this error
    Fail(Error),
}

/// The output relay's contract, one read event at a time: a closed pty
/// master means the inner shell terminated and the session ends; a read
/// failure is fatal with an I/O error; a chunk is forwarded exactly as the
/// pipeline rewrote it, a pipeline stop is fatal to this relay, and an
/// undecided stage asks for another invocation.
pub open spec fn post_action_ok(
    stages: Seq<Plugin>,
    triggered: Seq<bool>,
    outcomes: Seq<Seq<StageOutcome>>,
    ev: ReadEvent,
    a: PostAction,
) -> bool {
    match ev {
        ReadEvent::Eof => a is ChildClosed,
        ReadEvent::Failed => a matches PostAction::Fail(e) && e.error_type == ErrorType::IOError,
        ReadEvent::Data(b) => match pipeline_result(stages, triggered, outcomes, b@) {
            SpecPipelineResult::Done { chunk, side } => a matches PostAction::Forward(c, s)
                && c@ == chunk
                && s@.map_values(|v: Vec<u8>| v@) == side,
            SpecPipelineResult::Stopped { stage } => a matches PostAction::Fail(e)
                && e.error_type == ErrorType::PostRunError,
            SpecPipelineResult::Pending { stage } => a matches PostAction::MoreAttempts(s)
                && s as int == stage,
        },
    }
}

/// Decides the output relay's next step for one read event, exactly as
/// `post_action_ok` states. Stage `k`'s invocation attempts (performed by
/// the surrounding process) produced `outcomes[k]`, in order.
pub fn post_run_step(
    stages: &Vec<Plugin>,
    triggered: &Vec<bool>,
    outcomes: Vec<Vec<StageOutcome>>,
    ev: ReadEvent,
) -> (a: PostAction)
    requires
        triggered@.len() == stages@.len(),
        outcomes@.len() == stages@.len(),
    ensures
        post_action_ok(stages@, triggered@, outcome_views(outcomes@), ev, a),
{
    match ev {
        ReadEvent::Eof => PostAction::ChildClosed,
        ReadEvent::Failed => PostAction::Fail(
            Error::new(String::from_str("Error reading from master pty"), ErrorType::IOError),
        ),
        ReadEvent::Data(b) => match run_pipeline(stages, triggered, outcomes, b) {
            PipelineResult::Done(chunk, side) => PostAction::Forward(chunk, side),
            PipelineResult::Stopped(_) => PostAction::Fail(
                Error::new(
                    String::from_str("A pipeline stage stopped the output relay"),
                    ErrorType::PostRunError,
                ),
            ),
            PipelineResult::Pending(i) => PostAction::MoreAttempts(i),
        },
    }
}

/// The line terminator the line-oriented read looks for.
pub const LINE_TERMINATOR: u8 = 10;

/// No byte of the sequence is the line terminator.
pub open spec fn no_terminator(s: Seq<u8>) -> bool {
    forall|i: int| 0 <= i < s.len() ==> s[i] != LINE_TERMINATOR
}

/// The line-oriented reader's fixed-capacity accumulator. It keeps the
/// bytes of the logical line read so far; a whole line, or the full buffer
/// on exhaustion, is handed out and never dropped.
pub struct LineBuffer {
    data: Vec<u8>,
    cap: usize,
}

/// What one feed of freshly read bytes produced.
pub enum LineFeed {
    /// a complete line, terminator included, after consuming this many of
    /// the fed bytes
    Line(Vec<u8>, usize),
    /// the buffer filled up before a terminator was found: here is
    /// everything accumulated so far — the logical line continues with the
    /// next feed, nothing is lost — after consuming this many fed bytes
    Overflow(Vec<u8>, usize),
    /// all fed bytes consumed and accumulated; the line is not complete yet
    More(usize),
}

impl LineBuffer {
    /// The bytes of the logical line accumulated so far.
    pub closed spec fn contents(&self) -> Seq<u8> {
        self.data@
    }

    /// The fixed capacity.
    pub closed spec fn capacity(&self) -> int {
        self.cap as int
    }

    /// The accumulator never sits full between feeds: a full buffer is
    /// handed out as an overflow within the feed that filled it.
    pub open spec fn wf(&self) -> bool {
        self.contents().len() < self.capacity()
    }

    /// An empty accumulator with the given capacity.
    pub fn new(cap: usize) -> (r: LineBuffer)
        requires
            cap >= 1,
        ensures
            r.wf(),
            r.contents() == Seq::<u8>::empty(),
            r.capacity() == cap,
    {
        LineBuffer { data: Vec::new(), cap }
    }

    /// Feeds freshly read bytes into the accumulator. Bytes are consumed
    /// in order until a line terminator completes the line, the buffer
    /// fills up (overflow, reported distinctly — the caller reads again to
    /// continue the same logical line), or the fed bytes run out. Every
    /// byte ever consumed is either still accumulated or was handed out:
    /// none is dropped.
    #[verifier::loop_isolation(false)]
    pub fn feed(&mut self, input: &Vec<u8>) -> (r: LineFeed)
        requires
            old(self).wf(),
        ensures
            final(self).wf(),
            final(self).capacity() == old(self).capacity(),
            match r {
                LineFeed::Line(l, consumed) => {
                    &&& 1 <= consumed <= input@.len()
                    &&& input@[consumed - 1] == LINE_TERMINATOR
                    &&& no_terminator(input@.take(consumed - 1))
                    &&& old(self).contents().len() + consumed <= old(self).capacity()
                    &&& l@ == old(self).contents() + input@.take(consumed as int)
                    &&& final(self).contents() == Seq::<u8>::empty()
                },
                LineFeed::Overflow(p, consumed) => {
                    &&& consumed == old(self).capacity() - old(self).contents().len()
                    &&& consumed <= input@.len()
                    &&& no_terminator(input@.take(consumed as int))
                    &&& p@ == old(self).contents() + input@.take(consumed as int)
                    &&& p@.len() == old(self).capacity()
                    &&& final(self).contents() == Seq::<u8>::empty()
                },
                LineFeed::More(consumed) => {
                    &&& consumed == input@.len()
                    &&& no_terminator(input@)
                    &&& old(self).contents().len() + input@.len() < old(self).capacity()
                    &&& final(self).contents() == old(self).contents() + input@
                },
            },
    {
        let ghost data0 = self.data@;
        let mut j: usize = 0;
        while j < input.len()
            invariant
                j <= input@.len(),
                self.cap == old(self).cap,
                self.data@ == data0 + input@.take(j as int),
                no_terminator(input@.take(j as int)),
                self.data@.len() < self.cap,
            decreases input@.len() - j,
        {
            let b = input[j];
            self.data.push(b);
            j = j + 1;
            proof {
                assert(input@.take(j as int) =~= input@.take(j - 1).push(input@[j - 1]));
                assert(self.data@ =~= data0 + input@.take(j as int));
            }
            if b == LINE_TERMINATOR {
                let mut line: Vec<u8> = Vec::new();
                core::mem::swap(&mut line, &mut self.data);
                proof {
                    assert(no_terminator(input@.take(j - 1)));
                }
                return LineFeed::Line(line, j);
            }
            if self.data.len() == self.cap {
                let mut part: Vec<u8> = Vec::new();
                core::mem::swap(&mut part, &mut self.data);
                proof {
                    assert(no_terminator(input@.take(j as int)));
                }
                return LineFeed::Overflow(part, j);
            }
        }
        proof {
            assert(input@.take(input@.len() as int) =~= input@);
        }
        LineFeed::More(j)
    }
}

/// The overflow path loses nothing: when a feed overflows after `c` bytes
/// of the incoming data, and the line terminator arrives `c2 - c` bytes
/// later, the overflow part concatenated with what the follow-up feed
/// hands out is exactly the accumulated line so far plus the first `c2`
/// incoming bytes — the same logical line, continued without dropping a
/// byte.
pub proof fn lemma_line_continues_after_overflow(d: Seq<u8>, inp: Seq<u8>, c: int, c2: int)
    requires
        0 <= c <= c2 <= inp.len(),
        no_terminator(inp.take(c)),
    ensures
        (d + inp.take(c)) + (Seq::<u8>::empty() + inp.skip(c).take(c2 - c)) == d + inp.take(c2),
{
    assert((d + inp.take(c)) + (Seq::<u8>::empty() + inp.skip(c).take(c2 - c)) =~= d + inp.take(
        c2,
    ));
}

} // verus!
