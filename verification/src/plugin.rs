//! # Plugin Module
//! This module defines the plugin and its operations. A **plugin** is an
//! executable file or a script that can extend the functionality of the
//! inner shell under the framework of the session supervisor.
//!
//! ## Basic Description
//! Plugins extend the shell by modifying the input of the user and the
//! output of the shell. A plugin that modifies the input is a
//! **pre-run-plugin**, one that modifies the output is a **post-run-plugin**.
//! All plugins work like a pipeline: a relay reads a chunk, hands it to the
//! first applicable stage, each stage rewrites it (and may emit a
//! side-channel chunk for the opposite direction), and the last stage's
//! result is what the relay forwards.
//!
//! ## Working Details
//! The stages themselves are external processes; the supervisor invokes one
//! and observes what the invocation produced (a rewritten chunk, or a
//! failure). This module holds the verified engine that decides, from those
//! observed outcomes and each stage's configured error mode, what the
//! pipeline as a whole produces: the stages are applied strictly in order, a
//! chunk is never forwarded past a stage that has not completed, failures
//! are retried exactly as the stage's error mode says, and exhaustion of
//! retries stops the session.

use vstd::prelude::*;

verus! {

/// PluginInvokeMode is the running mode of the plugin
/// - `Always`: the plugin runs on every chunk (default)
/// - `Invoke`: the plugin runs only when it is explicitly triggered
#[derive(Clone, Copy, PartialEq, Eq, Structural, Debug)]
pub enum PluginInvokeMode {
    Always,
    Invoke,
}

/// PluginErrorMode is the error handling mode of the plugin
/// - `Stop`: a failure stops the whole session
/// - `RetryImmediate(n)`: re-invoke the failed stage immediately, up to `n`
///   more times; when the retries are exhausted, stop the session. A
///   negative `n` means retry until success.
/// - `RetryDeferred`: skip the failed stage for the current chunk and
///   re-attempt it on the next invocation cycle
#[derive(Clone, Copy, PartialEq, Eq, Structural, Debug)]
pub enum PluginErrorMode {
    Stop,
    RetryImmediate(i64),
    RetryDeferred,
}

/// PluginConfig is the configuration of the plugin
#[derive(Clone, Copy, PartialEq, Eq, Structural, Debug)]
pub struct PluginConfig {
    pub invoke_mode: PluginInvokeMode,
    pub error_mode: PluginErrorMode,
}

/// Plugin is the struct that represents the plugin
pub struct Plugin {
    pub name: String,
    pub description: Option<String>,
    pub version: Option<String>,
    pub author: Option<String>,
    pub path: String,
    pub config: PluginConfig,
    pub log_path: Option<String>,
}

/// What one invocation attempt of a stage produced: either a rewritten
/// chunk together with an optional side-channel chunk destined for the
/// opposite direction, or a failure.
pub enum StageOutcome {
    Success(Vec<u8>, Option<Vec<u8>>),
    Failure,
}

/// The engine's decision for one stage, after consuming that stage's
/// invocation outcomes under its error mode.
pub enum StageVerdict {
    /// The stage completed: forward this chunk, and hand the optional
    /// side-channel chunk to the opposite direction.
    Forwarded(Vec<u8>, Option<Vec<u8>>),
    /// The stage failed under `RetryDeferred`: the chunk passes this stage
    /// unchanged, and the stage is re-attempted on the next cycle.
    Skipped,
    /// The stage's retries are exhausted (or its mode is `Stop`): the
    /// session must be torn down.
    Exhausted,
    /// The supplied outcomes ran out before the retry policy was decided:
    /// the stage must be invoked again.
    Pending,
}

/// The verdict for one stage, from its error mode and the sequence of
/// outcomes that successive invocation attempts produced, in order. The
/// first attempt consumes `outcomes[0]`, a retry the next element, and so
/// on.
pub open spec fn stage_verdict(mode: PluginErrorMode, outcomes: Seq<StageOutcome>) -> StageVerdict
    decreases outcomes.len(),
{
    if outcomes.len() == 0 {
        StageVerdict::Pending
    } else {
        match outcomes[0] {
            StageOutcome::Success(c, s) => StageVerdict::Forwarded(c, s),
            StageOutcome::Failure => match mode {
                PluginErrorMode::Stop => StageVerdict::Exhausted,
                PluginErrorMode::RetryDeferred => StageVerdict::Skipped,
                PluginErrorMode::RetryImmediate(n) => if n == 0 {
                    StageVerdict::Exhausted
                } else if n < 0 {
                    stage_verdict(mode, outcomes.drop_first())
                } else {
                    stage_verdict(PluginErrorMode::RetryImmediate((n - 1) as i64), outcomes.drop_first())
                },
            },
        }
    }
}

/// Decides one stage's fate: consumes the outcomes of its successive
/// invocation attempts and applies the stage's error mode, exactly as
/// `stage_verdict` states.
pub fn apply_stage(mode: &PluginErrorMode, outcomes: Vec<StageOutcome>) -> (v: StageVerdict)
    ensures
        v == stage_verdict(*mode, outcomes@),
{
    let mut rest = outcomes;
    let mut cur: PluginErrorMode = *mode;
    loop
        invariant
            stage_verdict(*mode, outcomes@) == stage_verdict(cur, rest@),
        decreases rest@.len(),
    {
        if rest.len() == 0 {
            return StageVerdict::Pending;
        }
        let ghost prev = rest@;
        let first = rest.remove(0);
        proof {
            assert(rest@ =~= prev.drop_first());
        }
        match first {
            StageOutcome::Success(c, s) => {
                return StageVerdict::Forwarded(c, s);
            },
            StageOutcome::Failure => {
                match cur {
                    PluginErrorMode::Stop => {
                        return StageVerdict::Exhausted;
                    },
                    PluginErrorMode::RetryDeferred => {
                        return StageVerdict::Skipped;
                    },
                    PluginErrorMode::RetryImmediate(n) => {
                        if n == 0 {
                            return StageVerdict::Exhausted;
                        } else if n > 0 {
                            cur = PluginErrorMode::RetryImmediate(n - 1);
                        }
                    },
                }
            },
        }
    }
}

/// Whether a stage runs on the current chunk: an `Always` stage runs on
/// every chunk, an `Invoke` stage only when it was explicitly triggered.
pub open spec fn stage_applies(p: Plugin, triggered: bool) -> bool {
    match p.config.invoke_mode {
        PluginInvokeMode::Always => true,
        PluginInvokeMode::Invoke => triggered,
    }
}

/// What a whole pipeline run produces, stated over mathematical sequences.
pub enum SpecPipelineResult {
    /// Every applied stage completed: this chunk is forwarded, and these
    /// side-channel chunks go to the opposite direction, in stage order.
    Done { chunk: Seq<u8>, side: Seq<Seq<u8>> },
    /// The stage with this index exhausted its retries: teardown.
    Stopped { stage: int },
    /// The stage with this index needs another invocation before the
    /// pipeline can be decided.
    Pending { stage: int },
}

/// The meaning of running the pipeline's stages from index `i` on, over the
/// chunk as it stands when it reaches stage `i`. Stage `k` is applied only
/// if it applies (`stage_applies`), consuming `outcomes[k]`; its verdict
/// decides whether the chunk moves on (possibly rewritten), passes the
/// stage unchanged, or the run ends in `Stopped` / `Pending`.
pub open spec fn pipeline_from(
    stages: Seq<Plugin>,
    triggered: Seq<bool>,
    outcomes: Seq<Seq<StageOutcome>>,
    chunk: Seq<u8>,
    i: int,
) -> SpecPipelineResult
    decreases stages.len() - i,
{
    if i < 0 || i >= stages.len() {
        SpecPipelineResult::Done { chunk, side: Seq::empty() }
    } else if !stage_applies(stages[i], triggered[i]) {
        pipeline_from(stages, triggered, outcomes, chunk, i + 1)
    } else {
        match stage_verdict(stages[i].config.error_mode, outcomes[i]) {
            StageVerdict::Forwarded(c, s) => {
                let rest = pipeline_from(stages, triggered, outcomes, c@, i + 1);
                match rest {
                    SpecPipelineResult::Done { chunk: fc, side } => {
                        let here = match s {
                            Some(sc) => seq![sc@],
                            None => Seq::empty(),
                        };
                        SpecPipelineResult::Done { chunk: fc, side: here + side }
                    },
                    _ => rest,
                }
            },
            StageVerdict::Skipped => pipeline_from(stages, triggered, outcomes, chunk, i + 1),
            StageVerdict::Exhausted => SpecPipelineResult::Stopped { stage: i },
            StageVerdict::Pending => SpecPipelineResult::Pending { stage: i },
        }
    }
}

/// The meaning of one whole pipeline run on one chunk.
pub open spec fn pipeline_result(
    stages: Seq<Plugin>,
    triggered: Seq<bool>,
    outcomes: Seq<Seq<StageOutcome>>,
    chunk: Seq<u8>,
) -> SpecPipelineResult {
    pipeline_from(stages, triggered, outcomes, chunk, 0)
}

/// Prepends already-collected side-channel chunks to a run's result.
pub open spec fn with_sides(pre: Seq<Seq<u8>>, r: SpecPipelineResult) -> SpecPipelineResult {
    match r {
        SpecPipelineResult::Done { chunk, side } => SpecPipelineResult::Done {
            chunk,
            side: pre + side,
        },
        _ => r,
    }
}

/// The outcome of one pipeline run, as executable data.
pub enum PipelineResult {
    /// Forward this chunk; the second component holds the side-channel
    /// chunks for the opposite direction, in stage order.
    Done(Vec<u8>, Vec<Vec<u8>>),
    /// The stage with this index stopped the session.
    Stopped(usize),
    /// The stage with this index must be invoked again.
    Pending(usize),
}

impl PipelineResult {
    /// The mathematical value this result stands for.
    pub open spec fn abs(self) -> SpecPipelineResult {
        match self {
            PipelineResult::Done(c, s) => SpecPipelineResult::Done {
                chunk: c@,
                side: s@.map_values(|v: Vec<u8>| v@),
            },
            PipelineResult::Stopped(i) => SpecPipelineResult::Stopped { stage: i as int },
            PipelineResult::Pending(i) => SpecPipelineResult::Pending { stage: i as int },
        }
    }
}

/// The views of the per-stage outcome lists.
pub open spec fn outcome_views(outcomes: Seq<Vec<StageOutcome>>) -> Seq<Seq<StageOutcome>> {
    outcomes.map_values(|v: Vec<StageOutcome>| v@)
}

/// Runs the transform pipeline once over one chunk: applies each applicable
/// stage strictly in order, consuming `outcomes[k]` as the results of stage
/// `k`'s invocation attempts, and never forwards the chunk past a stage
/// that has not completed. The result is exactly `pipeline_result`.
#[verifier::loop_isolation(false)]
pub fn run_pipeline(
    stages: &Vec<Plugin>,
    triggered: &Vec<bool>,
    outcomes: Vec<Vec<StageOutcome>>,
    chunk: Vec<u8>,
) -> (r: PipelineResult)
    requires
        triggered@.len() == stages@.len(),
        outcomes@.len() == stages@.len(),
    ensures
        r.abs() == pipeline_result(stages@, triggered@, outcome_views(outcomes@), chunk@),
{
    let ghost all = outcome_views(outcomes@);
    let ghost chunk0 = chunk@;
    let mut rest = outcomes;
    let mut cur = chunk;
    let mut sides: Vec<Vec<u8>> = Vec::new();
    let mut i: usize = 0;
    while i < stages.len()
        invariant
            triggered@.len() == stages@.len(),
            i <= stages@.len(),
            rest@.len() == stages@.len() - i,
            forall|k: int| 0 <= k < rest@.len() ==> rest@[k]@ == #[trigger] all[i + k],
            with_sides(sides@.map_values(|v: Vec<u8>| v@),
                pipeline_from(stages@, triggered@, all, cur@, i as int))
                == pipeline_result(stages@, triggered@, all, chunk0),
        decreases stages@.len() - i,
    {
        let ghost sides_pre = sides@.map_values(|v: Vec<u8>| v@);
        let ghost prev = rest@;
        let stage_outcomes = rest.remove(0);
        proof {
            assert(prev[0]@ == all[i + 0]);
            assert(stage_outcomes@ == all[i as int]);
            assert(rest@ =~= prev.drop_first());
            assert forall|k: int| 0 <= k < rest@.len() implies rest@[k]@ == #[trigger] all[i + 1 + k] by {
                assert(rest@[k] == prev[k + 1]);
                assert(prev[k + 1]@ == all[i + (k + 1)]);
            }
        }
        let applies = match stages[i].config.invoke_mode {
            PluginInvokeMode::Always => true,
            PluginInvokeMode::Invoke => triggered[i],
        };
        if applies {
            let verdict = apply_stage(&stages[i].config.error_mode, stage_outcomes);
            match verdict {
                StageVerdict::Forwarded(c, s) => {
                    cur = c;
                    match s {
                        Some(sc) => {
                            let ghost sc_view = sc@;
                            sides.push(sc);
                            proof {
                                assert(sides@.map_values(|v: Vec<u8>| v@)
                                    =~= sides_pre + seq![sc_view]);
                                lemma_with_sides_assoc(sides_pre, seq![sc_view],
                                    pipeline_from(stages@, triggered@, all, cur@, i as int + 1));
                            }
                        },
                        None => {
                            proof {
                                assert(sides_pre + Seq::<Seq<u8>>::empty() =~= sides_pre);
                                lemma_with_sides_assoc(sides_pre, Seq::empty(),
                                    pipeline_from(stages@, triggered@, all, cur@, i as int + 1));
                            }
                        },
                    }
                },
                StageVerdict::Skipped => {
                },
                StageVerdict::Exhausted => {
                    proof {
                        assert(stage_applies(stages@[i as int], triggered@[i as int]));
                        assert(stage_verdict(stages@[i as int].config.error_mode, all[i as int])
                            == StageVerdict::Exhausted);
                        assert(pipeline_from(stages@, triggered@, all, cur@, i as int)
                            == (SpecPipelineResult::Stopped { stage: i as int }));
                    }
                    return PipelineResult::Stopped(i);
                },
                StageVerdict::Pending => {
                    proof {
                        assert(stage_applies(stages@[i as int], triggered@[i as int]));
                        assert(stage_verdict(stages@[i as int].config.error_mode, all[i as int])
                            == StageVerdict::Pending);
                        assert(pipeline_from(stages@, triggered@, all, cur@, i as int)
                            == (SpecPipelineResult::Pending { stage: i as int }));
                    }
                    return PipelineResult::Pending(i);
                },
            }
        }
        i = i + 1;
    }
    proof {
        assert(sides@.map_values(|v: Vec<u8>| v@) + Seq::<Seq<u8>>::empty()
            =~= sides@.map_values(|v: Vec<u8>| v@));
    }
    PipelineResult::Done(cur, sides)
}

/// Collected side chunks prepend associatively: folding a freshly emitted
/// side chunk into the collection and then prepending equals prepending in
/// two steps.
proof fn lemma_with_sides_assoc(pre: Seq<Seq<u8>>, here: Seq<Seq<u8>>, r: SpecPipelineResult)
    ensures
        with_sides(pre + here, r) == with_sides(pre, with_sides(here, r)),
{
    match r {
        SpecPipelineResult::Done { chunk, side } => {
            assert((pre + here) + side =~= pre + (here + side));
        },
        _ => {},
    }
}

/// A bounded retry policy escalates to a stop once it is exhausted: a
/// stage allowed `n` immediate retries whose first `n + 1` invocation
/// attempts all fail is exhausted, and the session is torn down.
pub proof fn lemma_retry_exhaustion_escalates(n: i64, outcomes: Seq<StageOutcome>)
    requires
        0 <= n,
        n + 1 <= outcomes.len(),
        forall|i: int| 0 <= i <= n ==> #[trigger] outcomes[i] is Failure,
    ensures
        stage_verdict(PluginErrorMode::RetryImmediate(n), outcomes) == StageVerdict::Exhausted,
    decreases n,
{
    if n > 0 {
        lemma_retry_exhaustion_escalates((n - 1) as i64, outcomes.drop_first());
    }
}

/// A retry policy forwards the first success: if attempt `i` is the first
/// to succeed, and the policy allows at least `i` retries (or retries
/// unboundedly), the stage forwards exactly what that attempt produced —
/// with no session teardown.
pub proof fn lemma_retry_forwards_first_success(
    n: i64,
    outcomes: Seq<StageOutcome>,
    i: int,
    c: Vec<u8>,
    s: Option<Vec<u8>>,
)
    requires
        0 <= i < outcomes.len(),
        n < 0 || i <= n,
        forall|j: int| 0 <= j < i ==> #[trigger] outcomes[j] is Failure,
        outcomes[i] == StageOutcome::Success(c, s),
    ensures
        stage_verdict(PluginErrorMode::RetryImmediate(n), outcomes) == StageVerdict::Forwarded(
            c,
            s,
        ),
    decreases i,
{
    if i > 0 {
        if n < 0 {
            lemma_retry_forwards_first_success(n, outcomes.drop_first(), i - 1, c, s);
        } else {
            lemma_retry_forwards_first_success(
                (n - 1) as i64,
                outcomes.drop_first(),
                i - 1,
                c,
                s,
            );
        }
    }
}

/// A deferred-retry stage never tears the session down: whatever its
/// invocation attempts produced, its verdict is to forward, to skip the
/// stage for the current chunk, or to ask for another attempt — never an
/// exhaustion.
pub proof fn lemma_deferred_failure_never_stops(outcomes: Seq<StageOutcome>)
    ensures
        stage_verdict(PluginErrorMode::RetryDeferred, outcomes) != StageVerdict::Exhausted,
{
}

/// A run that stops does so at a stage the chunk actually reached.
proof fn lemma_stop_stage_in_range(
    stages: Seq<Plugin>,
    triggered: Seq<bool>,
    outcomes: Seq<Seq<StageOutcome>>,
    chunk: Seq<u8>,
    i: int,
    k: int,
)
    requires
        0 <= i,
        pipeline_from(stages, triggered, outcomes, chunk, i) == (SpecPipelineResult::Stopped {
            stage: k,
        }),
    ensures
        i <= k < stages.len(),
    decreases stages.len() - i,
{
    if i < stages.len() {
        if !stage_applies(stages[i], triggered[i]) {
            lemma_stop_stage_in_range(stages, triggered, outcomes, chunk, i + 1, k);
        } else {
            match stage_verdict(stages[i].config.error_mode, outcomes[i]) {
                StageVerdict::Forwarded(c, s) => {
                    lemma_stop_stage_in_range(stages, triggered, outcomes, c@, i + 1, k);
                },
                StageVerdict::Skipped => {
                    lemma_stop_stage_in_range(stages, triggered, outcomes, chunk, i + 1, k);
                },
                _ => {},
            }
        }
    }
}

/// A chunk is never forwarded past a stage that has not completed: when
/// the run stops at stage `k`, nothing past `k` was consulted — the
/// result is the same whatever the outcomes of the stages after `k`
/// would have been.
pub proof fn lemma_stopped_ignores_later_stages(
    stages: Seq<Plugin>,
    triggered: Seq<bool>,
    o1: Seq<Seq<StageOutcome>>,
    o2: Seq<Seq<StageOutcome>>,
    chunk: Seq<u8>,
    k: int,
)
    requires
        pipeline_result(stages, triggered, o1, chunk) == (SpecPipelineResult::Stopped {
            stage: k,
        }),
        forall|j: int| 0 <= j <= k ==> o1[j] == o2[j],
    ensures
        pipeline_result(stages, triggered, o2, chunk) == (SpecPipelineResult::Stopped {
            stage: k,
        }),
{
    lemma_stopped_ignores_later_stages_from(stages, triggered, o1, o2, chunk, k, 0);
}

proof fn lemma_stopped_ignores_later_stages_from(
    stages: Seq<Plugin>,
    triggered: Seq<bool>,
    o1: Seq<Seq<StageOutcome>>,
    o2: Seq<Seq<StageOutcome>>,
    chunk: Seq<u8>,
    k: int,
    i: int,
)
    requires
        0 <= i,
        pipeline_from(stages, triggered, o1, chunk, i) == (SpecPipelineResult::Stopped {
            stage: k,
        }),
        forall|j: int| 0 <= j <= k ==> o1[j] == o2[j],
    ensures
        pipeline_from(stages, triggered, o2, chunk, i) == (SpecPipelineResult::Stopped {
            stage: k,
        }),
    decreases stages.len() - i,
{
    lemma_stop_stage_in_range(stages, triggered, o1, chunk, i, k);
    if !stage_applies(stages[i], triggered[i]) {
        lemma_stopped_ignores_later_stages_from(stages, triggered, o1, o2, chunk, k, i + 1);
    } else {
        assert(o1[i] == o2[i]);
        match stage_verdict(stages[i].config.error_mode, o1[i]) {
            StageVerdict::Forwarded(c, s) => {
                lemma_stopped_ignores_later_stages_from(stages, triggered, o1, o2, c@, k, i + 1);
            },
            StageVerdict::Skipped => {
                lemma_stopped_ignores_later_stages_from(stages, triggered, o1, o2, chunk, k, i + 1);
            },
            _ => {},
        }
    }
}

/// The bytes of a stream of chunks, flattened in the order they were read.
pub open spec fn concat_chunks(chunks: Seq<Seq<u8>>) -> Seq<u8>
    decreases chunks.len(),
{
    if chunks.len() == 0 {
        Seq::empty()
    } else {
        chunks[0] + concat_chunks(chunks.drop_first())
    }
}

/// The identity of the pipeline: when no stage applies to the chunk (in
/// particular when the pipeline is empty, or every stage is `Invoke`-mode
/// and untriggered), the chunk comes out exactly as it went in, and no
/// side-channel chunk is emitted — the relay is an identity relay.
pub proof fn lemma_pipeline_identity(
    stages: Seq<Plugin>,
    triggered: Seq<bool>,
    outcomes: Seq<Seq<StageOutcome>>,
    chunk: Seq<u8>,
)
    requires
        forall|i: int| 0 <= i < stages.len() ==> !stage_applies(#[trigger] stages[i], triggered[i]),
    ensures
        pipeline_result(stages, triggered, outcomes, chunk)
            == (SpecPipelineResult::Done { chunk, side: Seq::<Seq<u8>>::empty() }),
{
    lemma_pipeline_identity_from(stages, triggered, outcomes, chunk, 0);
}

/// The identity relay over a whole run: when no stage applies, every chunk
/// of the stream comes out of the pipeline exactly as it was read. Since a
/// relay forwards chunk `k`'s result before reading chunk `k + 1`, the
/// bytes observed on the far side equal the bytes read, in order — on the
/// input side the shell sees what the user typed, on the output side the
/// user sees what the shell produced.
pub proof fn lemma_identity_relay_stream(
    stages: Seq<Plugin>,
    triggered: Seq<bool>,
    outcomes: Seq<Seq<StageOutcome>>,
    chunks: Seq<Seq<u8>>,
)
    requires
        forall|i: int| 0 <= i < stages.len() ==> !stage_applies(#[trigger] stages[i], triggered[i]),
    ensures
        forall|k: int| 0 <= k < chunks.len() ==> pipeline_result(stages, triggered, outcomes, #[trigger] chunks[k])
            == (SpecPipelineResult::Done { chunk: chunks[k], side: Seq::<Seq<u8>>::empty() }),
{
    assert forall|k: int| 0 <= k < chunks.len() implies pipeline_result(stages, triggered, outcomes, #[trigger] chunks[k])
        == (SpecPipelineResult::Done { chunk: chunks[k], side: Seq::<Seq<u8>>::empty() }) by {
        lemma_pipeline_identity(stages, triggered, outcomes, chunks[k]);
    }
}

/// The identity relay preserves the byte stream: when no stage applies,
/// whatever chunks came out of the pipeline over a whole run carry, once
/// flattened in relay order, exactly the bytes that were read, in order —
/// the far side observes the near side's bytes unchanged.
pub proof fn lemma_identity_stream_bytes(
    stages: Seq<Plugin>,
    triggered: Seq<bool>,
    outcomes: Seq<Seq<StageOutcome>>,
    chunks: Seq<Seq<u8>>,
    forwarded: Seq<Seq<u8>>,
)
    requires
        forall|i: int| 0 <= i < stages.len() ==> !stage_applies(#[trigger] stages[i], triggered[i]),
        forwarded.len() == chunks.len(),
        forall|k: int| 0 <= k < chunks.len() ==> pipeline_result(stages, triggered, outcomes, #[trigger] chunks[k])
            == (SpecPipelineResult::Done { chunk: forwarded[k], side: Seq::<Seq<u8>>::empty() }),
    ensures
        concat_chunks(forwarded) == concat_chunks(chunks),
{
    lemma_identity_relay_stream(stages, triggered, outcomes, chunks);
    assert forall|k: int| 0 <= k < chunks.len() implies forwarded[k] == chunks[k] by {
        assert(pipeline_result(stages, triggered, outcomes, chunks[k])
            == (SpecPipelineResult::Done { chunk: chunks[k], side: Seq::<Seq<u8>>::empty() }));
    }
    assert(forwarded =~= chunks);
}

proof fn lemma_pipeline_identity_from(
    stages: Seq<Plugin>,
    triggered: Seq<bool>,
    outcomes: Seq<Seq<StageOutcome>>,
    chunk: Seq<u8>,
    i: int,
)
    requires
        0 <= i,
        forall|k: int| 0 <= k < stages.len() ==> !stage_applies(#[trigger] stages[k], triggered[k]),
    ensures
        pipeline_from(stages, triggered, outcomes, chunk, i)
            == (SpecPipelineResult::Done { chunk, side: Seq::<Seq<u8>>::empty() }),
    decreases stages.len() - i,
{
    if i < stages.len() {
        lemma_pipeline_identity_from(stages, triggered, outcomes, chunk, i + 1);
    }
}

} // verus!
