//! The terminal-mode lifecycle: capture the controlling terminal's
//! attributes, switch to raw mode (no echo, no canonical line processing)
//! for the session, and restore the captured attributes exactly once on any
//! exit path, however many teardown initiators compete.

use vstd::prelude::*;

verus! {

/// The attributes of the controlling terminal that the session touches:
/// whether input is locally echoed, whether it is line-buffered
/// (canonical), and all remaining local flags packed as they came from the
/// terminal driver. The surrounding process converts between this value
/// and the driver's own attribute structure.
#[derive(Clone, Copy, PartialEq, Eq, Structural, Debug)]
pub struct TermMode {
    /// input is echoed back to the user by the terminal driver
    pub echo: bool,
    /// input is line-buffered by the terminal driver
    pub canon: bool,
    /// every other local flag, carried through untouched
    pub flags: u64,
}

/// The raw-mode variant of a captured terminal mode: echo and canonical
/// processing are disabled, every other attribute is left untouched.
pub fn enter_raw(m: &TermMode) -> (r: TermMode)
    ensures
        !r.echo,
        !r.canon,
        r.flags == m.flags,
{
    TermMode { echo: false, canon: false, flags: m.flags }
}

/// The one-shot claim that guards restoration: it stores the attributes
/// captured before the session mutated anything, and hands them out to
/// exactly one of the competing teardown initiators.
pub struct RestoreGate {
    saved: TermMode,
    restored: bool,
}

/// How one restoration attempt changes the one-shot claim: the snapshot
/// is never touched, the claim is taken afterwards, and the captured
/// attributes come out exactly when the claim was still free.
pub open spec fn restore_step(pre: RestoreGate, post: RestoreGate, r: Option<TermMode>) -> bool {
    &&& post.saved_mode() == pre.saved_mode()
    &&& post.is_restored()
    &&& if pre.is_restored() {
        r is None
    } else {
        r == Some(pre.saved_mode())
    }
}

impl RestoreGate {
    /// The attributes captured before the session started.
    pub closed spec fn saved_mode(&self) -> TermMode {
        self.saved
    }

    /// Whether some teardown initiator has already taken the claim.
    pub closed spec fn is_restored(&self) -> bool {
        self.restored
    }

    /// Captures the terminal's attributes before any mutation; the claim
    /// starts free.
    pub fn capture(mode: TermMode) -> (g: RestoreGate)
        ensures
            g.saved_mode() == mode,
            !g.is_restored(),
    {
        RestoreGate { saved: mode, restored: false }
    }

    /// One teardown initiator's restoration attempt. The first caller is
    /// handed the captured attributes to write back; every later caller
    /// gets nothing, so the attributes are restored at most once.
    pub fn try_restore(&mut self) -> (r: Option<TermMode>)
        ensures
            restore_step(*old(self), *final(self), r),
    {
        if self.restored {
            None
        } else {
            self.restored = true;
            Some(self.saved)
        }
    }
}

/// Restoration happens exactly once: of any two competing teardown
/// initiators that take their turn at the claim, the first is handed
/// exactly the attributes captured before the session started — whatever
/// raw mode did in between — and the second is handed nothing.
pub proof fn lemma_restore_exactly_once(
    g0: RestoreGate,
    g1: RestoreGate,
    g2: RestoreGate,
    r1: Option<TermMode>,
    r2: Option<TermMode>,
)
    requires
        !g0.is_restored(),
        restore_step(g0, g1, r1),
        restore_step(g1, g2, r2),
    ensures
        r1 == Some(g0.saved_mode()),
        r2 is None,
{
}

/// Why the session is being torn down.
#[derive(Clone, Copy, PartialEq, Eq, Structural, Debug)]
pub enum TeardownReason {
    /// the inner shell terminated; the session ends gracefully
    ChildExited,
    /// the input relay failed to complete cleanly
    PreRunFailed,
    /// the output relay failed to complete cleanly
    PostRunFailed,
    /// a setup step (pty, fork, signal subscription) failed
    SetupFailed,
}

/// The process's exit status for a teardown reason: zero exactly on
/// graceful child termination, non-zero on every failure path.
pub open spec fn spec_exit_status(r: TeardownReason) -> int {
    if r is ChildExited {
        0
    } else {
        1
    }
}

/// Maps a teardown reason to the process's exit status, exactly as
/// `spec_exit_status` states: zero if and only if the child terminated
/// gracefully.
pub fn exit_status(r: &TeardownReason) -> (s: i32)
    ensures
        s == spec_exit_status(*r),
        s == 0 <==> *r is ChildExited,
{
    match r {
        TeardownReason::ChildExited => 0,
        _ => 1,
    }
}

/// The single teardown routine every exit path funnels through: take the
/// one-shot restoration claim — so the terminal attributes to write back
/// (if this caller won the claim) are exactly the captured ones — and compute the
/// process's exit status. Restoration is decided before the status is
/// handed out, so the terminal is never left in raw mode past exit.
pub fn teardown(gate: &mut RestoreGate, reason: &TeardownReason) -> (res: (Option<TermMode>, i32))
    ensures
        restore_step(*old(gate), *final(gate), res.0),
        res.1 == spec_exit_status(*reason),
        !old(gate).is_restored() ==> res.0 == Some(old(gate).saved_mode()),
{
    let mode = gate.try_restore();
    let status = exit_status(reason);
    (mode, status)
}

} // verus!
