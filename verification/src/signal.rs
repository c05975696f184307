//! The signal forwarder's decision rules: which signals are passed through
//! to the inner shell, and which one ends the session. The surrounding
//! process subscribes to OS signal delivery on an independently scheduled
//! unit and consults `signal_step` for each delivered signal, so forwarding
//! works even while both relays are blocked in a read.

use vstd::prelude::*;
use crate::term::TeardownReason;

verus! {

/// A notification the signal forwarder subscribes to.
#[derive(Clone, Copy, PartialEq, Eq, Structural, Debug)]
pub enum SignalEvent {
    /// the user's interrupt (e.g. Ctrl-C)
    Interrupt,
    /// the user's terminal-stop (e.g. Ctrl-Z)
    TerminalStop,
    /// the inner shell's status changed: it has terminated
    ChildStatusChange,
}

/// What the signal forwarder does with one notification.
#[derive(Clone, Copy, PartialEq, Eq, Structural, Debug)]
pub enum SignalAction {
    /// deliver exactly this signal to the child process, once
    ForwardToChild(SignalEvent),
    /// initiate the single teardown routine with this reason
    Teardown(TeardownReason),
}

/// The forwarding rule: an interactive signal is forwarded to the child
/// identically, a child-status change ends the session gracefully.
pub open spec fn signal_decision(ev: SignalEvent) -> SignalAction {
    match ev {
        SignalEvent::Interrupt => SignalAction::ForwardToChild(SignalEvent::Interrupt),
        SignalEvent::TerminalStop => SignalAction::ForwardToChild(SignalEvent::TerminalStop),
        SignalEvent::ChildStatusChange => SignalAction::Teardown(TeardownReason::ChildExited),
    }
}

/// Decides what to do with one delivered signal, exactly as
/// `signal_decision` states: each received interrupt or terminal-stop
/// yields exactly one forwarding action carrying the identical signal, and
/// a child-status change yields exactly the graceful-teardown action — so
/// the wrapper ends when the child does, whatever the relays are blocked
/// on.
pub fn signal_step(ev: &SignalEvent) -> (a: SignalAction)
    ensures
        a == signal_decision(*ev),
        (*ev is Interrupt || *ev is TerminalStop) ==> a == SignalAction::ForwardToChild(*ev),
        *ev is ChildStatusChange ==> a == SignalAction::Teardown(TeardownReason::ChildExited),
{
    match ev {
        SignalEvent::Interrupt => SignalAction::ForwardToChild(SignalEvent::Interrupt),
        SignalEvent::TerminalStop => SignalAction::ForwardToChild(SignalEvent::TerminalStop),
        SignalEvent::ChildStatusChange => SignalAction::Teardown(TeardownReason::ChildExited),
    }
}

} // verus!
