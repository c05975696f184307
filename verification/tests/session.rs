use shsh::error::{Error, ErrorType};
use shsh::signal::{signal_step, SignalAction, SignalEvent};
use shsh::term::{
    enter_raw, exit_status, teardown, RestoreGate, TeardownReason, TermMode,
};

#[test]
fn raw_mode_disables_echo_and_canon_only() {
    let original = TermMode { echo: true, canon: true, flags: 0o105073 };
    let raw = enter_raw(&original);
    assert!(!raw.echo);
    assert!(!raw.canon);
    assert_eq!(raw.flags, original.flags);
}

#[test]
fn restore_happens_exactly_once() {
    // competing teardown initiators: only the first claim is handed the
    // captured attributes, every later one is handed nothing
    let original = TermMode { echo: true, canon: true, flags: 0o105073 };
    let mut gate = RestoreGate::capture(original);
    let _raw = enter_raw(&original);
    let first = gate.try_restore();
    let second = gate.try_restore();
    let third = gate.try_restore();
    assert_eq!(first, Some(original));
    assert_eq!(second, None);
    assert_eq!(third, None);
}

#[test]
fn restored_attributes_equal_captured_attributes() {
    let original = TermMode { echo: true, canon: false, flags: 42 };
    let mut gate = RestoreGate::capture(original);
    match gate.try_restore() {
        Some(m) => assert_eq!(m, original),
        None => panic!("the first claim must be handed the snapshot"),
    }
}

#[test]
fn interrupt_is_forwarded_identically() {
    match signal_step(&SignalEvent::Interrupt) {
        SignalAction::ForwardToChild(s) => assert_eq!(s, SignalEvent::Interrupt),
        _ => panic!("an interrupt is forwarded to the child"),
    }
}

#[test]
fn terminal_stop_is_forwarded_identically() {
    match signal_step(&SignalEvent::TerminalStop) {
        SignalAction::ForwardToChild(s) => assert_eq!(s, SignalEvent::TerminalStop),
        _ => panic!("a terminal-stop is forwarded to the child"),
    }
}

#[test]
fn child_exit_triggers_graceful_teardown() {
    // when the child terminates, the wrapper tears down: the terminal is
    // restored and the process exits with the graceful status, whatever
    // the relays are blocked on
    let action = signal_step(&SignalEvent::ChildStatusChange);
    let reason = match action {
        SignalAction::Teardown(r) => r,
        _ => panic!("a child-status change initiates teardown"),
    };
    assert_eq!(reason, TeardownReason::ChildExited);
    let original = TermMode { echo: true, canon: true, flags: 7 };
    let mut gate = RestoreGate::capture(original);
    let (mode, status) = teardown(&mut gate, &reason);
    assert_eq!(mode, Some(original));
    assert_eq!(status, 0);
}

#[test]
fn exit_status_zero_only_on_graceful_exit() {
    assert_eq!(exit_status(&TeardownReason::ChildExited), 0);
    assert_eq!(exit_status(&TeardownReason::PreRunFailed), 1);
    assert_eq!(exit_status(&TeardownReason::PostRunFailed), 1);
    assert_eq!(exit_status(&TeardownReason::SetupFailed), 1);
}

#[test]
fn teardown_after_relay_failure_still_restores() {
    let original = TermMode { echo: true, canon: true, flags: 3 };
    let mut gate = RestoreGate::capture(original);
    let (mode, status) = teardown(&mut gate, &TeardownReason::PostRunFailed);
    assert_eq!(mode, Some(original));
    assert_eq!(status, 1);
    // a second initiator races in: the claim is already taken
    let (mode2, _status2) = teardown(&mut gate, &TeardownReason::PreRunFailed);
    assert_eq!(mode2, None);
}

#[test]
fn error_lines_are_kind_colon_message() {
    let e = Error::new(String::from("Failed to get child pid"), ErrorType::UnreachableCode);
    assert_eq!(e.print(), "UnreachableCode: Failed to get child pid");
    let e = Error::new(String::from("boom"), ErrorType::OtherError);
    assert_eq!(e.print(), "OtherError: boom");
    assert_eq!(ErrorType::IOError.name(), "IOError");
    assert_eq!(ErrorType::PreRunError.name(), "PreRunError");
    assert_eq!(ErrorType::PostRunError.name(), "PostRunError");
}
