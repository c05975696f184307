use shsh::error::ErrorType;
use shsh::plugin::{
    Plugin, PluginConfig, PluginErrorMode, PluginInvokeMode, StageOutcome,
};
use shsh::post::{post_run_step, LineBuffer, LineFeed, PostAction};
use shsh::pre::{check_write, pre_run_step, PreAction, PreRun, ReadEvent};
use shsh::post::PostRun;
use shsh::term::{exit_status, TeardownReason};
use shsh::term::RestoreGate;
use shsh::term::TermMode;
use shsh::Shsh;

fn stop_stage(name: &str) -> Plugin {
    Plugin {
        name: String::from(name),
        description: Some(String::from("a stage that is configured to stop on failure")),
        version: Some(String::from("1.0")),
        author: None,
        path: String::from("/usr/local/libexec/stage"),
        config: PluginConfig {
            invoke_mode: PluginInvokeMode::Always,
            error_mode: PluginErrorMode::Stop,
        },
        log_path: None,
    }
}

#[test]
fn input_identity_no_stages() {
    // identity relay: absent any configured transform stage, the bytes
    // forwarded to the shell equal the bytes read, in order
    let stages: Vec<Plugin> = Vec::new();
    let triggered: Vec<bool> = Vec::new();
    let sent = vec![b'e', b'c', b'h', b'o', b'\n'];
    match pre_run_step(&stages, &triggered, Vec::new(), ReadEvent::Data(sent.clone())) {
        PreAction::Forward(c, side) => {
            assert_eq!(c, sent);
            assert!(side.is_empty());
        }
        _ => panic!("a chunk through an empty pipeline must be forwarded"),
    }
}

#[test]
fn output_identity_no_stages() {
    let stages: Vec<Plugin> = Vec::new();
    let triggered: Vec<bool> = Vec::new();
    let produced = vec![b'$', b' '];
    match post_run_step(&stages, &triggered, Vec::new(), ReadEvent::Data(produced.clone())) {
        PostAction::Forward(c, side) => {
            assert_eq!(c, produced);
            assert!(side.is_empty());
        }
        _ => panic!("a chunk through an empty pipeline must be forwarded"),
    }
}

#[test]
fn echo_shell_round_trip() {
    // an inner shell that echoes each input line prefixed with "> ":
    // sending "ls\n" through the input relay forwards exactly "ls\n" to
    // the shell, and the shell's reply "> ls\n" comes through the output
    // relay exactly as produced, each direction in its own order
    let stages: Vec<Plugin> = Vec::new();
    let triggered: Vec<bool> = Vec::new();
    let typed = vec![b'l', b's', b'\n'];
    let to_shell = match pre_run_step(&stages, &triggered, Vec::new(), ReadEvent::Data(typed.clone()))
    {
        PreAction::Forward(c, _) => c,
        _ => panic!("input relay must forward the typed line"),
    };
    assert_eq!(to_shell, typed);
    // the shell's echo of that line, prefixed
    let mut reply = vec![b'>', b' '];
    reply.extend_from_slice(&to_shell);
    let to_user = match post_run_step(&stages, &triggered, Vec::new(), ReadEvent::Data(reply.clone()))
    {
        PostAction::Forward(c, _) => c,
        _ => panic!("output relay must forward the shell's reply"),
    };
    assert_eq!(to_user, b"> ls\n".to_vec());
}

#[test]
fn input_eof_finishes_cleanly() {
    let stages: Vec<Plugin> = Vec::new();
    let triggered: Vec<bool> = Vec::new();
    match pre_run_step(&stages, &triggered, Vec::new(), ReadEvent::Eof) {
        PreAction::Finish => {}
        _ => panic!("a zero-length read on the input side ends the loop cleanly"),
    }
}

#[test]
fn input_read_error_is_fatal_io_error() {
    let stages: Vec<Plugin> = Vec::new();
    let triggered: Vec<bool> = Vec::new();
    match pre_run_step(&stages, &triggered, Vec::new(), ReadEvent::Failed) {
        PreAction::Fail(e) => {
            assert_eq!(e.error_type, ErrorType::IOError);
            assert_eq!(e.print(), "IOError: Error reading from stdin");
        }
        _ => panic!("a read error is fatal for the input relay"),
    }
}

#[test]
fn output_eof_signals_child_termination() {
    let stages: Vec<Plugin> = Vec::new();
    let triggered: Vec<bool> = Vec::new();
    match post_run_step(&stages, &triggered, Vec::new(), ReadEvent::Eof) {
        PostAction::ChildClosed => {}
        _ => panic!("a closed pty master is the end-of-session signal"),
    }
}

#[test]
fn output_read_error_is_fatal_io_error() {
    let stages: Vec<Plugin> = Vec::new();
    let triggered: Vec<bool> = Vec::new();
    match post_run_step(&stages, &triggered, Vec::new(), ReadEvent::Failed) {
        PostAction::Fail(e) => assert_eq!(e.error_type, ErrorType::IOError),
        _ => panic!("a read error is fatal for the output relay"),
    }
}

#[test]
fn stop_stage_failure_tears_down_before_exit() {
    // a stage configured with Stop that fails once must terminate the
    // session, and teardown must restore the terminal mode before exit
    let stages = vec![stop_stage("fragile")];
    let triggered = vec![false];
    let outcomes = vec![vec![StageOutcome::Failure]];
    let reason = match pre_run_step(&stages, &triggered, outcomes, ReadEvent::Data(vec![1u8])) {
        PreAction::Fail(e) => {
            assert_eq!(e.error_type, ErrorType::PreRunError);
            TeardownReason::PreRunFailed
        }
        _ => panic!("a Stop stage's failure must stop the relay"),
    };
    let original = TermMode { echo: true, canon: true, flags: 0o105073 };
    let mut gate = RestoreGate::capture(original);
    let restored = gate.try_restore();
    assert_eq!(restored, Some(original));
    assert_ne!(exit_status(&reason), 0);
}

#[test]
fn post_stage_stop_reports_post_run_error() {
    let stages = vec![stop_stage("fragile")];
    let triggered = vec![false];
    let outcomes = vec![vec![StageOutcome::Failure]];
    match post_run_step(&stages, &triggered, outcomes, ReadEvent::Data(vec![1u8])) {
        PostAction::Fail(e) => assert_eq!(e.error_type, ErrorType::PostRunError),
        _ => panic!("a Stop stage's failure must stop the relay"),
    }
}

#[test]
fn short_write_is_io_error() {
    assert!(check_write(5, 5).is_none());
    match check_write(3, 5) {
        Some(e) => assert_eq!(e.error_type, ErrorType::IOError),
        None => panic!("a short write must be reported"),
    }
}

#[test]
fn line_read_whole_line() {
    let mut lb = LineBuffer::new(16);
    match lb.feed(&vec![b'l', b's', b'\n', b'x']) {
        LineFeed::Line(line, consumed) => {
            assert_eq!(line, b"ls\n".to_vec());
            assert_eq!(consumed, 3);
        }
        _ => panic!("a terminator within capacity completes the line"),
    }
}

#[test]
fn line_read_accumulates_across_feeds() {
    let mut lb = LineBuffer::new(16);
    match lb.feed(&vec![b'l']) {
        LineFeed::More(consumed) => assert_eq!(consumed, 1),
        _ => panic!("no terminator yet, the line is incomplete"),
    }
    match lb.feed(&vec![b's', b'\n']) {
        LineFeed::Line(line, consumed) => {
            assert_eq!(line, b"ls\n".to_vec());
            assert_eq!(consumed, 2);
        }
        _ => panic!("the second feed completes the line"),
    }
}

#[test]
fn line_read_overflow_keeps_bytes() {
    // a line longer than the buffer reports overflow, not loss: the
    // overflowed part plus what the follow-up feed hands out is the whole
    // logical line
    let mut lb = LineBuffer::new(4);
    let input = vec![b'a', b'b', b'c', b'd', b'e', b'\n'];
    let (part, consumed) = match lb.feed(&input) {
        LineFeed::Overflow(part, consumed) => (part, consumed),
        _ => panic!("six bytes into a four-byte buffer must overflow"),
    };
    assert_eq!(part, b"abcd".to_vec());
    assert_eq!(consumed, 4);
    let rest: Vec<u8> = input[consumed..].to_vec();
    let (tail, tail_consumed) = match lb.feed(&rest) {
        LineFeed::Line(tail, c) => (tail, c),
        _ => panic!("the follow-up feed finds the terminator"),
    };
    assert_eq!(tail_consumed, 2);
    let mut whole = part.clone();
    whole.extend_from_slice(&tail);
    assert_eq!(whole, b"abcde\n".to_vec());
}

#[test]
fn line_read_terminator_at_last_slot_is_a_line() {
    let mut lb = LineBuffer::new(4);
    match lb.feed(&vec![b'a', b'b', b'c', b'\n']) {
        LineFeed::Line(line, consumed) => {
            assert_eq!(line, b"abc\n".to_vec());
            assert_eq!(consumed, 4);
        }
        _ => panic!("a terminator that lands on the last slot still completes the line"),
    }
}

#[test]
fn full_buffer_chunk_relays_identically() {
    // a chunk that fills the relay buffer to its capacity still goes
    // through unchanged, in one piece
    let stages: Vec<Plugin> = Vec::new();
    let triggered: Vec<bool> = Vec::new();
    let sent: Vec<u8> = (0..shsh::BUF_SIZE).map(|i| (i % 251) as u8).collect();
    match pre_run_step(&stages, &triggered, Vec::new(), ReadEvent::Data(sent.clone())) {
        PreAction::Forward(c, _) => assert_eq!(c, sent),
        _ => panic!("a capacity-sized chunk must be forwarded whole"),
    }
}

#[test]
fn relay_structs_wrap_session_state() {
    let shsh = Shsh::new(5);
    assert_eq!(shsh.master_fd, 5);
    assert_eq!(shsh.buffer.len(), shsh::BUF_SIZE);
    assert!(shsh.buffer.iter().all(|b| *b == 0));
    let pre = PreRun::new(Shsh::new(5));
    assert_eq!(pre.shsh.master_fd, 5);
    let post = PostRun::new(Shsh::new(6));
    assert_eq!(post.shsh.master_fd, 6);
}
