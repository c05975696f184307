//! A transparent terminal interposer: a pseudo-terminal session supervisor
//! that relays bytes between the user's terminal and an inner shell while a
//! pipeline of transform stages may rewrite each chunk in flight.
//!
//! This crate holds the verified core: the relay decision logic, the
//! transform-pipeline engine with its per-stage error policies, the
//! terminal-mode lifecycle with its restore-exactly-once gate, the signal
//! forwarding rules, and the session error model. The surrounding process
//! (pty allocation, forking, blocking reads, signal subscription) performs
//! the I/O and consults these functions for every decision.

use vstd::prelude::*;

pub mod error;
pub mod plugin;
pub mod post;
pub mod pre;
pub mod signal;
pub mod term;

verus! {

/// Capacity of each relay's byte buffer.
pub const BUF_SIZE: usize = 8192;

/// Core session state: the master side of the pty (as a raw descriptor
/// number) and the relay buffer that one relay direction owns exclusively.
pub struct Shsh {
    /// the master side of the pty, as its raw file descriptor
    pub master_fd: i32,
    /// buffer, read or write
    pub buffer: Vec<u8>,
}

impl Shsh {
    /// A session value is well formed when its buffer has the fixed relay
    /// capacity.
    pub open spec fn wf(&self) -> bool {
        self.buffer.len() == BUF_SIZE
    }

    /// Builds the session state around a master descriptor, with a zeroed
    /// buffer of the fixed capacity.
    pub fn new(master_fd: i32) -> (s: Shsh)
        ensures
            s.wf(),
            s.master_fd == master_fd,
            forall|i: int| 0 <= i < s.buffer.len() ==> s.buffer[i] == 0u8,
    {
        let mut buffer: Vec<u8> = Vec::new();
        let mut i: usize = 0;
        while i < BUF_SIZE
            invariant
                i <= BUF_SIZE,
                buffer.len() == i,
                forall|j: int| 0 <= j < i ==> buffer[j] == 0u8,
            decreases BUF_SIZE - i,
        {
            buffer.push(0u8);
            i = i + 1;
        }
        Shsh { master_fd, buffer }
    }
}

} // verus!
