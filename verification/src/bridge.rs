//! The bridge state machine: what the event-multiplexing loop decides.
//!
//! The loop around a session runs in three phases: `Running`, where terminal
//! input, shell output, resizes and liveness are serviced; `Draining`,
//! entered on child exit, end of file, an external shutdown request or an
//! unrecovered I/O failure, where the session is torn down and the terminal
//! restored; and `Terminated`, where control returns to the caller. The
//! caller performs the polling, the channel plumbing and the actual I/O;
//! every decision is taken here. For a key event, the bytes to forward are
//! computed only from an already resolved interception decision, so no byte
//! derived from a key can ever be written before its interception is
//! settled.

use vstd::prelude::*;
use vstd::slice::slice_to_vec;
use crate::hooks::InterceptionResult;
use crate::keys::{KeyInput, spec_has_entry, spec_key_bytes};

verus! {

/// The phase the bridge is in.
#[derive(Clone, Copy, Debug, PartialEq, Eq, Structural)]
pub enum BridgeState {
    Running,
    Draining,
    Terminated,
}

/// Why the bridge left `Running`.
#[derive(Clone, Copy, Debug, PartialEq, Eq, Structural)]
pub enum StopReason {
    ChildExit,
    Eof,
    Shutdown,
    IoFailure,
}

/// Phases are ordered: the bridge only ever moves forward.
pub open spec fn state_rank(s: BridgeState) -> int {
    match s {
        BridgeState::Running => 0,
        BridgeState::Draining => 1,
        BridgeState::Terminated => 2,
    }
}

/// The bridge's decision state. The caller owns the loop; the bridge owns
/// the phase and the reason it stopped.
#[derive(Debug)]
pub struct Bridge {
    state: BridgeState,
    stop_reason: Option<StopReason>,
}

impl Bridge {
    pub closed spec fn spec_state(&self) -> BridgeState {
        self.state
    }

    pub closed spec fn spec_stop_reason(&self) -> Option<StopReason> {
        self.stop_reason
    }

    /// A fresh bridge runs, and has not stopped for any reason.
    pub fn new() -> (b: Bridge)
        ensures
            b.spec_state() is Running,
            b.spec_stop_reason() is None,
    {
        Bridge { state: BridgeState::Running, stop_reason: None }
    }

    /// Current phase.
    pub fn state(&self) -> (r: BridgeState)
        ensures
            r == self.spec_state(),
    {
        self.state
    }

    /// Why the bridge stopped, once it has.
    pub fn stop_reason(&self) -> (r: Option<StopReason>)
        ensures
            r == self.spec_stop_reason(),
    {
        self.stop_reason
    }

    /// The bytes to write to the shell for one key event, given the already
    /// resolved interception decision: nothing for a consumed key, nothing
    /// for a key outside the encoding table, and exactly the key's encoding
    /// otherwise. This is the only place key bytes are handed out, so a
    /// consumed or unmapped key is never written.
    pub fn key_bytes_to_forward(key: &KeyInput, decision: InterceptionResult) -> (r: Option<
        Vec<u8>,
    >)
        requires
            key.wf(),
        ensures
            decision is Consumed ==> r is None,
            !spec_has_entry(key.code, key.modifiers) ==> r is None,
            decision is PassThrough && spec_key_bytes(key.code, key.modifiers).len() > 0 ==> (
            r matches Some(b) && b@ == spec_key_bytes(key.code, key.modifiers)),
            r matches Some(b) ==> decision is PassThrough && b@ == spec_key_bytes(
                key.code,
                key.modifiers,
            ) && b@.len() > 0,
    {
        match decision {
            InterceptionResult::Consumed => None,
            InterceptionResult::PassThrough => {
                if key.raw_bytes.len() == 0 {
                    None
                } else {
                    Some(slice_to_vec(key.raw_bytes.as_slice()))
                }
            },
        }
    }

    /// Note a stop condition: child exit, end of file from the session, an
    /// external shutdown request, or an unrecovered I/O failure. A running
    /// bridge moves to `Draining` and records the first reason; a bridge
    /// already past `Running` is left untouched, so the first reason sticks.
    pub fn note_stop(&mut self, reason: StopReason)
        ensures
            old(self).spec_state() is Running ==> final(self).spec_state() is Draining
                && final(self).spec_stop_reason() == Some(reason),
            !(old(self).spec_state() is Running) ==> *final(self) == *old(self),
            state_rank(final(self).spec_state()) >= state_rank(old(self).spec_state()),
    {
        match self.state {
            BridgeState::Running => {
                self.state = BridgeState::Draining;
                self.stop_reason = Some(reason);
            },
            _ => {},
        }
    }

    /// Note that teardown and terminal restoration are done: a draining
    /// bridge terminates and control goes back to the caller. In any other
    /// phase nothing changes.
    pub fn note_teardown_complete(&mut self)
        ensures
            old(self).spec_state() is Draining ==> final(self).spec_state() is Terminated,
            !(old(self).spec_state() is Draining) ==> *final(self) == *old(self),
            final(self).spec_stop_reason() == old(self).spec_stop_reason(),
            state_rank(final(self).spec_state()) >= state_rank(old(self).spec_state()),
    {
        match self.state {
            BridgeState::Draining => {
                self.state = BridgeState::Terminated;
            },
            _ => {},
        }
    }
}

} // verus!
