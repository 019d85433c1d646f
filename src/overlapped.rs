//! The life of one asynchronous operation's descriptor: idle, pending in the
//! kernel, completed with a result, and idle again once that is consumed.

use vstd::prelude::*;
use crate::error::OsError;

verus! {

/// Where a descriptor stands.
#[derive(Clone, Copy, Debug, PartialEq, Eq)]
pub enum OpState {
    /// Not tied to any kernel call; free to arm.
    Idle,
    /// Submitted to the kernel: neither it nor its buffer may move or be
    /// freed until its completion has been observed.
    Pending,
    /// Its completion was dequeued: bytes transferred, or the failure.
    Completed { outcome: Result<u32, OsError> },
}

/// A transition asked of a descriptor in a state that does not allow it.
#[derive(Clone, Copy, Debug, PartialEq, Eq, Structural)]
pub enum StateError {
    /// Arming needs an idle descriptor.
    NotIdle,
    /// Completing, or giving up a submission, needs a pending descriptor.
    NotPending,
    /// Reading a result needs a completed descriptor.
    NotCompleted,
}

/// The state after arming.
pub open spec fn arm_next(s: OpState) -> OpState {
    match s {
        OpState::Idle => OpState::Pending,
        _ => s,
    }
}

/// The state after a completion with `outcome` is observed.
pub open spec fn complete_next(s: OpState, outcome: Result<u32, OsError>) -> OpState {
    match s {
        OpState::Pending => OpState::Completed { outcome },
        _ => s,
    }
}

/// The state after the result is taken.
pub open spec fn take_next(s: OpState) -> OpState {
    match s {
        OpState::Completed { .. } => OpState::Idle,
        _ => s,
    }
}

/// Bookkeeping for one asynchronous operation descriptor.
#[derive(Debug)]
pub struct Overlapped {
    state: OpState,
}

impl View for Overlapped {
    type V = OpState;

    closed spec fn view(&self) -> OpState {
        self.state
    }
}

impl Overlapped {
    /// A fresh descriptor, idle.
    pub fn new() -> (r: Overlapped)
        ensures
            r@ == OpState::Idle,
    {
        Overlapped { state: OpState::Idle }
    }

    /// The current state.
    pub fn state(&self) -> (r: OpState)
        ensures
            r == self@,
    {
        self.state
    }

    /// Marks the descriptor as handed to the kernel, just before submission.
    pub fn arm(&mut self) -> (r: Result<(), StateError>)
        ensures
            final(self)@ == arm_next(old(self)@),
            old(self)@ is Idle <==> r is Ok,
            !(old(self)@ is Idle) ==> r == Err::<(), StateError>(StateError::NotIdle),
    {
        match self.state {
            OpState::Idle => {
                self.state = OpState::Pending;
                Ok(())
            },
            _ => Err(StateError::NotIdle),
        }
    }

    /// Takes the descriptor back when the call that was to submit it failed
    /// at once, so that the kernel never held it.
    pub fn submit_failed(&mut self) -> (r: Result<(), StateError>)
        ensures
            old(self)@ is Pending ==> r is Ok && final(self)@ == OpState::Idle,
            !(old(self)@ is Pending) ==> r == Err::<(), StateError>(StateError::NotPending)
                && final(self)@ == old(self)@,
    {
        match self.state {
            OpState::Pending => {
                self.state = OpState::Idle;
                Ok(())
            },
            _ => Err(StateError::NotPending),
        }
    }

    /// Records the completion observed for this descriptor.
    pub fn complete(&mut self, outcome: Result<u32, OsError>) -> (r: Result<(), StateError>)
        ensures
            final(self)@ == complete_next(old(self)@, outcome),
            old(self)@ is Pending <==> r is Ok,
            !(old(self)@ is Pending) ==> r == Err::<(), StateError>(StateError::NotPending),
    {
        match self.state {
            OpState::Pending => {
                self.state = OpState::Completed { outcome };
                Ok(())
            },
            _ => Err(StateError::NotPending),
        }
    }

    /// The completed operation's result, without consuming it.
    pub fn result(&self) -> (r: Option<Result<u32, OsError>>)
        ensures
            match self@ {
                OpState::Completed { outcome } => r == Some(outcome),
                _ => r is None,
            },
    {
        match self.state {
            OpState::Completed { outcome } => Some(outcome),
            _ => None,
        }
    }

    /// Bytes that the completed operation transferred, when it succeeded.
    pub fn bytes_transferred(&self) -> (r: Option<u32>)
        ensures
            match self@ {
                OpState::Completed { outcome: Ok(n) } => r == Some(n),
                _ => r is None,
            },
    {
        match self.state {
            OpState::Completed { outcome: Ok(n) } => Some(n),
            _ => None,
        }
    }

    /// Consumes the completed result and makes the descriptor idle again,
    /// ready for the next operation.
    pub fn take_result(&mut self) -> (r: Result<Result<u32, OsError>, StateError>)
        ensures
            final(self)@ == take_next(old(self)@),
            match old(self)@ {
                OpState::Completed { outcome } => r == Ok::<Result<u32, OsError>, StateError>(
                    outcome,
                ),
                _ => r == Err::<Result<u32, OsError>, StateError>(StateError::NotCompleted),
            },
    {
        match self.state {
            OpState::Completed { outcome } => {
                self.state = OpState::Idle;
                Ok(outcome)
            },
            _ => Err(StateError::NotCompleted),
        }
    }
}

/// One descriptor serves operation after operation: arming an idle one,
/// completing it and taking its result returns it to idle, and the result
/// taken is the one recorded.
pub proof fn lemma_reuse_cycle(outcome: Result<u32, OsError>)
    ensures
        take_next(complete_next(arm_next(OpState::Idle), outcome)) == OpState::Idle,
        complete_next(arm_next(OpState::Idle), outcome) == (OpState::Completed { outcome }),
{
}

} // verus!
