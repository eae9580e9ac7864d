//! Common shapes of the two state machines.
//!
//! A transition either succeeds with a [`TransitionResult`] — the replacement
//! state, the ordered actions owed to the executor, and one timeline entry —
//! or fails with a [`StateError`], which the caller must treat as a
//! programming or ordering defect, never a transient fault.

use crate::timeline::TimelineEntry;
use vstd::prelude::*;
use vstd::string::StringExecFns;

verus! {

/// What a successful transition hands back: the engine performs no side
/// effect itself, the actions are data for an external executor.
#[derive(Debug)]
pub struct TransitionResult<S, A> {
    pub new_state: S,
    pub actions: Vec<A>,
    pub timeline_entry: TimelineEntry,
}

/// Raised when a `(state, event)` pair has no defined rule. No mutation has
/// occurred when it is returned.
#[derive(Debug, Clone)]
pub enum StateError {
    InvalidTransition { from: String, event: String },
}

impl StateError {
    /// A human-readable description, naming the state and the event.
    pub fn message(&self) -> (res: String)
        ensures
            res@ == "Invalid transition from "@ + self->from@ + " with event "@ + self->event@,
    {
        match self {
            StateError::InvalidTransition { from, event } => {
                let mut s: String = "Invalid transition from ".to_owned();
                s.append(from.as_str());
                s.append(" with event ");
                s.append(event.as_str());
                s
            },
        }
    }
}

} // verus!
