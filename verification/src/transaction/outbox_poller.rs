//! The transaction service's outbox poller: which event to publish and what
//! to record once it is sent or not.
use vstd::prelude::*;

verus! {

/// An outbox event ready to publish.
#[derive(Debug, Clone)]
pub struct OutboxEvent {
    pub event_id: String,
    pub aggregate_type: String,
    pub aggregate_id: String,
    pub event_type: String,
    pub payload: String,
    pub created_at: i64,
}


/// What to do with an event once its send is over.
#[derive(Debug, Clone, Copy, PartialEq, Eq)]
pub enum PollAction {
    /// Mark it sent.
    MarkSent,
    /// Count one more retry.
    IncrementRetry,
}

/// A sent event is marked sent; an event whose send failed gets one more
/// retry counted.
pub fn next_action(sent: bool) -> (r: PollAction)
    ensures
        r == (if sent {
            PollAction::MarkSent
        } else {
            PollAction::IncrementRetry
        }),
{
    if sent {
        PollAction::MarkSent
    } else {
        PollAction::IncrementRetry
    }
}

} // verus!
