//! The outbox publisher: its events, the retry rule and the polling loop's
//! decisions.  Fetching, sending and marking are done by the caller, which
//! feeds each outcome back here.
use vstd::prelude::*;

verus! {

/// A pending outbox event as the publisher reads it.
#[derive(Debug, Clone)]
pub struct OutboxEvent {
    pub event_id: String,
    pub aggregate_type: String,
    pub aggregate_id: String,
    pub event_type: String,
    pub payload: String,
    pub created_at: i64,
    pub retry_count: u32,
}

/// How many failed sends an event is given before it is marked failed.
pub const MAX_RETRIES: u32 = 5;

/// The status an event gets after a failed send that brings its count to
/// `count`.
pub open spec fn retry_status_spec(count: int, max_retries: int) -> Seq<char> {
    if count > max_retries {
        "FAILED"@
    } else {
        "PENDING"@
    }
}

/// After a failed send: the new retry count and status; the event fails
/// once the count exceeds `max_retries`, and stays pending until then.
pub fn retry_outcome(current: u32, max_retries: u32) -> (r: (u32, &'static str))
    requires
        current < u32::MAX,
    ensures
        r.0 == current + 1,
        r.1@ == retry_status_spec(current + 1, max_retries as int),
{
    let count = current + 1;
    let status = if count > max_retries {
        "FAILED"
    } else {
        "PENDING"
    };
    (count, status)
}

/// What to do with an event once its send is over.
#[derive(Debug, Clone, Copy, PartialEq, Eq)]
pub enum EventAction {
    /// Mark it sent and count it published.
    MarkSent,
    /// Count an error and record a retry.
    MarkRetry,
}

/// A sent event is marked sent; an event whose send failed is retried.
pub fn action_after_send(sent: bool) -> (r: EventAction)
    ensures
        r == (if sent {
            EventAction::MarkSent
        } else {
            EventAction::MarkRetry
        }),
{
    if sent {
        EventAction::MarkSent
    } else {
        EventAction::MarkRetry
    }
}

/// The polling loop's own state: how many ticks have passed.
pub struct PollerState {
    pub ticks: u64,
}

/// How often (in ticks) the pending count is refreshed.
pub const PENDING_REFRESH_TICKS: u64 = 20;

impl PollerState {
    /// Before the first tick.
    pub fn new() -> (r: PollerState)
        ensures
            r.ticks == 0,
    {
        PollerState { ticks: 0 }
    }

    /// Counts a tick; says whether the pending count is due for a refresh
    /// (every twentieth tick).
    pub fn on_tick(&mut self) -> (refresh_pending: bool)
        requires
            old(self).ticks < u64::MAX,
        ensures
            final(self).ticks == old(self).ticks + 1,
            refresh_pending == (final(self).ticks % 20 == 0),
            tick_step(*old(self), *final(self), refresh_pending),
    {
        self.ticks = self.ticks + 1;
        self.ticks % PENDING_REFRESH_TICKS == 0
    }
}


/// One tick of the poller: the count goes up by one, and the pending count
/// is refreshed when the new count is a multiple of twenty.
pub open spec fn tick_step(before: PollerState, after: PollerState, refresh: bool) -> bool {
    after.ticks == before.ticks + 1 && refresh == (after.ticks % 20 == 0)
}

/// Over any run of ticks from a fresh poller, tick `k` (counting from one)
/// refreshes the pending count exactly when `k` is a multiple of twenty.
pub proof fn lemma_refresh_every_twentieth(states: Seq<PollerState>, refreshes: Seq<bool>)
    requires
        states.len() == refreshes.len() + 1,
        states[0].ticks == 0,
        forall|i: int| 0 <= i < refreshes.len() ==> tick_step(#[trigger] states[i], states[i + 1], refreshes[i]),
    ensures
        forall|i: int| 0 <= i < states.len() ==> #[trigger] states[i].ticks == i,
        forall|i: int| 0 <= i < refreshes.len() ==> #[trigger] refreshes[i] == ((i + 1) % 20 == 0),
    decreases refreshes.len(),
{
    if refreshes.len() > 0 {
        let n = refreshes.len() - 1;
        let s0 = states.drop_last();
        let r0 = refreshes.drop_last();
        assert forall|i: int| 0 <= i < r0.len() implies tick_step(#[trigger] s0[i], s0[i + 1], r0[i]) by {
            assert(tick_step(states[i], states[i + 1], refreshes[i]));
        }
        lemma_refresh_every_twentieth(s0, r0);
        assert(s0[n] == states[n]);
        assert(tick_step(states[n], states[n + 1], refreshes[n]));
        assert forall|i: int| 0 <= i < states.len() implies #[trigger] states[i].ticks == i by {
            if i < states.len() - 1 {
                assert(s0[i] == states[i]);
            }
        }
        assert forall|i: int| 0 <= i < refreshes.len() implies #[trigger] refreshes[i] == ((i + 1) % 20 == 0) by {
            if i < n {
                assert(r0[i] == refreshes[i]);
                assert(s0[i + 1] == states[i + 1]);
                assert(tick_step(states[i], states[i + 1], refreshes[i]));
            }
        }
    }
}

/// An event stays pending while its retry count is at most the limit, and
/// fails once the count exceeds it: at the limit itself it is still pending.
pub proof fn lemma_retry_limit(count: int, max_retries: int)
    ensures
        count <= max_retries ==> retry_status_spec(count, max_retries) == "PENDING"@,
        count > max_retries ==> retry_status_spec(count, max_retries) == "FAILED"@,
        retry_status_spec(max_retries, max_retries) == "PENDING"@,
        MAX_RETRIES == 5,
        PENDING_REFRESH_TICKS == 20,
{
}

} // verus!
