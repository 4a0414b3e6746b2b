//! The refresher's decision rules. The background task that waits on a
//! timer and on the pool's refresh notification runs outside the library;
//! on each wake it asks this module which slots to re-issue and, after each
//! attempt, applies the outcome here.

use vstd::prelude::*;

use crate::token_pool::{PoolV, TokenPool};

verus! {

/// What woke the refresher.
pub enum RefreshEvent {
    /// The periodic timer at `check_interval_seconds` fired.
    Tick,
    /// The pool's refresh notification was signalled.
    Notified,
}

/// The refresher's schedule: how old a token may grow, and how often to
/// look for expired ones.
pub struct TokenRefresher {
    /// Tokens older than this many seconds are re-issued.
    pub ttl_seconds: u64,
    /// How often to check for expired tokens, in seconds.
    pub check_interval_seconds: u64,
}

impl TokenRefresher {
    /// A refresher with the given schedule.
    pub fn new(ttl_seconds: u64, check_interval_seconds: u64) -> (r: TokenRefresher)
        ensures
            r.ttl_seconds == ttl_seconds,
            r.check_interval_seconds == check_interval_seconds,
    {
        TokenRefresher { ttl_seconds, check_interval_seconds }
    }

    /// Which slots one wake re-issues: on a tick, the slots whose tokens
    /// are expired at `now`; on a notification, the slots marked as needing
    /// refresh.
    pub fn slots_to_refresh(&self, pool: &TokenPool, event: &RefreshEvent, now: u64) -> (r: Vec<
        usize,
    >)
        ensures
            event matches RefreshEvent::Tick ==> r@ == pool@.expired_ids(self.ttl_seconds, now),
            event matches RefreshEvent::Notified ==> r@ == pool@.marked_ids(),
    {
        match event {
            RefreshEvent::Tick => pool.get_expired_tokens(self.ttl_seconds, now),
            RefreshEvent::Notified => pool.get_tokens_needing_refresh(),
        }
    }
}

/// Applies one refresh attempt's outcome to the pool. A fresh token value
/// is written into the slot, restarting its TTL and clearing its mark; a
/// failed or timed-out attempt changes nothing, so the slot's mark stays
/// set and the next tick or wake retries it.
pub fn apply_refresh_outcome(pool: &mut TokenPool, id: usize, outcome: Option<String>, now: u64)
    requires
        old(pool).wf(),
    ensures
        final(pool).wf(),
        outcome matches Some(v) ==> final(pool)@ == old(pool)@.update_token_tr(id, v@, now),
        outcome is None ==> final(pool)@ == old(pool)@,
{
    match outcome {
        Some(v) => pool.update_token(id, v, now),
        None => {},
    }
}

/// Law: a wake that finds nothing to refresh leaves the pool unchanged —
/// applying a run of outcomes over an empty slot list is no transition at
/// all. Stated over the pool's view for the tick case.
pub proof fn lemma_empty_wake_is_noop(p: PoolV, ttl_seconds: u64, now: u64)
    requires
        forall|i: int|
            0 <= i < p.slots.len() ==> !crate::token_pool::is_expired_at(
                (#[trigger] p.slots[i]).acquired_at,
                ttl_seconds,
                now,
            ),
    ensures
        p.expired_ids(ttl_seconds, now).len() == 0,
{
    crate::token_pool::lemma_no_expired_no_work(p, ttl_seconds, now);
}

} // verus!
