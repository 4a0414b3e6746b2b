//! Health and metrics snapshots of the pool. The HTTP endpoints that serve
//! them run outside the library; this module computes their exact payloads.

use vstd::prelude::*;
use vstd::string::*;

use crate::text::{dec_str, push_decimal};
use crate::token_pool::{PoolV, TokenPool};

verus! {

/// Token pool status, as reported by the health endpoint.
pub struct PoolStatus {
    pub total: usize,
    pub in_use: u64,
    pub available: usize,
    pub waiting: u64,
}

/// Health check response.
pub struct HealthResponse {
    /// `"healthy"`, or `"degraded"` when requests are waiting on an empty
    /// pool.
    pub status: String,
    pub pool: PoolStatus,
}

/// The pool is degraded when every slot is checked out and requests wait.
pub open spec fn degraded(p: PoolV) -> bool {
    p.waiting > 0 && p.fifo.len() == 0
}

/// The health endpoint's payload: the pool's counters and whether the pool
/// is currently degraded.
pub fn health_snapshot(pool: &TokenPool) -> (r: HealthResponse)
    ensures
        r.pool.total == pool@.slots.len(),
        r.pool.in_use == pool@.in_use,
        r.pool.available == pool@.fifo.len(),
        r.pool.waiting == pool@.waiting,
        degraded(pool@) ==> r.status@ == "degraded"@,
        !degraded(pool@) ==> r.status@ == "healthy"@,
{
    let available = pool.available();
    let waiting = pool.waiting();
    let status = if waiting > 0 && available == 0 {
        "degraded".to_owned()
    } else {
        "healthy".to_owned()
    };
    HealthResponse {
        status,
        pool: PoolStatus { total: pool.total(), in_use: pool.in_use(), available, waiting },
    }
}

/// The readiness probe's decision: ready exactly when the pool holds at
/// least one slot.
pub fn readiness(pool: &TokenPool) -> (r: bool)
    ensures
        r == (pool@.slots.len() > 0),
{
    pool.total() > 0
}

/// The metrics endpoint's exact payload for a pool state.
pub open spec fn spec_metrics_text(p: PoolV) -> Seq<char> {
    "# HELP tpp_tokens_total Total number of tokens in the pool\n# TYPE tpp_tokens_total gauge\ntpp_tokens_total "@
        + dec_str(p.slots.len() as int)
        + "\n# HELP tpp_tokens_in_use Number of tokens currently in use\n# TYPE tpp_tokens_in_use gauge\ntpp_tokens_in_use "@
        + dec_str(p.in_use as int)
        + "\n# HELP tpp_tokens_available Number of tokens available\n# TYPE tpp_tokens_available gauge\ntpp_tokens_available "@
        + dec_str(p.fifo.len() as int)
        + "\n# HELP tpp_requests_waiting Number of requests waiting for a token\n# TYPE tpp_requests_waiting gauge\ntpp_requests_waiting "@
        + dec_str(p.waiting as int) + "\n"@
}

/// Renders the pool's counters in the plain text exposition format.
pub fn metrics_text(pool: &TokenPool) -> (r: String)
    ensures
        r@ == spec_metrics_text(pool@),
{
    let mut s =
        "# HELP tpp_tokens_total Total number of tokens in the pool\n# TYPE tpp_tokens_total gauge\ntpp_tokens_total ".to_owned();
    push_decimal(&mut s, pool.total() as u64);
    s.append(
        "\n# HELP tpp_tokens_in_use Number of tokens currently in use\n# TYPE tpp_tokens_in_use gauge\ntpp_tokens_in_use ",
    );
    push_decimal(&mut s, pool.in_use());
    s.append(
        "\n# HELP tpp_tokens_available Number of tokens available\n# TYPE tpp_tokens_available gauge\ntpp_tokens_available ",
    );
    push_decimal(&mut s, pool.available() as u64);
    s.append(
        "\n# HELP tpp_requests_waiting Number of requests waiting for a token\n# TYPE tpp_requests_waiting gauge\ntpp_requests_waiting ",
    );
    push_decimal(&mut s, pool.waiting());
    s.append("\n");
    proof {
        assert(s@ =~= spec_metrics_text(pool@));
    }
    s
}

} // verus!
