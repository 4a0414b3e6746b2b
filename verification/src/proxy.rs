//! The per-connection handler state machine: bind a slot on the first
//! request, inject the `Authorization` header on every request, record
//! failures against the slot, and return the slot when the connection ends.
//! The HTTP framing library that parses and forwards requests runs outside
//! the library and calls these hooks in order.

use vstd::prelude::*;
use vstd::string::*;

use crate::token_pool::{PoolV, Token, TokenPool, TokenV};

verus! {

/// The proxy's fixed upstream: where requests are forwarded.
pub struct TokenPoolProxy {
    /// Upstream server address (`host:port`).
    pub upstream: String,
    /// Whether to use TLS for the upstream connection.
    pub use_tls: bool,
}

/// Per-connection context.
pub struct ProxyCtx {
    /// The token bound to this connection, if any.
    pub token: Option<Token>,
    /// When this connection started, in seconds on the caller's clock.
    pub conn_start: u64,
    /// Number of requests seen on this connection.
    pub request_count: u64,
}

/// The mathematical value of the connection's binding.
pub open spec fn bound_token_view(o: Option<Token>) -> Option<TokenV> {
    match o {
        Some(t) => Some(t@),
        None => None,
    }
}

/// Whether an exchange counts as failed: a transport error, or a response
/// status of 400 or above.
pub open spec fn response_is_error(error: bool, status: Option<u16>) -> bool {
    error || (match status {
        Some(s) => s >= 400,
        None => false,
    })
}

/// What the end-of-request hook does to the pool: record an error against
/// the bound slot when the exchange failed, additionally mark the slot for
/// refresh on a 401, and return the slot when the connection is done. With
/// no slot bound, nothing changes.
pub open spec fn spec_logging(
    p: PoolV,
    bound: Option<TokenV>,
    error: bool,
    status: Option<u16>,
    body_done: bool,
) -> PoolV {
    match bound {
        None => p,
        Some(t) => {
            let p1 = if response_is_error(error, status) {
                p.mark_error_tr(t.id)
            } else {
                p
            };
            let p2 = if status == Some(401u16) {
                p1.mark_refresh_tr(t.id)
            } else {
                p1
            };
            if body_done {
                p2.release_tr(t.id)
            } else {
                p2
            }
        },
    }
}

impl TokenPoolProxy {
    /// A proxy forwarding to `upstream`, over TLS when `use_tls` is set.
    pub fn new(upstream: String, use_tls: bool) -> (r: TokenPoolProxy)
        ensures
            r.upstream@ == upstream@,
            r.use_tls == use_tls,
    {
        TokenPoolProxy { upstream, use_tls }
    }

    /// A fresh context for a connection that starts at `now`: no slot
    /// bound, no requests seen.
    pub fn new_ctx(&self, now: u64) -> (r: ProxyCtx)
        ensures
            r.token is None,
            r.conn_start == now,
            r.request_count == 0,
    {
        ProxyCtx { token: None, conn_start: now, request_count: 0 }
    }

    /// The peer-selection hook, run once per request. On the connection's
    /// first request it binds a slot: the caller blocks until the pool has
    /// one available and then hands it in here. Later requests reuse the
    /// binding. Either way the request is counted.
    pub fn upstream_peer(&self, pool: &mut TokenPool, ctx: &mut ProxyCtx, now: u64)
        requires
            old(pool).wf(),
            old(ctx).token is None ==> old(pool)@.fifo.len() > 0,
            old(ctx).request_count < u64::MAX,
        ensures
            final(pool).wf(),
            final(ctx).request_count == old(ctx).request_count + 1,
            final(ctx).conn_start == old(ctx).conn_start,
            old(ctx).token is None ==> ({
                let (p, tv) = old(pool)@.acquire_tr(now);
                final(pool)@ == p && (final(ctx).token matches Some(t) && t@ == tv)
            }),
            old(ctx).token is Some ==> final(pool)@ == old(pool)@ && final(ctx).token == old(
                ctx,
            ).token,
    {
        if ctx.token.is_none() {
            let t = pool.acquire(now);
            ctx.token = Some(t);
        }
        ctx.request_count = ctx.request_count + 1;
    }

    /// The header-injection hook: the `Authorization` value to set on the
    /// outbound request, captured from the binding made at checkout.
    pub fn upstream_request_filter(&self, ctx: &ProxyCtx) -> (r: Option<String>)
        ensures
            ctx.token matches Some(t) ==> (r matches Some(h) && h@ == "Bearer "@ + t.value@),
            ctx.token is None ==> r is None,
    {
        match &ctx.token {
            Some(t) => {
                let mut s = "Bearer ".to_owned();
                s.append(t.value.as_str());
                Some(s)
            },
            None => None,
        }
    }

    /// The end-of-request hook. Records an error against the bound slot
    /// when the exchange failed or the status is 400 or above; on a 401
    /// additionally marks the slot for refresh. When the connection is done
    /// (`body_done`), returns the slot to the pool — exactly once — and
    /// clears the binding.
    pub fn logging(
        &self,
        pool: &mut TokenPool,
        ctx: &mut ProxyCtx,
        error: bool,
        status: Option<u16>,
        body_done: bool,
    )
        requires
            old(pool).wf(),
        ensures
            final(pool).wf(),
            final(pool)@ == spec_logging(
                old(pool)@,
                bound_token_view(old(ctx).token),
                error,
                status,
                body_done,
            ),
            body_done ==> final(ctx).token is None,
            !body_done ==> final(ctx).token == old(ctx).token,
            final(ctx).conn_start == old(ctx).conn_start,
            final(ctx).request_count == old(ctx).request_count,
    {
        let bound = ctx.token.take();
        match bound {
            Some(t) => {
                let is_err = error || (match status {
                    Some(s) => s >= 400,
                    None => false,
                });
                if is_err {
                    pool.mark_error(&t);
                }
                let is_unauthorized = match status {
                    Some(s) => s == 401,
                    None => false,
                };
                if is_unauthorized {
                    pool.mark_needs_refresh(t.id);
                }
                if body_done {
                    pool.release(t);
                } else {
                    ctx.token = Some(t);
                }
            },
            None => {},
        }
    }
}

} // verus!
