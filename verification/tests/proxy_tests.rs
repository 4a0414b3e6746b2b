use tpp::config::Credential;
use tpp::health::{health_snapshot, metrics_text, readiness};
use tpp::proxy::TokenPoolProxy;
use tpp::token_acquirer::{collect_tokens, process_login_response};
use tpp::token_pool::TokenPool;

fn make_cred(name: &str) -> Credential {
    Credential {
        username: name.to_string(),
        password: "pass".to_string(),
    }
}

#[test]
fn test_happy_path() {
    // Startup: two logins against a shape-X upstream.
    let responses = [
        r#"{"userToken":"T1","resultCode":0}"#,
        r#"{"userToken":"T2","resultCode":0}"#,
    ];
    let outcomes: Vec<Option<String>> = responses
        .iter()
        .map(|body| process_login_response(200, body).ok())
        .collect();
    let tokens = collect_tokens(&outcomes).unwrap();
    let entries: Vec<(String, Credential)> = tokens
        .into_iter()
        .map(|t| (t, make_cred("user1")))
        .collect();
    let mut pool = TokenPool::new(entries, 1000);
    assert_eq!(pool.total(), 2);

    // One connection, one GET.
    let proxy = TokenPoolProxy::new("example.com:8848".to_string(), false);
    let mut ctx = proxy.new_ctx(1000);
    proxy.upstream_peer(&mut pool, &mut ctx, 1000);
    let header = proxy.upstream_request_filter(&ctx).unwrap();
    assert_eq!(header, "Bearer T1");

    // Connection closes cleanly.
    proxy.logging(&mut pool, &mut ctx, false, Some(200), true);
    assert!(ctx.token.is_none());
    assert_eq!(pool.available(), 2);
    assert_eq!(pool.in_use(), 0);
}

#[test]
fn test_blocking_checkout() {
    // Pool of one: the second connection waits for the first to close, then
    // sees the same token.
    let mut pool = TokenPool::new(vec![("T1".to_string(), make_cred("u"))], 0);
    let proxy = TokenPoolProxy::new("up:1".to_string(), false);

    let mut first = proxy.new_ctx(0);
    proxy.upstream_peer(&mut pool, &mut first, 0);
    assert_eq!(proxy.upstream_request_filter(&first).unwrap(), "Bearer T1");

    // The second connection's checkout cannot proceed yet.
    assert!(pool.try_acquire(0).is_none());

    proxy.logging(&mut pool, &mut first, false, Some(200), true);

    let mut second = proxy.new_ctx(1);
    proxy.upstream_peer(&mut pool, &mut second, 1);
    assert_eq!(proxy.upstream_request_filter(&second).unwrap(), "Bearer T1");
    proxy.logging(&mut pool, &mut second, false, Some(200), true);
}

#[test]
fn test_keepalive_reuses_binding() {
    let mut pool = TokenPool::new(
        vec![
            ("T1".to_string(), make_cred("u")),
            ("T2".to_string(), make_cred("u")),
        ],
        0,
    );
    let proxy = TokenPoolProxy::new("up:1".to_string(), false);
    let mut ctx = proxy.new_ctx(0);

    // Three requests on one keep-alive connection: one slot, held throughout.
    proxy.upstream_peer(&mut pool, &mut ctx, 0);
    proxy.logging(&mut pool, &mut ctx, false, Some(200), false);
    proxy.upstream_peer(&mut pool, &mut ctx, 1);
    proxy.logging(&mut pool, &mut ctx, false, Some(200), false);
    proxy.upstream_peer(&mut pool, &mut ctx, 2);
    assert_eq!(ctx.request_count, 3);
    assert_eq!(pool.in_use(), 1);
    assert_eq!(proxy.upstream_request_filter(&ctx).unwrap(), "Bearer T1");

    proxy.logging(&mut pool, &mut ctx, false, Some(200), true);
    assert_eq!(pool.in_use(), 0);
    assert_eq!(pool.available(), 2);
}

#[test]
fn test_unauthorized_marks_slot_for_refresh() {
    let mut pool = TokenPool::new(vec![("T1".to_string(), make_cred("u"))], 0);
    let proxy = TokenPoolProxy::new("up:1".to_string(), false);
    let mut ctx = proxy.new_ctx(0);

    proxy.upstream_peer(&mut pool, &mut ctx, 0);
    let id = ctx.token.as_ref().unwrap().id;

    // Upstream rejects the token.
    proxy.logging(&mut pool, &mut ctx, false, Some(401), true);

    assert!(pool.get_tokens_needing_refresh().contains(&id));
    assert!(pool.refresh_pending());
    // 401 is >= 400, so it also counts as an error.
    let (_uses, errors, _last) = pool.get_token_stats(id).unwrap();
    assert_eq!(errors, 1);
    // The slot was still returned.
    assert_eq!(pool.available(), 1);
}

#[test]
fn test_plain_error_does_not_mark_refresh() {
    let mut pool = TokenPool::new(vec![("T1".to_string(), make_cred("u"))], 0);
    let proxy = TokenPoolProxy::new("up:1".to_string(), false);
    let mut ctx = proxy.new_ctx(0);

    proxy.upstream_peer(&mut pool, &mut ctx, 0);
    proxy.logging(&mut pool, &mut ctx, false, Some(503), true);

    assert!(pool.get_tokens_needing_refresh().is_empty());
    let (_uses, errors, _last) = pool.get_token_stats(0).unwrap();
    assert_eq!(errors, 1);
}

#[test]
fn test_transport_error_releases_slot() {
    // The teardown hook runs even when the exchange died without a status.
    let mut pool = TokenPool::new(vec![("T1".to_string(), make_cred("u"))], 0);
    let proxy = TokenPoolProxy::new("up:1".to_string(), false);
    let mut ctx = proxy.new_ctx(0);

    proxy.upstream_peer(&mut pool, &mut ctx, 0);
    proxy.logging(&mut pool, &mut ctx, true, None, true);

    assert_eq!(pool.available(), 1);
    assert_eq!(pool.in_use(), 0);
    let (_uses, errors, _last) = pool.get_token_stats(0).unwrap();
    assert_eq!(errors, 1);
}

#[test]
fn test_filter_without_binding() {
    let proxy = TokenPoolProxy::new("up:1".to_string(), false);
    let ctx = proxy.new_ctx(0);
    assert!(proxy.upstream_request_filter(&ctx).is_none());
}

#[test]
fn test_health_snapshot_and_readiness() {
    let mut pool = TokenPool::new(
        vec![
            ("a".to_string(), make_cred("u")),
            ("b".to_string(), make_cred("u")),
        ],
        0,
    );
    assert!(readiness(&pool));

    let h = health_snapshot(&pool);
    assert_eq!(h.status, "healthy");
    assert_eq!(h.pool.total, 2);
    assert_eq!(h.pool.available, 2);
    assert_eq!(h.pool.in_use, 0);
    assert_eq!(h.pool.waiting, 0);

    // Exhaust the pool and park a waiter: degraded.
    let _t1 = pool.acquire(0);
    let _t2 = pool.acquire(0);
    pool.note_waiting_started();
    let h = health_snapshot(&pool);
    assert_eq!(h.status, "degraded");
    assert_eq!(h.pool.waiting, 1);

    let empty = TokenPool::new(Vec::new(), 0);
    assert!(!readiness(&empty));
}

#[test]
fn test_metrics_text_exact() {
    let mut pool = TokenPool::new(
        vec![
            ("a".to_string(), make_cred("u")),
            ("b".to_string(), make_cred("u")),
        ],
        0,
    );
    let _held = pool.acquire(0);
    let text = metrics_text(&pool);
    let expected = "# HELP tpp_tokens_total Total number of tokens in the pool\n\
         # TYPE tpp_tokens_total gauge\n\
         tpp_tokens_total 2\n\
         # HELP tpp_tokens_in_use Number of tokens currently in use\n\
         # TYPE tpp_tokens_in_use gauge\n\
         tpp_tokens_in_use 1\n\
         # HELP tpp_tokens_available Number of tokens available\n\
         # TYPE tpp_tokens_available gauge\n\
         tpp_tokens_available 1\n\
         # HELP tpp_requests_waiting Number of requests waiting for a token\n\
         # TYPE tpp_requests_waiting gauge\n\
         tpp_requests_waiting 0\n";
    assert_eq!(text, expected);
}

#[test]
fn test_partial_startup_runs_degraded() {
    // Ten logins, seven succeed: the pool starts with seven slots.
    let mut outcomes: Vec<Option<String>> = Vec::new();
    for i in 0..10 {
        if i < 7 {
            outcomes.push(Some(format!("tok{}", i)));
        } else {
            outcomes.push(None);
        }
    }
    let tokens = collect_tokens(&outcomes).unwrap();
    assert_eq!(tokens.len(), 7);
    let entries: Vec<(String, Credential)> = tokens
        .into_iter()
        .map(|t| (t, make_cred("user1")))
        .collect();
    let pool = TokenPool::new(entries, 0);
    assert_eq!(pool.total(), 7);
    assert!(readiness(&pool));
}

#[test]
fn test_full_lifecycle_restores_counters() {
    // acquire -> inject -> release: at the end the counters match the
    // pre-state.
    let mut pool = TokenPool::new(vec![("T".to_string(), make_cred("u"))], 0);
    let before = (pool.total(), pool.available(), pool.in_use(), pool.waiting());

    let proxy = TokenPoolProxy::new("up:1".to_string(), false);
    let mut ctx = proxy.new_ctx(0);
    proxy.upstream_peer(&mut pool, &mut ctx, 0);
    let _ = proxy.upstream_request_filter(&ctx).unwrap();
    proxy.logging(&mut pool, &mut ctx, false, Some(200), true);

    let after = (pool.total(), pool.available(), pool.in_use(), pool.waiting());
    assert_eq!(before, after);
}
