use tpp::config::Credential;
use tpp::token_pool::{Token, TokenPool};

fn make_cred(name: &str) -> Credential {
    Credential {
        username: name.to_string(),
        password: "pass".to_string(),
    }
}

#[test]
fn test_acquire_release() {
    let mut pool = TokenPool::new(
        vec![
            ("token1".to_string(), make_cred("user1")),
            ("token2".to_string(), make_cred("user2")),
        ],
        1000,
    );

    assert_eq!(pool.total(), 2);
    assert_eq!(pool.available(), 2);
    assert_eq!(pool.in_use(), 0);

    let t1 = pool.acquire(1000);
    assert_eq!(pool.available(), 1);
    assert_eq!(pool.in_use(), 1);

    let t2 = pool.acquire(1000);
    assert_eq!(pool.available(), 0);
    assert_eq!(pool.in_use(), 2);

    pool.release(t1);
    assert_eq!(pool.available(), 1);
    assert_eq!(pool.in_use(), 1);

    pool.release(t2);
    assert_eq!(pool.available(), 2);
    assert_eq!(pool.in_use(), 0);
}

#[test]
fn test_token_refresh() {
    let mut pool = TokenPool::new(vec![("old_token".to_string(), make_cred("user1"))], 1000);

    let t = pool.acquire(1000);
    assert_eq!(t.value, "old_token");

    // Mark for refresh and update
    pool.mark_needs_refresh(t.id);
    assert!(pool.get_tokens_needing_refresh().contains(&t.id));

    pool.update_token(t.id, "new_token".to_string(), 1010);
    assert!(pool.get_tokens_needing_refresh().is_empty());

    pool.release(t);

    // Acquire again should get new value
    let t2 = pool.acquire(1020);
    assert_eq!(t2.value, "new_token");
}

#[test]
fn test_counters_balance() {
    let mut pool = TokenPool::new(
        vec![
            ("a".to_string(), make_cred("u")),
            ("b".to_string(), make_cred("u")),
            ("c".to_string(), make_cred("u")),
        ],
        0,
    );
    assert_eq!(pool.total(), pool.available() + pool.in_use() as usize);
    let t1 = pool.acquire(0);
    assert_eq!(pool.total(), pool.available() + pool.in_use() as usize);
    let t2 = pool.acquire(0);
    assert_eq!(pool.total(), pool.available() + pool.in_use() as usize);
    pool.release(t1);
    assert_eq!(pool.total(), pool.available() + pool.in_use() as usize);
    pool.release(t2);
    assert_eq!(pool.total(), pool.available() + pool.in_use() as usize);
    assert_eq!(pool.available(), 3);
    assert_eq!(pool.in_use(), 0);
}

#[test]
fn test_pool_size_one_serializes() {
    let mut pool = TokenPool::new(vec![("T1".to_string(), make_cred("u"))], 0);

    let first = pool.try_acquire(0).expect("one slot is available");
    assert_eq!(first.value, "T1");

    // The second checkout cannot proceed while the first holds the slot.
    assert!(pool.try_acquire(0).is_none());
    assert_eq!(pool.available(), 0);

    pool.release(first);
    let second = pool.try_acquire(1).expect("the slot came back");
    assert_eq!(second.value, "T1");
}

#[test]
fn test_fifo_order_of_released_slots() {
    let mut pool = TokenPool::new(
        vec![
            ("a".to_string(), make_cred("u")),
            ("b".to_string(), make_cred("u")),
            ("c".to_string(), make_cred("u")),
        ],
        0,
    );
    let ta = pool.acquire(0);
    let tb = pool.acquire(0);
    let tc = pool.acquire(0);
    let (ida, idb, idc) = (ta.id, tb.id, tc.id);

    pool.release(tb);
    pool.release(tc);
    pool.release(ta);

    assert_eq!(pool.acquire(1).id, idb);
    assert_eq!(pool.acquire(1).id, idc);
    assert_eq!(pool.acquire(1).id, ida);
}

#[test]
fn test_distinct_slots_per_checkout() {
    let mut pool = TokenPool::new(
        vec![
            ("a".to_string(), make_cred("u")),
            ("b".to_string(), make_cred("u")),
        ],
        0,
    );
    let t1 = pool.acquire(0);
    let t2 = pool.acquire(0);
    assert_ne!(t1.id, t2.id);
}

#[test]
fn test_release_of_unknown_or_idle_slot_is_ignored() {
    let mut pool = TokenPool::new(vec![("a".to_string(), make_cred("u"))], 0);

    // Unknown slot ID.
    pool.release(Token {
        value: String::new(),
        id: 99,
    });
    assert_eq!(pool.available(), 1);
    assert_eq!(pool.in_use(), 0);

    // Slot that is already available.
    pool.release(Token {
        value: String::new(),
        id: 0,
    });
    assert_eq!(pool.available(), 1);
    assert_eq!(pool.in_use(), 0);
}

#[test]
fn test_get_credential() {
    let pool = TokenPool::new(vec![("a".to_string(), make_cred("user7"))], 0);
    let c = pool.get_credential(0).expect("slot 0 exists");
    assert_eq!(c.username, "user7");
    assert_eq!(c.password, "pass");
    assert!(pool.get_credential(1).is_none());
}

#[test]
fn test_token_stats() {
    let mut pool = TokenPool::new(vec![("a".to_string(), make_cred("u"))], 0);
    assert_eq!(pool.get_token_stats(0), Some((0, 0, 0)));

    let t = pool.acquire(555);
    assert_eq!(pool.get_token_stats(0), Some((1, 0, 555)));

    pool.mark_error(&t);
    assert_eq!(pool.get_token_stats(0), Some((1, 1, 555)));

    assert!(pool.get_token_stats(1).is_none());
}

#[test]
fn test_expired_tokens_by_ttl() {
    let mut pool = TokenPool::new(
        vec![
            ("a".to_string(), make_cred("u")),
            ("b".to_string(), make_cred("u")),
        ],
        1000,
    );
    // At issue time nothing is expired.
    assert!(pool.get_expired_tokens(1, 1000).is_empty());
    // Within the TTL nothing is expired.
    assert!(pool.get_expired_tokens(10, 1005).is_empty());
    // Two seconds past a one-second TTL, both are expired.
    assert_eq!(pool.get_expired_tokens(1, 1002), vec![0, 1]);

    // A refresh restarts the clock for the refreshed slot only.
    pool.update_token(0, "a2".to_string(), 1002);
    assert_eq!(pool.get_expired_tokens(1, 1002), vec![1]);
}

#[test]
fn test_refresh_notification_coalesces() {
    let mut pool = TokenPool::new(
        vec![
            ("a".to_string(), make_cred("u")),
            ("b".to_string(), make_cred("u")),
        ],
        0,
    );
    assert!(!pool.refresh_pending());

    // Several marks before the refresher wakes...
    pool.mark_needs_refresh(0);
    pool.mark_needs_refresh(1);
    assert!(pool.refresh_pending());

    // ...cause exactly one wakeup, which then drains all marked slots.
    assert!(pool.take_refresh_notification());
    assert!(!pool.take_refresh_notification());
    assert_eq!(pool.get_tokens_needing_refresh(), vec![0, 1]);
}

#[test]
fn test_mark_needs_refresh_unknown_id_ignored() {
    let mut pool = TokenPool::new(vec![("a".to_string(), make_cred("u"))], 0);
    pool.mark_needs_refresh(5);
    assert!(!pool.refresh_pending());
    assert!(pool.get_tokens_needing_refresh().is_empty());
}

#[test]
fn test_waiting_counter() {
    let mut pool = TokenPool::new(vec![("a".to_string(), make_cred("u"))], 0);
    assert_eq!(pool.waiting(), 0);
    pool.note_waiting_started();
    pool.note_waiting_started();
    assert_eq!(pool.waiting(), 2);
    pool.note_waiting_finished();
    assert_eq!(pool.waiting(), 1);
    pool.note_waiting_finished();
    pool.note_waiting_finished();
    assert_eq!(pool.waiting(), 0);
}

#[test]
fn test_update_token_unknown_id_is_noop() {
    let mut pool = TokenPool::new(vec![("a".to_string(), make_cred("u"))], 0);
    pool.update_token(9, "zzz".to_string(), 5);
    let t = pool.acquire(5);
    assert_eq!(t.value, "a");
}

#[test]
fn test_many_workers_finish_balanced() {
    // Several workers share two slots: bursts of checkouts followed by the
    // matching checkins. Once every worker is done, all slots are back and
    // none is in use, and the counters balance at every step.
    let mut pool = TokenPool::new(
        vec![
            ("a".to_string(), make_cred("u")),
            ("b".to_string(), make_cred("u")),
        ],
        0,
    );
    let mut held: Vec<Token> = Vec::new();
    for round in 0..50 {
        while let Some(t) = pool.try_acquire(round) {
            held.push(t);
        }
        assert_eq!(pool.available(), 0);
        assert_eq!(pool.total(), pool.available() + pool.in_use() as usize);
        while let Some(t) = held.pop() {
            pool.release(t);
        }
        assert_eq!(pool.total(), pool.available() + pool.in_use() as usize);
    }
    assert_eq!(pool.available(), 2);
    assert_eq!(pool.in_use(), 0);
}
