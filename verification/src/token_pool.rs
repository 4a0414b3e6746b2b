//! The token pool: a bounded set of credential slots with exclusive FIFO
//! checkout and return, per-slot metadata, and a coalescing refresh
//! notification flag.
//!
//! The pool is a sequential state machine. The surrounding process shares it
//! across tasks and parks callers while the FIFO is empty; every state change
//! it can make goes through the verified operations here, each of which is
//! pinned to a spec-level transition on the pool's view.

use vstd::prelude::*;

use crate::config::{Credential, CredentialV};

verus! {

/// A checked-out token: the bearer value and the slot it came from.
pub struct Token {
    /// The actual bearer token value.
    pub value: String,
    /// The slot ID this token occupies, dense in `[0, total)`.
    pub id: usize,
}

/// The mathematical value of a `Token`.
pub struct TokenV {
    pub value: Seq<char>,
    pub id: usize,
}

impl View for Token {
    type V = TokenV;

    open spec fn view(&self) -> TokenV {
        TokenV { value: self.value@, id: self.id }
    }
}

/// Per-slot metadata: the current bearer value, its issue time, the
/// credential to re-issue it with, and advisory counters.
pub struct TokenMeta {
    value: String,
    acquired_at: u64,
    credential: Credential,
    use_count: u64,
    error_count: u64,
    last_used: u64,
    needs_refresh: bool,
}

/// The mathematical value of a `TokenMeta`.
pub struct TokenMetaV {
    pub value: Seq<char>,
    pub acquired_at: u64,
    pub credential: CredentialV,
    pub use_count: u64,
    pub error_count: u64,
    pub last_used: u64,
    pub needs_refresh: bool,
}

impl View for TokenMeta {
    type V = TokenMetaV;

    closed spec fn view(&self) -> TokenMetaV {
        TokenMetaV {
            value: self.value@,
            acquired_at: self.acquired_at,
            credential: self.credential@,
            use_count: self.use_count,
            error_count: self.error_count,
            last_used: self.last_used,
            needs_refresh: self.needs_refresh,
        }
    }
}

/// `x + 1`, stopping at the largest counter value instead of wrapping.
pub open spec fn sat_inc(x: u64) -> u64 {
    if x < u64::MAX {
        (x + 1) as u64
    } else {
        x
    }
}

/// A token issued at `acquired_at` is expired at `now` when its age exceeds
/// `ttl_seconds`. A clock that moved backwards never expires a token.
pub open spec fn is_expired_at(acquired_at: u64, ttl_seconds: u64, now: u64) -> bool {
    now - acquired_at > ttl_seconds
}

/// The metadata of a freshly provisioned slot.
pub open spec fn initial_meta(value: Seq<char>, credential: CredentialV, now: u64) -> TokenMetaV {
    TokenMetaV {
        value: value,
        acquired_at: now,
        credential: credential,
        use_count: 0,
        error_count: 0,
        last_used: 0,
        needs_refresh: false,
    }
}

/// The metadata after a checkout recorded a use at `now`.
pub open spec fn meta_after_use(m: TokenMetaV, now: u64) -> TokenMetaV {
    TokenMetaV {
        value: m.value,
        acquired_at: m.acquired_at,
        credential: m.credential,
        use_count: sat_inc(m.use_count),
        error_count: m.error_count,
        last_used: now,
        needs_refresh: m.needs_refresh,
    }
}

/// The metadata after one error was recorded.
pub open spec fn meta_after_error(m: TokenMetaV) -> TokenMetaV {
    TokenMetaV {
        value: m.value,
        acquired_at: m.acquired_at,
        credential: m.credential,
        use_count: m.use_count,
        error_count: sat_inc(m.error_count),
        last_used: m.last_used,
        needs_refresh: m.needs_refresh,
    }
}

/// The metadata after it was marked as needing refresh.
pub open spec fn meta_after_mark(m: TokenMetaV) -> TokenMetaV {
    TokenMetaV {
        value: m.value,
        acquired_at: m.acquired_at,
        credential: m.credential,
        use_count: m.use_count,
        error_count: m.error_count,
        last_used: m.last_used,
        needs_refresh: true,
    }
}

/// The metadata after a successful refresh wrote `value` at `now`: the issue
/// time restarts and the refresh flag is cleared.
pub open spec fn meta_after_update(m: TokenMetaV, value: Seq<char>, now: u64) -> TokenMetaV {
    TokenMetaV {
        value: value,
        acquired_at: now,
        credential: m.credential,
        use_count: m.use_count,
        error_count: m.error_count,
        last_used: m.last_used,
        needs_refresh: false,
    }
}

impl TokenMeta {
    fn new(value: String, credential: Credential, now: u64) -> (m: TokenMeta)
        ensures
            m@ == initial_meta(value@, credential@, now),
    {
        TokenMeta {
            value,
            acquired_at: now,
            credential,
            use_count: 0,
            error_count: 0,
            last_used: 0,
            needs_refresh: false,
        }
    }

    fn record_use(&mut self, now: u64)
        ensures
            final(self)@ == meta_after_use(old(self)@, now),
    {
        if self.use_count < u64::MAX {
            self.use_count = self.use_count + 1;
        }
        self.last_used = now;
    }

    fn record_error(&mut self)
        ensures
            final(self)@ == meta_after_error(old(self)@),
    {
        if self.error_count < u64::MAX {
            self.error_count = self.error_count + 1;
        }
    }

    /// Whether the token's age at `now` exceeds `ttl_seconds`.
    pub fn is_expired(&self, ttl_seconds: u64, now: u64) -> (r: bool)
        ensures
            r == is_expired_at(self@.acquired_at, ttl_seconds, now),
    {
        if now <= self.acquired_at {
            false
        } else {
            now - self.acquired_at > ttl_seconds
        }
    }

    /// Marks the token as needing refresh.
    pub fn mark_needs_refresh(&mut self)
        ensures
            final(self)@ == meta_after_mark(old(self)@),
    {
        self.needs_refresh = true;
    }

    /// Whether the token is marked as needing refresh.
    pub fn needs_refresh(&self) -> (r: bool)
        ensures
            r == self@.needs_refresh,
    {
        self.needs_refresh
    }

    /// Replaces the token value after a refresh, restarts its issue time and
    /// clears the refresh flag.
    pub fn update(&mut self, new_value: String, now: u64)
        ensures
            final(self)@ == meta_after_update(old(self)@, new_value@, now),
    {
        self.value = new_value;
        self.acquired_at = now;
        self.needs_refresh = false;
    }

    /// The current token value.
    pub fn get_value(&self) -> (r: String)
        ensures
            r@ == self@.value,
    {
        self.value.clone()
    }
}

/// The sequence of views of a sequence of slot records.
pub open spec fn metas_view(s: Seq<TokenMeta>) -> Seq<TokenMetaV> {
    Seq::new(s.len(), |i: int| s[i]@)
}

/// The mathematical state of a `TokenPool`.
pub struct PoolV {
    /// Slot IDs currently available, in checkout order (front leaves first).
    pub fifo: Seq<usize>,
    /// Per-slot metadata, indexed by slot ID.
    pub slots: Seq<TokenMetaV>,
    /// Count of slots checked out and not yet returned.
    pub in_use: u64,
    /// Advisory count of callers currently blocked on a checkout.
    pub waiting: u64,
    /// The coalescing refresh notification: set by marking, taken by the
    /// refresher.
    pub refresh_pending: bool,
}

impl PoolV {
    /// Well-formedness: the FIFO and the checked-out count partition the
    /// slots, and the FIFO holds valid, pairwise distinct slot IDs.
    pub open spec fn wf(self) -> bool {
        &&& self.slots.len() <= u64::MAX
        &&& self.fifo.len() + self.in_use == self.slots.len()
        &&& (forall|k: int| 0 <= k < self.fifo.len() ==> (#[trigger] self.fifo[k]) < self.slots.len())
        &&& (forall|j: int, k: int|
            #![trigger self.fifo[j], self.fifo[k]]
            0 <= j < self.fifo.len() && 0 <= k < self.fifo.len() && j != k ==> self.fifo[j]
                != self.fifo[k])
    }

    /// The checkout transition: the head of the FIFO leaves, its slot records
    /// a use at `now`, and the checked-out count grows by one.
    pub open spec fn acquire_tr(self, now: u64) -> (PoolV, TokenV)
        recommends
            self.fifo.len() > 0,
            self.wf(),
    {
        let id = self.fifo[0];
        let p = PoolV {
            fifo: self.fifo.drop_first(),
            slots: self.slots.update(id as int, meta_after_use(self.slots[id as int], now)),
            in_use: sat_inc(self.in_use),
            waiting: self.waiting,
            refresh_pending: self.refresh_pending,
        };
        (p, TokenV { value: self.slots[id as int].value, id })
    }

    /// A checkin of `id` takes effect only when `id` is a slot that is
    /// actually checked out; anything else is ignored.
    pub open spec fn release_ok(self, id: usize) -> bool {
        id < self.slots.len() && !self.fifo.contains(id) && self.in_use > 0
    }

    /// The checkin transition: the slot re-enters the FIFO at the back.
    pub open spec fn release_tr(self, id: usize) -> PoolV {
        if self.release_ok(id) {
            PoolV {
                fifo: self.fifo.push(id),
                slots: self.slots,
                in_use: (self.in_use - 1) as u64,
                waiting: self.waiting,
                refresh_pending: self.refresh_pending,
            }
        } else {
            self
        }
    }

    /// The error-recording transition; unknown IDs are ignored.
    pub open spec fn mark_error_tr(self, id: usize) -> PoolV {
        if id < self.slots.len() {
            PoolV {
                fifo: self.fifo,
                slots: self.slots.update(id as int, meta_after_error(self.slots[id as int])),
                in_use: self.in_use,
                waiting: self.waiting,
                refresh_pending: self.refresh_pending,
            }
        } else {
            self
        }
    }

    /// The mark-for-refresh transition: sets the slot's flag and raises the
    /// refresh notification; unknown IDs are ignored.
    pub open spec fn mark_refresh_tr(self, id: usize) -> PoolV {
        if id < self.slots.len() {
            PoolV {
                fifo: self.fifo,
                slots: self.slots.update(id as int, meta_after_mark(self.slots[id as int])),
                in_use: self.in_use,
                waiting: self.waiting,
                refresh_pending: true,
            }
        } else {
            self
        }
    }

    /// The token-update transition: writes a fresh value into the slot at
    /// `now` and clears its refresh flag; unknown IDs are ignored.
    pub open spec fn update_token_tr(self, id: usize, value: Seq<char>, now: u64) -> PoolV {
        if id < self.slots.len() {
            PoolV {
                fifo: self.fifo,
                slots: self.slots.update(
                    id as int,
                    meta_after_update(self.slots[id as int], value, now),
                ),
                in_use: self.in_use,
                waiting: self.waiting,
                refresh_pending: self.refresh_pending,
            }
        } else {
            self
        }
    }

    /// The IDs in `[0, n)` whose slots are marked as needing refresh, in
    /// increasing order.
    pub open spec fn marked_ids_below(self, n: int) -> Seq<usize>
        decreases n,
    {
        if n <= 0 {
            Seq::empty()
        } else if self.slots[n - 1].needs_refresh {
            self.marked_ids_below(n - 1).push((n - 1) as usize)
        } else {
            self.marked_ids_below(n - 1)
        }
    }

    /// All slot IDs marked as needing refresh, in increasing order.
    pub open spec fn marked_ids(self) -> Seq<usize> {
        self.marked_ids_below(self.slots.len() as int)
    }

    /// The IDs in `[0, n)` whose tokens are expired at `now`, in increasing
    /// order.
    pub open spec fn expired_ids_below(self, ttl_seconds: u64, now: u64, n: int) -> Seq<usize>
        decreases n,
    {
        if n <= 0 {
            Seq::empty()
        } else if is_expired_at(self.slots[n - 1].acquired_at, ttl_seconds, now) {
            self.expired_ids_below(ttl_seconds, now, n - 1).push((n - 1) as usize)
        } else {
            self.expired_ids_below(ttl_seconds, now, n - 1)
        }
    }

    /// All slot IDs whose tokens are expired at `now`, in increasing order.
    pub open spec fn expired_ids(self, ttl_seconds: u64, now: u64) -> Seq<usize> {
        self.expired_ids_below(ttl_seconds, now, self.slots.len() as int)
    }
}

/// Token pool with exclusive checkout: a FIFO of available slot IDs plus one
/// metadata record per slot.
pub struct TokenPool {
    fifo: Vec<usize>,
    meta: Vec<TokenMeta>,
    in_use: u64,
    waiting: u64,
    refresh_pending: bool,
}

impl View for TokenPool {
    type V = PoolV;

    closed spec fn view(&self) -> PoolV {
        PoolV {
            fifo: self.fifo@,
            slots: metas_view(self.meta@),
            in_use: self.in_use,
            waiting: self.waiting,
            refresh_pending: self.refresh_pending,
        }
    }
}

impl TokenPool {
    /// Well-formedness of the pool's state.
    pub open spec fn wf(&self) -> bool {
        self@.wf()
    }

    /// Creates a pool with one slot per entry: slot `i` starts with the
    /// `i`-th token value and credential, issued at `now`, and every slot is
    /// available.
    pub fn new(tokens_with_creds: Vec<(String, Credential)>, now: u64) -> (p: TokenPool)
        ensures
            p.wf(),
            p@.slots.len() == tokens_with_creds@.len(),
            p@.fifo.len() == tokens_with_creds@.len(),
            forall|i: int|
                0 <= i < tokens_with_creds@.len() ==> (#[trigger] p@.fifo[i]) == i as usize,
            forall|i: int|
                0 <= i < tokens_with_creds@.len() ==> (#[trigger] p@.slots[i]) == initial_meta(
                    tokens_with_creds@[i].0@,
                    tokens_with_creds@[i].1@,
                    now,
                ),
            p@.in_use == 0,
            p@.waiting == 0,
            !p@.refresh_pending,
    {
        let n = tokens_with_creds.len();
        let mut fifo: Vec<usize> = Vec::new();
        let mut meta: Vec<TokenMeta> = Vec::new();
        let mut i: usize = 0;
        while i < n
            invariant
                i <= n,
                n == tokens_with_creds@.len(),
                fifo@.len() == i,
                meta@.len() == i,
                forall|k: int| 0 <= k < i ==> (#[trigger] fifo@[k]) == k as usize,
                forall|k: int|
                    0 <= k < i ==> (#[trigger] meta@[k])@ == initial_meta(
                        tokens_with_creds@[k].0@,
                        tokens_with_creds@[k].1@,
                        now,
                    ),
            decreases n - i,
        {
            let value = tokens_with_creds[i].0.clone();
            let credential = tokens_with_creds[i].1.clone();
            meta.push(TokenMeta::new(value, credential, now));
            fifo.push(i);
            i = i + 1;
        }
        let p = TokenPool { fifo, meta, in_use: 0, waiting: 0, refresh_pending: false };
        proof {
            assert forall|k: int| 0 <= k < p@.slots.len() implies (#[trigger] p@.slots[k])
                == initial_meta(tokens_with_creds@[k].0@, tokens_with_creds@[k].1@, now) by {
                assert(p@.slots[k] == p.meta@[k]@);
            }
        }
        p
    }

    /// Completes a checkout: hands out the head of the FIFO. The caller
    /// blocks (outside this library) until a slot is available, then this
    /// step runs.
    pub fn acquire(&mut self, now: u64) -> (t: Token)
        requires
            old(self).wf(),
            old(self)@.fifo.len() > 0,
        ensures
            final(self).wf(),
            ({
                let (p, tv) = old(self)@.acquire_tr(now);
                final(self)@ == p && t@ == tv
            }),
    {
        proof {
            assert(old(self)@.fifo[0] < old(self)@.slots.len());
            assert(old(self)@.slots.len() == old(self).meta@.len());
        }
        let total = self.meta.len();
        let id = self.fifo.remove(0);
        proof {
            assert(old(self)@.in_use + 1 <= total);
        }
        self.in_use = self.in_use + 1;
        let m = &mut self.meta[id];
        m.record_use(now);
        let value = self.meta[id].get_value();
        let ghost (p, tv) = old(self)@.acquire_tr(now);
        proof {
            assert(self@.fifo =~= p.fifo);
            assert forall|k: int| 0 <= k < self@.slots.len() implies self@.slots[k] == p.slots[k] by {
                assert(self@.slots[k] == self.meta@[k]@);
                assert(p.slots[k] == if k == id as int {
                    meta_after_use(metas_view(old(self).meta@)[k], now)
                } else {
                    metas_view(old(self).meta@)[k]
                });
            }
            assert(self@.slots =~= p.slots);
            assert(self@ == p);
        }
        Token { value, id }
    }

    /// A checkout attempt that never blocks: hands out the head of the FIFO
    /// when a slot is available and reports `None` otherwise.
    pub fn try_acquire(&mut self, now: u64) -> (r: Option<Token>)
        requires
            old(self).wf(),
        ensures
            final(self).wf(),
            old(self)@.fifo.len() > 0 ==> ({
                let (p, tv) = old(self)@.acquire_tr(now);
                final(self)@ == p && (r matches Some(t) && t@ == tv)
            }),
            old(self)@.fifo.len() == 0 ==> final(self)@ == old(self)@ && (r is None),
    {
        if self.fifo.len() > 0 {
            Some(self.acquire(now))
        } else {
            None
        }
    }

    /// Returns a token to the pool. A token whose slot is unknown or not
    /// checked out leaves the pool unchanged (the caller may log this).
    pub fn release(&mut self, token: Token)
        requires
            old(self).wf(),
        ensures
            final(self).wf(),
            final(self)@ == old(self)@.release_tr(token.id),
    {
        let id = token.id;
        if id < self.meta.len() && !self.fifo_contains(id) && self.in_use > 0 {
            self.in_use = self.in_use - 1;
            self.fifo.push(id);
            proof {
                assert(self@.fifo =~= old(self)@.fifo.push(id));
                assert(self@ == old(self)@.release_tr(id));
            }
        }
    }

    fn fifo_contains(&self, id: usize) -> (r: bool)
        ensures
            r == self@.fifo.contains(id),
    {
        let n = self.fifo.len();
        let mut k: usize = 0;
        while k < n
            invariant
                k <= n,
                n == self.fifo@.len(),
                forall|j: int| 0 <= j < k ==> (#[trigger] self.fifo@[j]) != id,
            decreases n - k,
        {
            if self.fifo[k] == id {
                return true;
            }
            k = k + 1;
        }
        proof {
            assert(!self@.fifo.contains(id));
        }
        false
    }

    /// Records that the holder of `token` observed an error.
    pub fn mark_error(&mut self, token: &Token)
        requires
            old(self).wf(),
        ensures
            final(self).wf(),
            final(self)@ == old(self)@.mark_error_tr(token.id),
    {
        let id = token.id;
        if id < self.meta.len() {
            let m = &mut self.meta[id];
            m.record_error();
            proof {
                assert(self@.slots =~= old(self)@.mark_error_tr(id).slots);
                assert(self@ == old(self)@.mark_error_tr(id));
            }
        }
    }

    /// Marks a slot as needing refresh and raises the refresh notification.
    pub fn mark_needs_refresh(&mut self, token_id: usize)
        requires
            old(self).wf(),
        ensures
            final(self).wf(),
            final(self)@ == old(self)@.mark_refresh_tr(token_id),
    {
        if token_id < self.meta.len() {
            let m = &mut self.meta[token_id];
            m.mark_needs_refresh();
            self.refresh_pending = true;
            proof {
                assert(self@.slots =~= old(self)@.mark_refresh_tr(token_id).slots);
                assert(self@ == old(self)@.mark_refresh_tr(token_id));
            }
        }
    }

    /// Writes a freshly issued value into a slot and clears its refresh
    /// flag; a silent no-op on an unknown ID.
    pub fn update_token(&mut self, token_id: usize, new_value: String, now: u64)
        requires
            old(self).wf(),
        ensures
            final(self).wf(),
            final(self)@ == old(self)@.update_token_tr(token_id, new_value@, now),
    {
        if token_id < self.meta.len() {
            let m = &mut self.meta[token_id];
            m.update(new_value, now);
            proof {
                assert(self@.slots =~= old(self)@.update_token_tr(
                    token_id,
                    new_value@,
                    now,
                ).slots);
                assert(self@ == old(self)@.update_token_tr(token_id, new_value@, now));
            }
        }
    }

    /// The credential a slot was provisioned with, for re-issuing.
    pub fn get_credential(&self, token_id: usize) -> (r: Option<Credential>)
        ensures
            token_id < self@.slots.len() ==> (r matches Some(c) && c@ == self@.slots[token_id as int].credential),
            token_id >= self@.slots.len() ==> r is None,
    {
        if token_id < self.meta.len() {
            proof {
                assert(self@.slots[token_id as int] == self.meta@[token_id as int]@);
            }
            Some(self.meta[token_id].credential.clone())
        } else {
            None
        }
    }

    /// All slot IDs currently marked as needing refresh, in increasing order.
    pub fn get_tokens_needing_refresh(&self) -> (r: Vec<usize>)
        ensures
            r@ == self@.marked_ids(),
    {
        let n = self.meta.len();
        let mut out: Vec<usize> = Vec::new();
        let mut i: usize = 0;
        while i < n
            invariant
                i <= n,
                n == self.meta@.len(),
                n == self@.slots.len(),
                out@ == self@.marked_ids_below(i as int),
            decreases n - i,
        {
            proof {
                assert(self@.slots[i as int] == self.meta@[i as int]@);
            }
            if self.meta[i].needs_refresh() {
                out.push(i);
            }
            i = i + 1;
        }
        out
    }

    /// All slot IDs whose tokens are expired at `now`, in increasing order.
    pub fn get_expired_tokens(&self, ttl_seconds: u64, now: u64) -> (r: Vec<usize>)
        ensures
            r@ == self@.expired_ids(ttl_seconds, now),
    {
        let n = self.meta.len();
        let mut out: Vec<usize> = Vec::new();
        let mut i: usize = 0;
        while i < n
            invariant
                i <= n,
                n == self.meta@.len(),
                n == self@.slots.len(),
                out@ == self@.expired_ids_below(ttl_seconds, now, i as int),
            decreases n - i,
        {
            proof {
                assert(self@.slots[i as int] == self.meta@[i as int]@);
            }
            if self.meta[i].is_expired(ttl_seconds, now) {
                out.push(i);
            }
            i = i + 1;
        }
        out
    }

    /// Takes the coalescing refresh notification: reports whether any mark
    /// arrived since the last take, and lowers the flag.
    pub fn take_refresh_notification(&mut self) -> (r: bool)
        ensures
            r == old(self)@.refresh_pending,
            final(self)@ == (PoolV {
                fifo: old(self)@.fifo,
                slots: old(self)@.slots,
                in_use: old(self)@.in_use,
                waiting: old(self)@.waiting,
                refresh_pending: false,
            }),
    {
        let r = self.refresh_pending;
        self.refresh_pending = false;
        r
    }

    /// Whether a refresh notification is pending.
    pub fn refresh_pending(&self) -> (r: bool)
        ensures
            r == self@.refresh_pending,
    {
        self.refresh_pending
    }

    /// Total number of slots in the pool.
    pub fn total(&self) -> (r: usize)
        ensures
            r == self@.slots.len(),
    {
        self.meta.len()
    }

    /// Number of slots currently checked out.
    pub fn in_use(&self) -> (r: u64)
        ensures
            r == self@.in_use,
    {
        self.in_use
    }

    /// Number of slots currently available.
    pub fn available(&self) -> (r: usize)
        ensures
            r == self@.fifo.len(),
    {
        self.fifo.len()
    }

    /// Advisory count of callers currently blocked on a checkout.
    pub fn waiting(&self) -> (r: u64)
        ensures
            r == self@.waiting,
    {
        self.waiting
    }

    /// Notes that one caller starts blocking on a checkout. The counter is
    /// advisory: it synchronizes nothing.
    pub fn note_waiting_started(&mut self)
        ensures
            final(self)@ == (PoolV {
                fifo: old(self)@.fifo,
                slots: old(self)@.slots,
                in_use: old(self)@.in_use,
                waiting: sat_inc(old(self)@.waiting),
                refresh_pending: old(self)@.refresh_pending,
            }),
    {
        if self.waiting < u64::MAX {
            self.waiting = self.waiting + 1;
        }
    }

    /// Notes that one blocked caller obtained a slot or gave up.
    pub fn note_waiting_finished(&mut self)
        ensures
            final(self)@ == (PoolV {
                fifo: old(self)@.fifo,
                slots: old(self)@.slots,
                in_use: old(self)@.in_use,
                waiting: if old(self)@.waiting > 0 {
                    (old(self)@.waiting - 1) as u64
                } else {
                    0
                },
                refresh_pending: old(self)@.refresh_pending,
            }),
    {
        if self.waiting > 0 {
            self.waiting = self.waiting - 1;
        }
    }

    /// Use, error and last-used statistics of one slot.
    pub fn get_token_stats(&self, id: usize) -> (r: Option<(u64, u64, u64)>)
        ensures
            id < self@.slots.len() ==> (r matches Some(s) && s.0 == self@.slots[id as int].use_count
                && s.1 == self@.slots[id as int].error_count && s.2 == self@.slots[id as int].last_used),
            id >= self@.slots.len() ==> r is None,
    {
        if id < self.meta.len() {
            proof {
                assert(self@.slots[id as int] == self.meta@[id as int]@);
            }
            let m = &self.meta[id];
            Some((m.use_count, m.error_count, m.last_used))
        } else {
            None
        }
    }
}

/// Law: in a well-formed pool the slot count equals the available count plus
/// the checked-out count (`total() == available() + in_use()`).
pub proof fn lemma_counters_balance(p: PoolV)
    requires
        p.wf(),
    ensures
        p.slots.len() == p.fifo.len() + p.in_use,
{
}

/// Law: a checkout hands out the head of the FIFO and that slot leaves the
/// FIFO, so the slot is held exclusively until it is returned.
pub proof fn lemma_acquire_exclusive(p: PoolV, now: u64)
    requires
        p.wf(),
        p.fifo.len() > 0,
    ensures
        ({
            let (q, t) = p.acquire_tr(now);
            &&& q.wf()
            &&& t.id == p.fifo[0]
            &&& !q.fifo.contains(t.id)
        }),
{
    let (q, t) = p.acquire_tr(now);
    assert forall|k: int| 0 <= k < q.fifo.len() implies (#[trigger] q.fifo[k]) != t.id by {
        assert(q.fifo[k] == p.fifo[k + 1]);
    }
    assert(!q.fifo.contains(t.id));
}

/// Law: two consecutive checkouts hand out distinct slots; no slot can be
/// held by two handlers at the same time.
pub proof fn lemma_two_acquires_distinct(p: PoolV, n1: u64, n2: u64)
    requires
        p.wf(),
        p.fifo.len() >= 2,
    ensures
        ({
            let (p1, t1) = p.acquire_tr(n1);
            let (p2, t2) = p1.acquire_tr(n2);
            t1.id != t2.id
        }),
{
    let (p1, t1) = p.acquire_tr(n1);
    assert(p1.fifo[0] == p.fifo[1]);
}

/// Law: returning a slot keeps the pool well-formed.
pub proof fn lemma_release_preserves_wf(p: PoolV, id: usize)
    requires
        p.wf(),
    ensures
        p.release_tr(id).wf(),
{
    if p.release_ok(id) {
        let q = p.release_tr(id);
        assert forall|j: int, k: int|
            #![trigger q.fifo[j], q.fifo[k]]
            0 <= j < q.fifo.len() && 0 <= k < q.fifo.len() && j != k implies q.fifo[j]
            != q.fifo[k] by {
            if j < p.fifo.len() && k < p.fifo.len() {
            } else if j == p.fifo.len() {
                assert(p.fifo[k] != id);
            } else if k == p.fifo.len() {
                assert(p.fifo[j] != id);
            }
        }
    }
}

/// Law: a checkout followed by a checkin of the same slot restores the
/// pool's counters and every slot's token value; only the checked-out slot's
/// use statistics move.
pub proof fn lemma_acquire_release_round_trip(p: PoolV, now: u64)
    requires
        p.wf(),
        p.fifo.len() > 0,
    ensures
        ({
            let (q, t) = p.acquire_tr(now);
            let r = q.release_tr(t.id);
            &&& r.wf()
            &&& r.fifo.len() == p.fifo.len()
            &&& r.in_use == p.in_use
            &&& r.slots.len() == p.slots.len()
            &&& (forall|i: int|
                0 <= i < p.slots.len() ==> (#[trigger] r.slots[i]).value == p.slots[i].value)
            &&& (forall|i: int|
                0 <= i < p.slots.len() && i != t.id ==> (#[trigger] r.slots[i]) == p.slots[i])
        }),
{
    let (q, t) = p.acquire_tr(now);
    lemma_acquire_exclusive(p, now);
    assert(q.release_ok(t.id));
    lemma_release_preserves_wf(q, t.id);
}

/// Law: after a slot's token value is updated and the slot is returned, a
/// checkout that hands out that same slot yields the new value.
pub proof fn lemma_update_release_acquire(p: PoolV, id: usize, v: Seq<char>, n1: u64, n2: u64)
    requires
        p.wf(),
        id < p.slots.len(),
        !p.fifo.contains(id),
        p.in_use > 0,
    ensures
        ({
            let q = p.update_token_tr(id, v, n1).release_tr(id);
            &&& q.wf()
            &&& q.fifo == p.fifo.push(id)
            &&& q.slots[id as int].value == v
            &&& (q.fifo[0] == id ==> q.acquire_tr(n2).1.value == v)
        }),
{
    let p1 = p.update_token_tr(id, v, n1);
    assert(p1.wf());
    assert(p1.release_ok(id));
    lemma_release_preserves_wf(p1, id);
}

/// Law: released slots are handed out again first-in first-out; with an
/// empty FIFO, returning `a` then `b` makes the next two checkouts hand out
/// `a` then `b`.
pub proof fn lemma_release_order(p: PoolV, a: usize, b: usize, n1: u64, n2: u64)
    requires
        p.wf(),
        p.fifo.len() == 0,
        a != b,
        a < p.slots.len(),
        b < p.slots.len(),
    ensures
        ({
            let q = p.release_tr(a).release_tr(b);
            let (q1, t1) = q.acquire_tr(n1);
            let (q2, t2) = q1.acquire_tr(n2);
            t1.id == a && t2.id == b
        }),
{
    assert(p.release_ok(a));
    let p1 = p.release_tr(a);
    assert(p1.fifo == p.fifo.push(a));
    assert(!p1.fifo.contains(b)) by {
        assert forall|k: int| 0 <= k < p1.fifo.len() implies (#[trigger] p1.fifo[k]) != b by {
            assert(p1.fifo[k] == a);
        }
    }
    assert(p1.release_ok(b));
    let q = p1.release_tr(b);
    let (q1, t1) = q.acquire_tr(n1);
    assert(t1.id == a);
    assert(q1.fifo[0] == q.fifo[1]);
    assert(q1.acquire_tr(n2).1.id == b);
}

/// Whether `id` is listed among the first `n` slots' marked IDs: exactly the
/// valid IDs below `n` whose slot is marked.
pub proof fn lemma_marked_below_membership(p: PoolV, n: int, id: usize)
    requires
        0 <= n <= p.slots.len(),
        p.slots.len() <= usize::MAX,
    ensures
        p.marked_ids_below(n).contains(id) <==> (id < n && p.slots[id as int].needs_refresh),
    decreases n,
{
    if n > 0 {
        lemma_marked_below_membership(p, n - 1, id);
        let prev = p.marked_ids_below(n - 1);
        let cur = p.marked_ids_below(n);
        if p.slots[n - 1].needs_refresh {
            assert(cur == prev.push((n - 1) as usize));
            if id == (n - 1) as usize {
                assert(cur[cur.len() - 1] == id);
                assert(cur.contains(id));
            } else {
                if prev.contains(id) {
                    let i = choose|i: int| 0 <= i < prev.len() && prev[i] == id;
                    assert(cur[i] == id);
                    assert(cur.contains(id));
                }
                if cur.contains(id) {
                    let i = choose|i: int| 0 <= i < cur.len() && cur[i] == id;
                    assert(i < prev.len());
                    assert(prev.contains(id));
                }
            }
        } else {
            assert(cur == prev);
        }
    }
}

/// Law: a slot is listed for refresh exactly when its flag is set.
pub proof fn lemma_marked_ids_membership(p: PoolV, id: usize)
    requires
        p.slots.len() <= usize::MAX,
    ensures
        p.marked_ids().contains(id) <==> (id < p.slots.len()
            && p.slots[id as int].needs_refresh),
{
    lemma_marked_below_membership(p, p.slots.len() as int, id);
}

/// Whether `id` is listed among the first `n` slots' expired IDs: exactly
/// the valid IDs below `n` whose token is expired at `now`.
pub proof fn lemma_expired_below_membership(p: PoolV, ttl_seconds: u64, now: u64, n: int, id: usize)
    requires
        0 <= n <= p.slots.len(),
        p.slots.len() <= usize::MAX,
    ensures
        p.expired_ids_below(ttl_seconds, now, n).contains(id) <==> (id < n && is_expired_at(
            p.slots[id as int].acquired_at,
            ttl_seconds,
            now,
        )),
    decreases n,
{
    if n > 0 {
        lemma_expired_below_membership(p, ttl_seconds, now, n - 1, id);
        let prev = p.expired_ids_below(ttl_seconds, now, n - 1);
        let cur = p.expired_ids_below(ttl_seconds, now, n);
        if is_expired_at(p.slots[n - 1].acquired_at, ttl_seconds, now) {
            assert(cur == prev.push((n - 1) as usize));
            if id == (n - 1) as usize {
                assert(cur[cur.len() - 1] == id);
                assert(cur.contains(id));
            } else {
                if prev.contains(id) {
                    let i = choose|i: int| 0 <= i < prev.len() && prev[i] == id;
                    assert(cur[i] == id);
                    assert(cur.contains(id));
                }
                if cur.contains(id) {
                    let i = choose|i: int| 0 <= i < cur.len() && cur[i] == id;
                    assert(i < prev.len());
                    assert(prev.contains(id));
                }
            }
        } else {
            assert(cur == prev);
        }
    }
}

/// Law: a slot is listed as expired exactly when its token's age at `now`
/// exceeds the TTL.
pub proof fn lemma_expired_ids_membership(p: PoolV, ttl_seconds: u64, now: u64, id: usize)
    requires
        p.slots.len() <= usize::MAX,
    ensures
        p.expired_ids(ttl_seconds, now).contains(id) <==> (id < p.slots.len() && is_expired_at(
            p.slots[id as int].acquired_at,
            ttl_seconds,
            now,
        )),
{
    lemma_expired_below_membership(p, ttl_seconds, now, p.slots.len() as int, id);
}

/// Law: marking a slot makes the refresher see it, and a successful refresh
/// writes the new value, restarts the issue time and clears the mark.
pub proof fn lemma_mark_then_update(p: PoolV, id: usize, v: Seq<char>, now: u64)
    requires
        id < p.slots.len(),
        p.slots.len() <= usize::MAX,
    ensures
        ({
            let q = p.mark_refresh_tr(id);
            &&& q.marked_ids().contains(id)
            &&& q.refresh_pending
            &&& ({
                let r = q.update_token_tr(id, v, now);
                &&& !r.slots[id as int].needs_refresh
                &&& r.slots[id as int].value == v
                &&& r.slots[id as int].acquired_at == now
                &&& !r.marked_ids().contains(id)
            })
        }),
{
    let q = p.mark_refresh_tr(id);
    lemma_marked_ids_membership(q, id);
    let r = q.update_token_tr(id, v, now);
    lemma_marked_ids_membership(r, id);
}

proof fn lemma_expired_below_none(p: PoolV, ttl_seconds: u64, now: u64, n: int)
    requires
        0 <= n <= p.slots.len(),
        forall|i: int|
            0 <= i < p.slots.len() ==> !is_expired_at(
                (#[trigger] p.slots[i]).acquired_at,
                ttl_seconds,
                now,
            ),
    ensures
        p.expired_ids_below(ttl_seconds, now, n) == Seq::<usize>::empty(),
    decreases n,
{
    if n > 0 {
        lemma_expired_below_none(p, ttl_seconds, now, n - 1);
    }
}

/// Law: when no token is expired, the refresher's periodic tick finds
/// nothing to do.
pub proof fn lemma_no_expired_no_work(p: PoolV, ttl_seconds: u64, now: u64)
    requires
        forall|i: int|
            0 <= i < p.slots.len() ==> !is_expired_at(
                (#[trigger] p.slots[i]).acquired_at,
                ttl_seconds,
                now,
            ),
    ensures
        p.expired_ids(ttl_seconds, now) == Seq::<usize>::empty(),
{
    lemma_expired_below_none(p, ttl_seconds, now, p.slots.len() as int);
}

proof fn lemma_marked_below_all(p: PoolV, n: int)
    requires
        0 <= n <= p.slots.len(),
        forall|i: int| 0 <= i < p.slots.len() ==> (#[trigger] p.slots[i]).needs_refresh,
    ensures
        p.marked_ids_below(n).len() == n,
    decreases n,
{
    if n > 0 {
        lemma_marked_below_all(p, n - 1);
    }
}

/// Law: when every slot is marked at once, one wake of the refresher lists
/// all of them.
pub proof fn lemma_all_marked_listed(p: PoolV)
    requires
        p.slots.len() <= usize::MAX,
        forall|i: int| 0 <= i < p.slots.len() ==> (#[trigger] p.slots[i]).needs_refresh,
    ensures
        p.marked_ids().len() == p.slots.len(),
        forall|id: usize| id < p.slots.len() ==> #[trigger] p.marked_ids().contains(id),
{
    lemma_marked_below_all(p, p.slots.len() as int);
    assert forall|id: usize| id < p.slots.len() implies #[trigger] p.marked_ids().contains(id) by {
        lemma_marked_ids_membership(p, id);
    }
}

} // verus!
