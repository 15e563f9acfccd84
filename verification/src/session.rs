//! The server's session table: per-counterparty state keyed by identity.

use vstd::prelude::*;
use crate::bytes::clone_string;
use crate::types::ClientSession;

verus! {

/// First index in `s` whose session is keyed by `key`, or `-1`.
pub open spec fn spec_index_of(s: Seq<ClientSession>, key: Seq<char>) -> int
    decreases s.len(),
{
    if s.len() == 0 {
        -1
    } else if s[0].client_pubkey@ == key {
        0
    } else {
        let rest = spec_index_of(s.drop_first(), key);
        if rest == -1 {
            -1
        } else {
            rest + 1
        }
    }
}

/// Whether a session keyed by `key` exists in `s`.
pub open spec fn spec_contains(s: Seq<ClientSession>, key: Seq<char>) -> bool {
    spec_index_of(s, key) != -1
}

/// `spec_index_of` returns either `-1` when no index holds `key`, or the
/// first index that does.
pub proof fn lemma_index_of(s: Seq<ClientSession>, key: Seq<char>)
    ensures
        spec_index_of(s, key) == -1 ==> forall|j: int|
            0 <= j < s.len() ==> (#[trigger] s[j]).client_pubkey@ != key,
        spec_index_of(s, key) != -1 ==> 0 <= spec_index_of(s, key) < s.len()
            && s[spec_index_of(s, key)].client_pubkey@ == key,
    decreases s.len(),
{
    if s.len() > 0 {
        lemma_index_of(s.drop_first(), key);
        if spec_index_of(s, key) == -1 {
            assert forall|j: int| 0 <= j < s.len() implies (#[trigger] s[j]).client_pubkey@
                != key by {
                if j > 0 {
                    assert(s.drop_first()[j - 1] == s[j]);
                }
            }
        }
    }
}

/// If index `i` holds `key` and no earlier index does, `i` is the first.
pub proof fn lemma_index_of_first(s: Seq<ClientSession>, key: Seq<char>, i: int)
    requires
        0 <= i < s.len(),
        s[i].client_pubkey@ == key,
        forall|j: int| 0 <= j < i ==> (#[trigger] s[j]).client_pubkey@ != key,
    ensures
        spec_index_of(s, key) == i,
    decreases s.len(),
{
    if i > 0 {
        assert(forall|j: int|
            0 <= j < s.drop_first().len() ==> #[trigger] s.drop_first()[j] == s[j + 1]);
        lemma_index_of_first(s.drop_first(), key, i - 1);
    }
}

/// Two session sequences with the same keys position by position have the
/// same first index for every key.
pub proof fn lemma_index_of_stable_keys(
    a: Seq<ClientSession>,
    b: Seq<ClientSession>,
    key: Seq<char>,
)
    requires
        a.len() == b.len(),
        forall|j: int|
            0 <= j < a.len() ==> (#[trigger] a[j]).client_pubkey@ == (#[trigger] b[j]).client_pubkey@,
    ensures
        spec_index_of(a, key) == spec_index_of(b, key),
    decreases a.len(),
{
    if a.len() > 0 {
        assert(forall|j: int|
            0 <= j < a.drop_first().len() ==> #[trigger] a.drop_first()[j] == a[j + 1]);
        assert(forall|j: int|
            0 <= j < b.drop_first().len() ==> #[trigger] b.drop_first()[j] == b[j + 1]);
        lemma_index_of_stable_keys(a.drop_first(), b.drop_first(), key);
    }
}

/// The session is considered active at `now`: it has been idle for less
/// than `timeout` (idle time is clamped at zero for future timestamps).
pub open spec fn spec_active(c: ClientSession, now: u64, timeout: u64) -> bool {
    if c.last_activity <= now {
        now - c.last_activity < timeout
    } else {
        0 < timeout
    }
}

/// The sessions of `s` still active at `now`, in their original order.
pub open spec fn spec_sweep(s: Seq<ClientSession>, now: u64, timeout: u64) -> Seq<ClientSession>
    decreases s.len(),
{
    if s.len() == 0 {
        Seq::empty()
    } else if spec_active(s[0], now, timeout) {
        seq![s[0]] + spec_sweep(s.drop_first(), now, timeout)
    } else {
        spec_sweep(s.drop_first(), now, timeout)
    }
}

/// Every session kept by the sweep is active.
pub proof fn lemma_sweep_all_active(s: Seq<ClientSession>, now: u64, timeout: u64)
    ensures
        forall|j: int|
            0 <= j < spec_sweep(s, now, timeout).len() ==> spec_active(
                #[trigger] spec_sweep(s, now, timeout)[j],
                now,
                timeout,
            ),
    decreases s.len(),
{
    if s.len() > 0 {
        lemma_sweep_all_active(s.drop_first(), now, timeout);
        let r = spec_sweep(s, now, timeout);
        let rd = spec_sweep(s.drop_first(), now, timeout);
        assert forall|j: int| 0 <= j < r.len() implies spec_active(
            #[trigger] r[j],
            now,
            timeout,
        ) by {
            if spec_active(s[0], now, timeout) {
                if j > 0 {
                    assert(r[j] == rd[j - 1]);
                }
            } else {
                assert(r[j] == rd[j]);
            }
        }
    }
}

/// A sweep over sessions that are all active keeps every one of them.
pub proof fn lemma_sweep_of_active(s: Seq<ClientSession>, now: u64, timeout: u64)
    requires
        forall|j: int| 0 <= j < s.len() ==> spec_active(#[trigger] s[j], now, timeout),
    ensures
        spec_sweep(s, now, timeout) == s,
    decreases s.len(),
{
    if s.len() == 0 {
        assert(spec_sweep(s, now, timeout) =~= s);
    } else {
        assert(forall|j: int|
            0 <= j < s.drop_first().len() ==> #[trigger] s.drop_first()[j] == s[j + 1]);
        lemma_sweep_of_active(s.drop_first(), now, timeout);
        assert(spec_sweep(s, now, timeout) =~= s);
    }
}

/// The eviction sweep is idempotent: run twice at the same time with no
/// intervening activity, the second run removes nothing.
pub proof fn lemma_sweep_idempotent(s: Seq<ClientSession>, now: u64, timeout: u64)
    ensures
        spec_sweep(spec_sweep(s, now, timeout), now, timeout) == spec_sweep(s, now, timeout),
{
    lemma_sweep_all_active(s, now, timeout);
    lemma_sweep_of_active(spec_sweep(s, now, timeout), now, timeout);
}

/// Every member of the sweep result is a member of the input.
proof fn lemma_sweep_members(s: Seq<ClientSession>, now: u64, timeout: u64)
    ensures
        forall|i: int|
            0 <= i < spec_sweep(s, now, timeout).len() ==> exists|j: int|
                0 <= j < s.len() && s[j] == #[trigger] spec_sweep(s, now, timeout)[i],
    decreases s.len(),
{
    if s.len() > 0 {
        lemma_sweep_members(s.drop_first(), now, timeout);
        assert(forall|j: int|
            0 <= j < s.drop_first().len() ==> #[trigger] s.drop_first()[j] == s[j + 1]);
        assert forall|i: int| 0 <= i < spec_sweep(s, now, timeout).len() implies exists|j: int|
            0 <= j < s.len() && s[j] == #[trigger] spec_sweep(s, now, timeout)[i] by {
            let r = spec_sweep(s, now, timeout);
            let rd = spec_sweep(s.drop_first(), now, timeout);
            if spec_active(s[0], now, timeout) {
                if i == 0 {
                    assert(s[0] == r[i]);
                } else {
                    let j = choose|j: int|
                        0 <= j < s.drop_first().len() && s.drop_first()[j] == rd[i - 1];
                    assert(s[j + 1] == r[i]);
                }
            } else {
                let j = choose|j: int|
                    0 <= j < s.drop_first().len() && s.drop_first()[j] == rd[i];
                assert(s[j + 1] == r[i]);
            }
        }
    }
}

/// The session table: the live sessions, keys unique, owned by the server
/// transport and mutated only through these operations.
pub struct SessionTable {
    sessions: Vec<ClientSession>,
}

impl SessionTable {
    pub closed spec fn view(&self) -> Seq<ClientSession> {
        self.sessions@
    }

    /// Keys are pairwise distinct.
    pub open spec fn wf(&self) -> bool {
        forall|i: int, j: int|
            0 <= i < j < self@.len() ==> (#[trigger] self@[i]).client_pubkey@ != (
            #[trigger] self@[j]).client_pubkey@
    }

    pub fn new() -> (r: Self)
        ensures
            r.wf(),
            r@.len() == 0,
    {
        SessionTable { sessions: Vec::new() }
    }

    pub fn len(&self) -> (r: usize)
        ensures
            r == self@.len(),
    {
        self.sessions.len()
    }

    /// Find the index of the session keyed by `key`, if any.
    fn index_of(&self, key: &str) -> (r: Option<usize>)
        ensures
            r is Some ==> r->0 == spec_index_of(self@, key@) && r->0 < self@.len()
                && self@[r->0 as int].client_pubkey@ == key@,
            r is None ==> spec_index_of(self@, key@) == -1,
    {
        let n = self.sessions.len();
        let mut i: usize = 0;
        while i < n
            invariant
                n == self@.len(),
                0 <= i <= n,
                forall|j: int| 0 <= j < i ==> (#[trigger] self@[j]).client_pubkey@ != key@,
            decreases n - i,
        {
            if crate::bytes::str_eq(self.sessions[i].client_pubkey.as_str(), key) {
                proof {
                    lemma_index_of_first(self@, key@, i as int);
                }
                return Some(i);
            }
            i += 1;
        }
        proof {
            lemma_index_of(self@, key@);
            if spec_index_of(self@, key@) != -1 {
                assert(false);
            }
        }
        None
    }

    /// A copy of the session keyed by `key`, if present.
    pub fn get(&self, key: &str) -> (r: Option<ClientSession>)
        ensures
            r is Some <==> spec_contains(self@, key@),
            r is Some ==> {
                let c = self@[spec_index_of(self@, key@)];
                r->0.client_pubkey@ == c.client_pubkey@ && r->0.is_initialized == c.is_initialized
                    && r->0.is_encrypted == c.is_encrypted && r->0.last_activity == c.last_activity
            },
    {
        match self.index_of(key) {
            Some(i) => {
                let c = &self.sessions[i];
                Some(
                    ClientSession {
                        client_pubkey: clone_string(&c.client_pubkey),
                        is_initialized: c.is_initialized,
                        is_encrypted: c.is_encrypted,
                        last_activity: c.last_activity,
                    },
                )
            },
            None => None,
        }
    }

    /// Get-or-create at an inbound message.  An existing session keyed by
    /// `key` gets its activity refreshed and nothing else changed; an
    /// unseen key is appended as a fresh, uninitialized session whose
    /// encryption flag is the state observed on this first message.
    /// Returns true exactly when the session was created.
    pub fn touch(&mut self, key: &str, is_encrypted: bool, now: u64) -> (created: bool)
        requires
            old(self).wf(),
        ensures
            final(self).wf(),
            created == !spec_contains(old(self)@, key@),
            spec_contains(final(self)@, key@),
            created ==> final(self)@.len() == old(self)@.len() + 1 && (forall|j: int|
                0 <= j < old(self)@.len() ==> #[trigger] final(self)@[j] == old(self)@[j]) && {
                let c = final(self)@.last();
                c.client_pubkey@ == key@ && !c.is_initialized && c.is_encrypted == is_encrypted
                    && c.last_activity == now
            },
            !created ==> final(self)@.len() == old(self)@.len() && {
                let i = spec_index_of(old(self)@, key@);
                (forall|j: int|
                    0 <= j < old(self)@.len() && j != i ==> #[trigger] final(self)@[j] == old(
                        self,
                    )@[j]) && {
                    let c0 = old(self)@[i];
                    let c1 = final(self)@[i];
                    c1.client_pubkey@ == c0.client_pubkey@ && c1.is_initialized
                        == c0.is_initialized && c1.is_encrypted == c0.is_encrypted
                        && c1.last_activity == now
                }
            },
    {
        let ghost before = self@;
        match self.index_of(key) {
            Some(i) => {
                let s = &mut self.sessions[i];
                s.update_activity(now);
                proof {
                    assert(forall|j: int|
                        0 <= j < before.len() && j != i ==> #[trigger] self@[j] == before[j]);
                    assert(forall|j: int|
                        0 <= j < before.len() ==> (#[trigger] self@[j]).client_pubkey@
                            == before[j].client_pubkey@);
                    lemma_index_of_stable_keys(before, self@, key@);
                }
                false
            },
            None => {
                proof {
                    lemma_index_of(before, key@);
                }
                let c = ClientSession::new(key.to_owned(), is_encrypted, now);
                self.sessions.push(c);
                proof {
                    lemma_index_of(self@, key@);
                    if spec_index_of(self@, key@) == -1 {
                        assert(self@[self@.len() - 1].client_pubkey@ == key@);
                        assert(false);
                    }
                }
                true
            },
        }
    }

    /// Mark the session keyed by `key` initialized; true when it existed.
    pub fn mark_initialized(&mut self, key: &str) -> (r: bool)
        requires
            old(self).wf(),
        ensures
            final(self).wf(),
            r == spec_contains(old(self)@, key@),
            !r ==> final(self)@ == old(self)@,
            r ==> final(self)@.len() == old(self)@.len() && {
                let i = spec_index_of(old(self)@, key@);
                (forall|j: int|
                    0 <= j < old(self)@.len() && j != i ==> #[trigger] final(self)@[j] == old(
                        self,
                    )@[j]) && {
                    let c0 = old(self)@[i];
                    let c1 = final(self)@[i];
                    c1.client_pubkey@ == c0.client_pubkey@ && c1.is_initialized
                        && c1.is_encrypted == c0.is_encrypted && c1.last_activity
                        == c0.last_activity
                }
            },
    {
        let ghost before = self@;
        match self.index_of(key) {
            Some(i) => {
                let s = &mut self.sessions[i];
                s.mark_initialized();
                proof {
                    assert(forall|j: int|
                        0 <= j < before.len() && j != i ==> #[trigger] self@[j] == before[j]);
                    assert(forall|j: int|
                        0 <= j < before.len() ==> (#[trigger] self@[j]).client_pubkey@
                            == before[j].client_pubkey@);
                    lemma_index_of_stable_keys(before, self@, key@);
                }
                true
            },
            None => {
                proof {
                    lemma_index_of(before, key@);
                }
                false
            },
        }
    }

    /// Evict every session idle for `timeout` or longer at time `now`.
    /// What remains is exactly the sequence of still-active sessions.
    pub fn sweep(&mut self, now: u64, timeout: u64)
        requires
            old(self).wf(),
        ensures
            final(self).wf(),
            final(self)@ == spec_sweep(old(self)@, now, timeout),
    {
        let ghost before = self@;
        let n = self.sessions.len();
        let mut i: usize = n;
        while i > 0
            invariant
                0 <= i <= n,
                n == before.len(),
                i <= self.sessions@.len(),
                self.sessions@ =~= before.subrange(0, i as int) + spec_sweep(
                    before.subrange(i as int, n as int),
                    now,
                    timeout,
                ),
            decreases i,
        {
            let ghost seq_now = self.sessions@;
            i -= 1;
            let keep = {
                let s = &self.sessions[i];
                if s.last_activity <= now {
                    now - s.last_activity < timeout
                } else {
                    0 < timeout
                }
            };
            proof {
                assert(seq_now[i as int] == before[i as int]);
                let tail = before.subrange(i as int, n as int);
                assert(tail[0] == before[i as int]);
                assert(tail.drop_first() =~= before.subrange(i + 1, n as int));
            }
            if !keep {
                self.sessions.remove(i);
                proof {
                    assert(self.sessions@ =~= before.subrange(0, i as int) + spec_sweep(
                        before.subrange(i as int, n as int),
                        now,
                        timeout,
                    ));
                }
            } else {
                proof {
                    assert(self.sessions@ =~= before.subrange(0, i as int) + spec_sweep(
                        before.subrange(i as int, n as int),
                        now,
                        timeout,
                    ));
                }
            }
        }
        proof {
            assert(before.subrange(0, n as int) =~= before);
            assert(self.sessions@ =~= spec_sweep(before, now, timeout));
            lemma_sweep_members(before, now, timeout);
            assert forall|a: int, b: int|
                0 <= a < b < self.sessions@.len() implies (#[trigger] self.sessions@[a]).client_pubkey@
                != (#[trigger] self.sessions@[b]).client_pubkey@ by {
                let r = spec_sweep(before, now, timeout);
                lemma_sweep_unique_keys(before, now, timeout);
            }
        }
    }
}

/// Keys stay pairwise distinct across a sweep.
proof fn lemma_sweep_unique_keys(s: Seq<ClientSession>, now: u64, timeout: u64)
    requires
        forall|i: int, j: int|
            0 <= i < j < s.len() ==> (#[trigger] s[i]).client_pubkey@ != (
            #[trigger] s[j]).client_pubkey@,
    ensures
        forall|i: int, j: int|
            0 <= i < j < spec_sweep(s, now, timeout).len() ==> (#[trigger] spec_sweep(
                s,
                now,
                timeout,
            )[i]).client_pubkey@ != (#[trigger] spec_sweep(s, now, timeout)[j]).client_pubkey@,
    decreases s.len(),
{
    if s.len() > 0 {
        assert(forall|j: int|
            0 <= j < s.drop_first().len() ==> #[trigger] s.drop_first()[j] == s[j + 1]);
        lemma_sweep_unique_keys(s.drop_first(), now, timeout);
        lemma_sweep_members(s.drop_first(), now, timeout);
        let r = spec_sweep(s, now, timeout);
        let rd = spec_sweep(s.drop_first(), now, timeout);
        if spec_active(s[0], now, timeout) {
            assert forall|i: int, j: int| 0 <= i < j < r.len() implies (
            #[trigger] r[i]).client_pubkey@ != (#[trigger] r[j]).client_pubkey@ by {
                if i == 0 {
                    let k = choose|k: int|
                        0 <= k < s.drop_first().len() && s.drop_first()[k] == rd[j - 1];
                    assert(s[k + 1] == r[j]);
                    assert(s[0].client_pubkey@ != s[k + 1].client_pubkey@);
                } else {
                    assert(rd[i - 1] == r[i] && rd[j - 1] == r[j]);
                }
            }
        }
    }
}


} // verus!
