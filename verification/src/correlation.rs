//! The client's correlation table: one single-use fulfillment slot per
//! in-flight request, keyed by the identifier of the inner signed request.

use vstd::prelude::*;

verus! {

/// One in-flight request: its correlation identifier and its single-use
/// fulfillment slot.  The slot is empty until the first matching reply
/// arrives; it is consumed (the whole entry removed) by the awaiting
/// caller or by its timeout, whichever comes first.
pub struct PendingRequest {
    /// Identifier of the inner signed request message.
    pub request_id: String,
    /// The decoded reply payload, once the first matching reply arrived.
    pub reply: Option<String>,
}

/// First index in `s` whose entry is keyed by `id`, or `-1`.
pub open spec fn spec_index_of(s: Seq<PendingRequest>, id: Seq<char>) -> int
    decreases s.len(),
{
    if s.len() == 0 {
        -1
    } else if s[0].request_id@ == id {
        0
    } else {
        let rest = spec_index_of(s.drop_first(), id);
        if rest == -1 {
            -1
        } else {
            rest + 1
        }
    }
}

/// Whether an entry keyed by `id` exists in `s`.
pub open spec fn spec_contains(s: Seq<PendingRequest>, id: Seq<char>) -> bool {
    spec_index_of(s, id) != -1
}

/// `spec_index_of` returns either `-1` when no index holds `id`, or the
/// first index that does.
pub proof fn lemma_index_of(s: Seq<PendingRequest>, id: Seq<char>)
    ensures
        spec_index_of(s, id) == -1 ==> forall|j: int|
            0 <= j < s.len() ==> (#[trigger] s[j]).request_id@ != id,
        spec_index_of(s, id) != -1 ==> 0 <= spec_index_of(s, id) < s.len()
            && s[spec_index_of(s, id)].request_id@ == id,
    decreases s.len(),
{
    if s.len() > 0 {
        lemma_index_of(s.drop_first(), id);
        if spec_index_of(s, id) == -1 {
            assert forall|j: int| 0 <= j < s.len() implies (#[trigger] s[j]).request_id@ != id by {
                if j > 0 {
                    assert(s.drop_first()[j - 1] == s[j]);
                }
            }
        }
    }
}

/// If index `i` holds `id` and no earlier index does, `i` is the first.
pub proof fn lemma_index_of_first(s: Seq<PendingRequest>, id: Seq<char>, i: int)
    requires
        0 <= i < s.len(),
        s[i].request_id@ == id,
        forall|j: int| 0 <= j < i ==> (#[trigger] s[j]).request_id@ != id,
    ensures
        spec_index_of(s, id) == i,
    decreases s.len(),
{
    if i > 0 {
        assert(forall|j: int|
            0 <= j < s.drop_first().len() ==> #[trigger] s.drop_first()[j] == s[j + 1]);
        lemma_index_of_first(s.drop_first(), id, i - 1);
    }
}

/// Two entry sequences with the same keys position by position have the
/// same first index for every key.
pub proof fn lemma_index_of_stable_keys(
    a: Seq<PendingRequest>,
    b: Seq<PendingRequest>,
    id: Seq<char>,
)
    requires
        a.len() == b.len(),
        forall|j: int|
            0 <= j < a.len() ==> (#[trigger] a[j]).request_id@ == (#[trigger] b[j]).request_id@,
    ensures
        spec_index_of(a, id) == spec_index_of(b, id),
    decreases a.len(),
{
    if a.len() > 0 {
        assert(forall|j: int|
            0 <= j < a.drop_first().len() ==> #[trigger] a.drop_first()[j] == a[j + 1]);
        assert(forall|j: int|
            0 <= j < b.drop_first().len() ==> #[trigger] b.drop_first()[j] == b[j + 1]);
        lemma_index_of_stable_keys(a.drop_first(), b.drop_first(), id);
    }
}

/// The correlation table.  Shared between the single background drain task
/// and arbitrarily many callers; each in-flight request owns exactly one
/// entry, so concurrent requests never interfere (every operation below
/// touches only the entry with the given identifier and leaves every other
/// entry unchanged — that is the no-cross-delivery guarantee).
pub struct CorrelationTable {
    entries: Vec<PendingRequest>,
}

impl CorrelationTable {
    pub closed spec fn view(&self) -> Seq<PendingRequest> {
        self.entries@
    }

    /// Keys are pairwise distinct.
    pub open spec fn wf(&self) -> bool {
        forall|i: int, j: int|
            0 <= i < j < self@.len() ==> (#[trigger] self@[i]).request_id@ != (
            #[trigger] self@[j]).request_id@
    }

    pub fn new() -> (r: Self)
        ensures
            r.wf(),
            r@.len() == 0,
    {
        CorrelationTable { entries: Vec::new() }
    }

    pub fn len(&self) -> (r: usize)
        ensures
            r == self@.len(),
    {
        self.entries.len()
    }

    pub fn contains(&self, id: &str) -> (r: bool)
        ensures
            r == spec_contains(self@, id@),
    {
        self.index_of(id).is_some()
    }

    /// Find the index of the entry keyed by `id`, if any.
    fn index_of(&self, id: &str) -> (r: Option<usize>)
        ensures
            r is Some ==> r->0 == spec_index_of(self@, id@) && r->0 < self@.len()
                && self@[r->0 as int].request_id@ == id@,
            r is None ==> spec_index_of(self@, id@) == -1,
    {
        let n = self.entries.len();
        let mut i: usize = 0;
        while i < n
            invariant
                n == self@.len(),
                0 <= i <= n,
                forall|j: int| 0 <= j < i ==> (#[trigger] self@[j]).request_id@ != id@,
            decreases n - i,
        {
            if crate::bytes::str_eq(self.entries[i].request_id.as_str(), id) {
                proof {
                    lemma_index_of_first(self@, id@, i as int);
                }
                return Some(i);
            }
            i += 1;
        }
        proof {
            lemma_index_of(self@, id@);
            if spec_index_of(self@, id@) != -1 {
                assert(false);
            }
        }
        None
    }

    /// Register a fresh in-flight request under `id`, with an empty slot.
    /// Registration happens before the request is transmitted, so no reply
    /// can be missed by a register-after-send race.  Returns false (and
    /// changes nothing) if `id` is already registered.
    pub fn register(&mut self, id: &str) -> (r: bool)
        requires
            old(self).wf(),
        ensures
            final(self).wf(),
            r == !spec_contains(old(self)@, id@),
            !r ==> final(self)@ == old(self)@,
            r ==> final(self)@.len() == old(self)@.len() + 1 && (forall|j: int|
                0 <= j < old(self)@.len() ==> #[trigger] final(self)@[j] == old(self)@[j])
                && final(self)@.last().request_id@ == id@ && final(self)@.last().reply is None,
            spec_contains(final(self)@, id@),
    {
        let ghost before = self@;
        match self.index_of(id) {
            Some(_) => false,
            None => {
                proof {
                    lemma_index_of(before, id@);
                }
                self.entries.push(PendingRequest { request_id: id.to_owned(), reply: None });
                proof {
                    lemma_index_of(self@, id@);
                    if spec_index_of(self@, id@) == -1 {
                        assert(self@[self@.len() - 1].request_id@ == id@);
                        assert(false);
                    }
                }
                true
            },
        }
    }

    /// Deliver an inbound reply to the entry keyed by `id`.  The first
    /// matching reply fills the slot; a reply for an unknown identifier
    /// (unsolicited, or already timed out) or for an already-filled slot
    /// is reported false and discarded.  Every other entry is untouched.
    pub fn fulfill(&mut self, id: &str, reply: String) -> (r: bool)
        requires
            old(self).wf(),
        ensures
            final(self).wf(),
            r == (spec_contains(old(self)@, id@) && old(self)@[spec_index_of(old(self)@, id@)].reply
                is None),
            !r ==> final(self)@ == old(self)@,
            r ==> final(self)@.len() == old(self)@.len() && {
                let i = spec_index_of(old(self)@, id@);
                (forall|j: int|
                    0 <= j < old(self)@.len() && j != i ==> #[trigger] final(self)@[j] == old(
                        self,
                    )@[j]) && final(self)@[i].request_id@ == id@ && final(self)@[i].reply == Some(
                    reply,
                )
            },
    {
        let ghost before = self@;
        match self.index_of(id) {
            Some(i) => {
                if self.entries[i].reply.is_some() {
                    return false;
                }
                let e = &mut self.entries[i];
                e.reply = Some(reply);
                proof {
                    assert(forall|j: int|
                        0 <= j < before.len() && j != i ==> #[trigger] self@[j] == before[j]);
                    assert(forall|j: int|
                        0 <= j < before.len() ==> (#[trigger] self@[j]).request_id@
                            == before[j].request_id@);
                }
                true
            },
            None => false,
        }
    }

    /// Take the filled reply for `id`, removing the whole entry; `None`
    /// while the slot is still empty (the entry then stays registered).
    pub fn take_reply(&mut self, id: &str) -> (r: Option<String>)
        requires
            old(self).wf(),
        ensures
            final(self).wf(),
            r is Some <==> spec_contains(old(self)@, id@) && old(self)@[spec_index_of(
                old(self)@,
                id@,
            )].reply is Some,
            r is Some ==> r == old(self)@[spec_index_of(old(self)@, id@)].reply && final(self)@
                == old(self)@.remove(spec_index_of(old(self)@, id@)) && !spec_contains(
                final(self)@,
                id@,
            ),
            r is None ==> final(self)@ == old(self)@,
    {
        let ghost before = self@;
        match self.index_of(id) {
            Some(i) => {
                if self.entries[i].reply.is_none() {
                    return None;
                }
                let e = self.entries.remove(i);
                proof {
                    lemma_remove_unique_keys(before, i as int);
                    lemma_removed_key_gone(before, i as int, id@);
                }
                e.reply
            },
            None => None,
        }
    }

    /// Drop the entry keyed by `id`, fulfilled or not: the cancellation
    /// path of a timed-out or abandoned request.  A reply that arrives
    /// afterwards finds no entry and is discarded.  Returns whether an
    /// entry existed.
    pub fn cancel(&mut self, id: &str) -> (r: bool)
        requires
            old(self).wf(),
        ensures
            final(self).wf(),
            r == spec_contains(old(self)@, id@),
            !spec_contains(final(self)@, id@),
            r ==> final(self)@ == old(self)@.remove(spec_index_of(old(self)@, id@)),
            !r ==> final(self)@ == old(self)@,
    {
        let ghost before = self@;
        match self.index_of(id) {
            Some(i) => {
                self.entries.remove(i);
                proof {
                    lemma_remove_unique_keys(before, i as int);
                    lemma_removed_key_gone(before, i as int, id@);
                }
                true
            },
            None => {
                proof {
                    lemma_index_of(before, id@);
                }
                false
            },
        }
    }
}

/// Removing an entry keeps the remaining keys pairwise distinct.
proof fn lemma_remove_unique_keys(s: Seq<PendingRequest>, i: int)
    requires
        0 <= i < s.len(),
        forall|a: int, b: int|
            0 <= a < b < s.len() ==> (#[trigger] s[a]).request_id@ != (#[trigger] s[b]).request_id@,
    ensures
        forall|a: int, b: int|
            0 <= a < b < s.remove(i).len() ==> (#[trigger] s.remove(i)[a]).request_id@ != (
            #[trigger] s.remove(i)[b]).request_id@,
{
    let r = s.remove(i);
    assert forall|a: int, b: int| 0 <= a < b < r.len() implies (#[trigger] r[a]).request_id@ != (
    #[trigger] r[b]).request_id@ by {
        let a0 = if a < i {
            a
        } else {
            a + 1
        };
        let b0 = if b < i {
            b
        } else {
            b + 1
        };
        assert(r[a] == s[a0] && r[b] == s[b0]);
    }
}

/// After removing the only entry keyed by `id`, no entry holds `id`.
proof fn lemma_removed_key_gone(s: Seq<PendingRequest>, i: int, id: Seq<char>)
    requires
        0 <= i < s.len(),
        s[i].request_id@ == id,
        forall|a: int, b: int|
            0 <= a < b < s.len() ==> (#[trigger] s[a]).request_id@ != (#[trigger] s[b]).request_id@,
    ensures
        !spec_contains(s.remove(i), id),
{
    let r = s.remove(i);
    assert forall|j: int| 0 <= j < r.len() implies (#[trigger] r[j]).request_id@ != id by {
        let j0 = if j < i {
            j
        } else {
            j + 1
        };
        assert(r[j] == s[j0]);
        if j0 < i {
            assert(s[j0].request_id@ != s[i].request_id@);
        } else {
            assert(s[i].request_id@ != s[j0].request_id@);
        }
    }
    lemma_index_of(r, id);
    if spec_index_of(r, id) != -1 {
        assert(false);
    }
}

} // verus!
