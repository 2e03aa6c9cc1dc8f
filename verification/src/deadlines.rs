//! An ordered queue of deadlines.
//!
//! A deadline is a point in time, held as a number of nanoseconds relative to
//! a reference instant that its owner chooses, paired with the id of the
//! handle it belongs to. The queue keeps its deadlines ordered by time, then
//! by id, and hands out the expired ones in that order.

use vstd::prelude::*;

verus! {

broadcast use {vstd::seq_lib::group_to_multiset_ensures, vstd::multiset::group_multiset_axioms};

/// A deadline: a point in time and the id it belongs to.
#[derive(Copy, Clone, PartialEq, Eq, Structural, Debug)]
pub struct Deadline {
    /// Nanoseconds relative to the owner's reference instant.
    pub deadline: i128,
    /// The id the deadline belongs to.
    pub id: usize,
}

/// Deadline `a` comes no later than `b`: ordered by time, then by id.
pub open spec fn deadline_le(a: Deadline, b: Deadline) -> bool {
    a.deadline < b.deadline || (a.deadline == b.deadline && a.id <= b.id)
}

/// The deadlines of `s` are in order.
pub open spec fn sorted(s: Seq<Deadline>) -> bool {
    forall|i: int, j: int| 0 <= i < j < s.len() ==> deadline_le(#[trigger] s[i], #[trigger] s[j])
}

/// `after` holds the deadlines of `before` and the deadline at `deadline`
/// with the id `id`, in order.
pub open spec fn deadline_added(before: Seq<Deadline>, after: Seq<Deadline>, deadline: int, id: usize) -> bool {
    &&& sorted(after)
    &&& after.to_multiset() == before.to_multiset().insert(Deadline { deadline: deadline as i128, id })
}

/// The number of deadlines at the front of `s` that have expired at `now`.
pub open spec fn count_expired(s: Seq<Deadline>, now: int) -> nat
    decreases s.len(),
{
    if s.len() == 0 || s[0].deadline > now {
        0
    } else {
        1 + count_expired(s.skip(1), now)
    }
}

/// The index of the first deadline of `s` with the id `id`, where there is one.
pub open spec fn first_with_id(s: Seq<Deadline>, id: usize) -> Option<int>
    decreases s.len(),
{
    if s.len() == 0 {
        None
    } else if s[0].id == id {
        Some(0)
    } else {
        match first_with_id(s.skip(1), id) {
            Some(i) => Some(i + 1),
            None => None,
        }
    }
}

/// `count_expired` counts the expired deadlines at the front, and no more.
pub proof fn lemma_count_expired(s: Seq<Deadline>, now: int)
    ensures
        count_expired(s, now) <= s.len(),
        forall|i: int| 0 <= i < count_expired(s, now) ==> #[trigger] s[i].deadline <= now,
        count_expired(s, now) < s.len() ==> s[count_expired(s, now) as int].deadline > now,
    decreases s.len(),
{
    if s.len() != 0 && s[0].deadline <= now {
        lemma_count_expired(s.skip(1), now);
        assert forall|i: int| 0 <= i < count_expired(s, now) implies #[trigger] s[i].deadline <= now by {
            if i > 0 {
                assert(s[i] == s.skip(1)[i - 1]);
            }
        }
    }
}

/// In a sorted sequence every deadline after the expired ones has not
/// expired either.
pub proof fn lemma_sorted_expired(s: Seq<Deadline>, now: int)
    requires
        sorted(s),
    ensures
        forall|i: int| count_expired(s, now) <= i < s.len() ==> #[trigger] s[i].deadline > now,
{
    lemma_count_expired(s, now);
    let k = count_expired(s, now) as int;
    assert forall|i: int| k <= i < s.len() implies #[trigger] s[i].deadline > now by {
        if k < i {
            assert(deadline_le(s[k], s[i]));
        }
    }
}

/// `first_with_id` finds the first deadline with the id, where there is one.
pub proof fn lemma_first_with_id(s: Seq<Deadline>, id: usize)
    ensures
        first_with_id(s, id) matches Some(i) ==> 0 <= i < s.len() && s[i].id == id && forall|j: int|
            0 <= j < i ==> #[trigger] s[j].id != id,
        first_with_id(s, id) is None ==> forall|j: int| 0 <= j < s.len() ==> #[trigger] s[j].id != id,
    decreases s.len(),
{
    if s.len() != 0 && s[0].id != id {
        let t = s.skip(1);
        lemma_first_with_id(t, id);
        match first_with_id(t, id) {
            Some(k) => {
                assert(first_with_id(s, id) == Some(k + 1));
                assert(s[k + 1] == t[k]);
                assert forall|j: int| 0 <= j < k + 1 implies #[trigger] s[j].id != id by {
                    if j > 0 {
                        assert(s[j] == t[j - 1]);
                    }
                }
            },
            None => {
                assert(first_with_id(s, id) is None);
                assert forall|j: int| 0 <= j < s.len() implies #[trigger] s[j].id != id by {
                    if j > 0 {
                        assert(s[j] == t[j - 1]);
                    }
                }
            },
        }
    }
}

/// A queue of deadlines, kept in order: by time, then by id.
#[derive(Debug)]
pub struct DeadlineQueue {
    entries: Vec<Deadline>,
}

impl DeadlineQueue {
    /// The deadlines in the queue, in order.
    pub closed spec fn pending(&self) -> Seq<Deadline> {
        self.entries@
    }

    /// The deadlines are kept in order.
    #[verifier::type_invariant]
    closed spec fn wf(self) -> bool {
        sorted(self.entries@)
    }

    /// Creates an empty queue.
    pub fn new() -> (q: DeadlineQueue)
        ensures
            q.pending() == Seq::<Deadline>::empty(),
    {
        DeadlineQueue { entries: Vec::new() }
    }

    /// The number of deadlines in the queue.
    pub fn len(&self) -> (n: usize)
        ensures
            n == self.pending().len(),
    {
        self.entries.len()
    }

    /// The earliest deadline, where there is one.
    pub fn first(&self) -> (d: Option<Deadline>)
        ensures
            self.pending().len() == 0 ==> d is None,
            self.pending().len() > 0 ==> d == Some(self.pending()[0]),
    {
        if self.entries.len() == 0 {
            None
        } else {
            Some(self.entries[0])
        }
    }

    /// Adds a deadline, at its place in the order.
    pub fn add(&mut self, deadline: Deadline)
        ensures
            sorted(final(self).pending()),
            final(self).pending().to_multiset() == old(self).pending().to_multiset().insert(deadline),
            final(self).pending().len() == old(self).pending().len() + 1,
    {
        proof {
            use_type_invariant(&*self);
        }
        let mut pos: usize = self.entries.len();
        while pos > 0 && !deadline_le_exec(&self.entries[pos - 1], &deadline)
            invariant
                pos <= self.entries.len(),
                sorted(self.entries@),
                forall|j: int| pos <= j < self.entries.len() ==> !deadline_le(#[trigger] self.entries@[j], deadline),
            decreases pos,
        {
            pos = pos - 1;
        }
        let ghost old_entries = self.entries@;
        let mut entries: Vec<Deadline> = Vec::new();
        core::mem::swap(&mut self.entries, &mut entries);
        entries.insert(pos, deadline);
        proof {
            let s = entries@;
            assert(s == old_entries.insert(pos as int, deadline));
            assert forall|i: int, j: int| 0 <= i < j < s.len() implies deadline_le(#[trigger] s[i], #[trigger] s[j]) by {
                if j < pos {
                } else if j == pos {
                    if i < pos {
                        assert(pos > 0);
                        assert(deadline_le(old_entries[pos - 1], deadline));
                        if i < pos - 1 {
                            assert(deadline_le(old_entries[i], old_entries[pos - 1]));
                        }
                    }
                } else if i < pos {
                    assert(s[j] == old_entries[j - 1]);
                } else if i == pos {
                    assert(s[j] == old_entries[j - 1]);
                    assert(!deadline_le(old_entries[j - 1], deadline));
                } else {
                    assert(s[j] == old_entries[j - 1]);
                    assert(s[i] == old_entries[i - 1]);
                }
            }
            vstd::seq_lib::to_multiset_insert(old_entries, pos as int, deadline);
        }
        self.entries = entries;
    }

    /// Removes the first deadline with the id `id`, where there is one.
    pub fn remove_id(&mut self, id: usize)
        ensures
            sorted(final(self).pending()),
            first_with_id(old(self).pending(), id) matches Some(i) ==> final(self).pending()
                == old(self).pending().remove(i),
            first_with_id(old(self).pending(), id) is None ==> final(self).pending() == old(self).pending(),
    {
        proof {
            use_type_invariant(&*self);
            lemma_first_with_id(self.entries@, id);
        }
        let mut i: usize = 0;
        while i < self.entries.len() && self.entries[i].id != id
            invariant
                i <= self.entries.len(),
                forall|j: int| 0 <= j < i ==> #[trigger] self.entries@[j].id != id,
            decreases self.entries.len() - i,
        {
            i = i + 1;
        }
        if i < self.entries.len() {
            let ghost old_entries = self.entries@;
            let mut entries: Vec<Deadline> = Vec::new();
        core::mem::swap(&mut self.entries, &mut entries);
            let _removed = entries.remove(i);
            proof {
                let s = entries@;
                assert(s == old_entries.remove(i as int));
                assert forall|a: int, b: int| 0 <= a < b < s.len() implies deadline_le(#[trigger] s[a], #[trigger] s[b]) by {
                    let oa = if a < i { a } else { a + 1 };
                    let ob = if b < i { b } else { b + 1 };
                    assert(s[a] == old_entries[oa]);
                    assert(s[b] == old_entries[ob]);
                }
            }
            self.entries = entries;
        }
    }

    /// Takes the deadlines that have expired at `now` from the front of the
    /// queue, at most `max` of them, and returns them in order.
    pub fn pop_expired(&mut self, now: i128, max: usize) -> (expired: Vec<Deadline>)
        ensures
            sorted(old(self).pending()),
            ({
                let k = if count_expired(old(self).pending(), now as int) <= max {
                    count_expired(old(self).pending(), now as int)
                } else {
                    max as nat
                };
                &&& expired@ == old(self).pending().take(k as int)
                &&& final(self).pending() == old(self).pending().skip(k as int)
            }),
            sorted(final(self).pending()),
    {
        proof {
            use_type_invariant(&*self);
            lemma_count_expired(self.entries@, now as int);
        }
        let ghost old_entries = self.entries@;
        let mut k: usize = 0;
        while k < max && k < self.entries.len() && self.entries[k].deadline <= now
            invariant
                k <= max,
                k <= self.entries.len(),
                self.entries@ == old_entries,
                k <= count_expired(old_entries, now as int),
                forall|i: int| 0 <= i < k ==> #[trigger] old_entries[i].deadline <= now,
            decreases self.entries.len() - k,
        {
            proof {
                lemma_count_expired_at_least(old_entries, now as int, (k + 1) as nat);
            }
            k = k + 1;
        }
        proof {
            lemma_count_expired_exact(old_entries, now as int, k as nat, max as nat);
        }
        let mut expired: Vec<Deadline> = Vec::new();
        core::mem::swap(&mut self.entries, &mut expired);
        let rest = expired.split_off(k);
        proof {
            assert(rest@ == old_entries.skip(k as int));
            assert forall|a: int, b: int| 0 <= a < b < rest@.len() implies deadline_le(
                #[trigger] rest@[a],
                #[trigger] rest@[b],
            ) by {
                assert(rest@[a] == old_entries[a + k]);
                assert(rest@[b] == old_entries[b + k]);
            }
        }
        self.entries = rest;
        proof {
            assert(self.entries@ == old_entries.skip(k as int));
            assert forall|a: int, b: int| 0 <= a < b < self.entries@.len() implies deadline_le(
                #[trigger] self.entries@[a],
                #[trigger] self.entries@[b],
            ) by {
                assert(self.entries@[a] == old_entries[a + k]);
                assert(self.entries@[b] == old_entries[b + k]);
            }
        }
        expired
    }
}

/// Where the first `k` deadlines have expired, at least `k` are counted.
proof fn lemma_count_expired_at_least(s: Seq<Deadline>, now: int, k: nat)
    requires
        k <= s.len(),
        forall|i: int| 0 <= i < k ==> #[trigger] s[i].deadline <= now,
    ensures
        k <= count_expired(s, now),
    decreases k,
{
    if k > 0 {
        assert(s[0].deadline <= now);
        assert forall|i: int| 0 <= i < k - 1 implies #[trigger] s.skip(1)[i].deadline <= now by {
            assert(s.skip(1)[i] == s[i + 1]);
        }
        lemma_count_expired_at_least(s.skip(1), now, (k - 1) as nat);
    }
}

/// The scan for expired deadlines stops at the bound or at the count.
proof fn lemma_count_expired_exact(s: Seq<Deadline>, now: int, k: nat, max: nat)
    requires
        k <= max,
        k <= s.len(),
        k <= count_expired(s, now),
        k < max ==> (k == s.len() || s[k as int].deadline > now),
    ensures
        k == (if count_expired(s, now) <= max { count_expired(s, now) } else { max }),
{
    lemma_count_expired(s, now);
    if k < max && k < count_expired(s, now) {
        assert(s[k as int].deadline <= now);
    }
}

/// Whether deadline `a` comes no later than `b`.
pub fn deadline_le_exec(a: &Deadline, b: &Deadline) -> (r: bool)
    ensures
        r == deadline_le(*a, *b),
{
    a.deadline < b.deadline || (a.deadline == b.deadline && a.id <= b.id)
}

} // verus!
