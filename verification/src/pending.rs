//! The table of calls in flight on one channel.
//!
//! Every request gets a correlation id and a deadline. A reply is delivered
//! only to the call that still waits under its id; a call whose deadline has
//! passed is taken out and answered with a timeout, and a reply that comes
//! for it later finds nothing and is dropped. Any number of calls may wait at
//! once, and their replies may come in any order.

use vstd::prelude::*;

verus! {

/// A call that waits for its reply.
#[derive(Debug, Clone, Copy, PartialEq, Eq, Structural)]
pub struct Pending {
    /// The correlation id that the request carries and the reply echoes.
    pub id: u64,
    /// The time from which on the call counts as timed out.
    pub deadline: u64,
}

/// The calls in flight, oldest first.
#[derive(Debug, PartialEq, Eq)]
pub struct PendingCalls {
    next_id: u64,
    calls: Vec<Pending>,
}

/// The ids of a sequence of calls, in order.
pub open spec fn ids_of(calls: Seq<Pending>) -> Seq<u64> {
    Seq::new(calls.len(), |i: int| calls[i].id)
}

/// The deadline of a call that is issued at `now` and may take `timeout`: the
/// sum, or the largest time there is where the sum lies beyond it.
pub open spec fn deadline_of(now: u64, timeout: u64) -> u64 {
    if now + timeout > u64::MAX {
        u64::MAX
    } else {
        (now + timeout) as u64
    }
}

/// The calls that still wait at time `now`: those whose deadline lies ahead.
pub open spec fn waiting(calls: Seq<Pending>, now: u64) -> Seq<Pending>
    decreases calls.len(),
{
    if calls.len() == 0 {
        Seq::empty()
    } else if calls.last().deadline > now {
        waiting(calls.drop_last(), now).push(calls.last())
    } else {
        waiting(calls.drop_last(), now)
    }
}

/// The ids of the calls that have timed out at time `now`, oldest first.
pub open spec fn timed_out(calls: Seq<Pending>, now: u64) -> Seq<u64>
    decreases calls.len(),
{
    if calls.len() == 0 {
        Seq::empty()
    } else if calls.last().deadline > now {
        timed_out(calls.drop_last(), now)
    } else {
        timed_out(calls.drop_last(), now).push(calls.last().id)
    }
}

/// The calls without the one that waits under `id`, if one does.
pub open spec fn without(calls: Seq<Pending>, id: u64) -> Seq<Pending> {
    if ids_of(calls).contains(id) {
        calls.remove(ids_of(calls).index_of(id))
    } else {
        calls
    }
}

impl View for PendingCalls {
    type V = Seq<Pending>;

    /// The calls in flight, oldest first.
    closed spec fn view(&self) -> Seq<Pending> {
        self.calls@
    }
}

impl PendingCalls {
    /// The id that the next call gets.
    pub closed spec fn next_id(&self) -> u64 {
        self.next_id
    }

    /// The ids of the calls in flight, oldest first.
    pub open spec fn ids(&self) -> Seq<u64> {
        ids_of(self@)
    }

    /// The type's invariant: no two calls in flight share an id, and every
    /// id in flight was issued before the next one. Every table that this
    /// module hands out is well formed.
    pub open spec fn wf(&self) -> bool {
        &&& self.ids().no_duplicates()
        &&& forall|i: int| 0 <= i < self@.len() ==> (#[trigger] self@[i]).id < self.next_id()
    }

    /// A table with no call in flight. The first id is 1.
    pub fn new() -> (table: PendingCalls)
        ensures
            table.wf(),
            table@ == Seq::<Pending>::empty(),
            table.next_id() == 1,
    {
        PendingCalls { next_id: 1, calls: Vec::new() }
    }

    /// How many calls are in flight.
    pub fn len(&self) -> (n: usize)
        ensures
            n == self@.len(),
    {
        self.calls.len()
    }

    fn position(&self, id: u64) -> (at: usize)
        requires
            self.wf(),
        ensures
            at <= self@.len(),
            at < self@.len() <==> self.ids().contains(id),
            at < self@.len() ==> at == self.ids().index_of(id),
    {
        let mut i: usize = 0;
        while i < self.calls.len()
            invariant
                self.wf(),
                i <= self.calls.len(),
                forall|j: int| 0 <= j < i ==> (#[trigger] self.ids()[j]) != id,
            decreases self.calls.len() - i,
        {
            if self.calls[i].id == id {
                proof {
                    let ids = self.ids();
                    assert(0 <= i < ids.len() && ids[i as int] == id);
                    let k = ids.index_of(id);
                    assert(0 <= k < ids.len() && ids[k] == id);
                    assert(k == i);
                }
                return i;
            }
            i += 1;
        }
        i
    }

    /// Whether a call waits under `id`.
    pub fn is_pending(&self, id: u64) -> (pending: bool)
        requires
            self.wf(),
        ensures
            pending == self.ids().contains(id),
    {
        self.position(id) < self.calls.len()
    }

    /// Takes a new call into the table.
    ///
    /// The call gets an id that no call had before it, and the deadline
    /// `now + timeout`. Gives `None`, and leaves the table as it is, only
    /// when the ids are used up.
    pub fn issue(&mut self, now: u64, timeout: u64) -> (id: Option<u64>)
        requires
            old(self).wf(),
        ensures
            final(self).wf(),
            id.is_none() <==> old(self).next_id() == u64::MAX,
            id.is_none() ==> final(self)@ == old(self)@ && final(self).next_id() == old(
                self,
            ).next_id(),
            id.is_some() ==> id.unwrap() == old(self).next_id() && final(self).next_id()
                == id.unwrap() + 1 && !old(self).ids().contains(id.unwrap()) && final(self)@
                == old(self)@.push(
                Pending { id: id.unwrap(), deadline: deadline_of(now, timeout) },
            ),
    {
        if self.next_id == u64::MAX {
            return None;
        }
        let id = self.next_id;
        let deadline = if timeout > u64::MAX - now {
            u64::MAX
        } else {
            now + timeout
        };
        let ghost before = self.calls@;
        proof {
            if ids_of(before).contains(id) {
                let k = ids_of(before).index_of(id);
                assert(0 <= k < before.len() && ids_of(before)[k] == id);
                assert(before[k].id < id);
            }
        }
        self.calls.push(Pending { id, deadline });
        self.next_id = id + 1;
        proof {
            assert(ids_of(self.calls@) =~= ids_of(before).push(id));
            assert forall|i: int| 0 <= i < self.calls@.len() implies (#[trigger] self.calls@[i]).id
                < self.next_id by {
                if i < before.len() {
                    assert(before[i].id < id);
                }
            }
            assert forall|i: int, j: int|
                0 <= i < self.calls@.len() && 0 <= j < self.calls@.len() && i != j implies ids_of(
                self.calls@,
            )[i] != ids_of(self.calls@)[j] by {
                if i < before.len() && j < before.len() {
                    assert(ids_of(before)[i] != ids_of(before)[j]);
                } else if i < before.len() {
                    assert(before[i].id < id);
                } else {
                    assert(before[j].id < id);
                }
            }
        }
        Some(id)
    }

    /// Takes a reply that carries `id`.
    ///
    /// Where a call waits under the id, the call leaves the table and the
    /// reply is to be delivered to it: the result is `true`. Where none
    /// does, the reply is to be dropped and the table stays as it is.
    pub fn resolve(&mut self, id: u64) -> (delivered: bool)
        requires
            old(self).wf(),
        ensures
            final(self).wf(),
            delivered == old(self).ids().contains(id),
            final(self)@ == without(old(self)@, id),
            final(self).next_id() == old(self).next_id(),
            !final(self).ids().contains(id),
    {
        let at = self.position(id);
        let ghost before = self.calls@;
        if at < self.calls.len() {
            self.calls.remove(at);
            proof {
                lemma_remove_keeps_distinct(before, at as int);
                lemma_removed_is_gone(before, at as int);
                assert forall|i: int| 0 <= i < self.calls@.len() implies (
                #[trigger] self.calls@[i]).id < self.next_id by {
                    if i < at {
                        assert(self.calls@[i] == before[i]);
                    } else {
                        assert(self.calls@[i] == before[i + 1]);
                    }
                }
            }
            true
        } else {
            false
        }
    }

    /// Takes out the calls that have timed out at time `now`, and gives
    /// their ids, oldest first: each of them is to be answered with a
    /// timeout. The calls whose deadline lies ahead stay, in their order.
    pub fn expire(&mut self, now: u64) -> (late: Vec<u64>)
        requires
            old(self).wf(),
        ensures
            final(self).wf(),
            final(self)@ == waiting(old(self)@, now),
            late@ == timed_out(old(self)@, now),
            final(self).next_id() == old(self).next_id(),
    {
        let mut kept: Vec<Pending> = Vec::new();
        let mut late: Vec<u64> = Vec::new();
        let mut i: usize = 0;
        while i < self.calls.len()
            invariant
                i <= self.calls.len(),
                kept@ == waiting(self.calls@.take(i as int), now),
                late@ == timed_out(self.calls@.take(i as int), now),
            decreases self.calls.len() - i,
        {
            let call = self.calls[i];
            proof {
                let next = self.calls@.take(i + 1);
                assert(next.drop_last() =~= self.calls@.take(i as int));
                assert(next.last() == call);
            }
            if call.deadline > now {
                kept.push(call);
            } else {
                late.push(call.id);
            }
            i += 1;
        }
        proof {
            assert(self.calls@.take(i as int) =~= self.calls@);
            lemma_waiting_is_part(self.calls@, now);
            let all = self.calls@;
            assert forall|k: int| 0 <= k < kept@.len() implies (#[trigger] kept@[k]).id
                < self.next_id by {
                let j = choose|j: int| 0 <= j < all.len() && all[j] == kept@[k];
                assert(all[j].id < self.next_id);
            }
        }
        self.calls = kept;
        late
    }
}

/// Taking one call out leaves the ids of the others distinct.
proof fn lemma_remove_keeps_distinct(calls: Seq<Pending>, at: int)
    requires
        ids_of(calls).no_duplicates(),
        0 <= at < calls.len(),
    ensures
        ids_of(calls.remove(at)).no_duplicates(),
{
    let after = calls.remove(at);
    assert forall|i: int, j: int|
        0 <= i < after.len() && 0 <= j < after.len() && i != j implies ids_of(after)[i] != ids_of(
        after,
    )[j] by {
        let a = if i < at {
            i
        } else {
            i + 1
        };
        let b = if j < at {
            j
        } else {
            j + 1
        };
        assert(after[i] == calls[a] && after[j] == calls[b]);
        assert(ids_of(calls)[a] != ids_of(calls)[b]);
    }
}

/// Once a call was taken out, its id is not in the table.
proof fn lemma_removed_is_gone(calls: Seq<Pending>, at: int)
    requires
        ids_of(calls).no_duplicates(),
        0 <= at < calls.len(),
    ensures
        !ids_of(calls.remove(at)).contains(calls[at].id),
{
    let after = calls.remove(at);
    if ids_of(after).contains(calls[at].id) {
        let k = ids_of(after).index_of(calls[at].id);
        assert(0 <= k < after.len() && ids_of(after)[k] == calls[at].id);
        let a = if k < at {
            k
        } else {
            k + 1
        };
        assert(after[k] == calls[a]);
        assert(ids_of(calls)[a] == ids_of(calls)[at]);
    }
}

/// The calls that still wait are calls of the table, in the order they had,
/// and each call of the table either still waits or has timed out.
pub proof fn lemma_waiting_is_part(calls: Seq<Pending>, now: u64)
    ensures
        forall|k: int|
            0 <= k < waiting(calls, now).len() ==> exists|j: int|
                0 <= j < calls.len() && calls[j] == #[trigger] waiting(calls, now)[k],
        forall|k: int|
            0 <= k < waiting(calls, now).len() ==> (#[trigger] waiting(calls, now)[k]).deadline > now,
        ids_of(calls).no_duplicates() ==> ids_of(waiting(calls, now)).no_duplicates(),
        forall|j: int|
            0 <= j < calls.len() && (#[trigger] calls[j]).deadline > now ==> ids_of(
                waiting(calls, now),
            ).contains(calls[j].id),
        forall|j: int|
            0 <= j < calls.len() && (#[trigger] calls[j]).deadline <= now ==> timed_out(
                calls,
                now,
            ).contains(calls[j].id),
    decreases calls.len(),
{
    if calls.len() > 0 {
        let front = calls.drop_last();
        let last = calls.last();
        lemma_waiting_is_part(front, now);
        let w = waiting(calls, now);
        let wf = waiting(front, now);
        assert forall|k: int| 0 <= k < w.len() implies exists|j: int|
            0 <= j < calls.len() && calls[j] == #[trigger] w[k] by {
            if k < wf.len() {
                let j = choose|j: int| 0 <= j < front.len() && front[j] == wf[k];
                assert(calls[j] == w[k]);
            } else {
                assert(calls[calls.len() - 1] == w[k]);
            }
        }
        if ids_of(calls).no_duplicates() {
            assert forall|a: int, b: int| 0 <= a < front.len() && 0 <= b < front.len() && a
                != b implies ids_of(front)[a] != ids_of(front)[b] by {
                assert(ids_of(calls)[a] != ids_of(calls)[b]);
            }
            assert forall|a: int, b: int| 0 <= a < w.len() && 0 <= b < w.len() && a
                != b implies ids_of(w)[a] != ids_of(w)[b] by {
                if a < wf.len() && b < wf.len() {
                    assert(ids_of(wf)[a] != ids_of(wf)[b]);
                } else {
                    let inner = if a < wf.len() {
                        a
                    } else {
                        b
                    };
                    let j = choose|j: int| 0 <= j < front.len() && front[j] == wf[inner];
                    assert(ids_of(calls)[j] != ids_of(calls)[calls.len() - 1]);
                }
            }
        }
        assert forall|j: int| 0 <= j < calls.len() && (#[trigger] calls[j]).deadline
            > now implies ids_of(w).contains(calls[j].id) by {
            if j < front.len() {
                assert(front[j] == calls[j]);
                let k = ids_of(wf).index_of(calls[j].id);
                assert(0 <= k < wf.len() && ids_of(wf)[k] == calls[j].id);
                assert(ids_of(w)[k] == calls[j].id);
            } else {
                assert(ids_of(w)[w.len() - 1] == calls[j].id);
            }
        }
        let t = timed_out(calls, now);
        let tf = timed_out(front, now);
        assert forall|j: int| 0 <= j < calls.len() && (#[trigger] calls[j]).deadline
            <= now implies t.contains(calls[j].id) by {
            if j < front.len() {
                assert(front[j] == calls[j]);
                let k = tf.index_of(calls[j].id);
                assert(0 <= k < tf.len() && tf[k] == calls[j].id);
                assert(t[k] == calls[j].id);
            } else {
                assert(t[t.len() - 1] == calls[j].id);
            }
        }
    }
}

/// A late reply is dropped.
///
/// Once the calls that have timed out were taken out, no call waits under
/// the id of any of them: a reply that carries such an id changes nothing
/// and is delivered to nobody.
pub proof fn lemma_late_reply_dropped(calls: Seq<Pending>, now: u64, j: int)
    requires
        ids_of(calls).no_duplicates(),
        0 <= j < calls.len(),
        calls[j].deadline <= now,
    ensures
        timed_out(calls, now).contains(calls[j].id),
        !ids_of(waiting(calls, now)).contains(calls[j].id),
        without(waiting(calls, now), calls[j].id) == waiting(calls, now),
{
    lemma_waiting_is_part(calls, now);
    let w = waiting(calls, now);
    if ids_of(w).contains(calls[j].id) {
        let k = ids_of(w).index_of(calls[j].id);
        assert(0 <= k < w.len() && ids_of(w)[k] == calls[j].id);
        let i = choose|i: int| 0 <= i < calls.len() && calls[i] == w[k];
        assert(w[k].deadline > now);
        assert(i != j);
        assert(ids_of(calls)[i] != ids_of(calls)[j]);
    }
}

/// Replies may come in any order: taking the replies to two calls in either
/// order leaves the same calls waiting.
pub proof fn lemma_replies_commute(calls: Seq<Pending>, a: u64, b: u64)
    requires
        ids_of(calls).no_duplicates(),
    ensures
        without(without(calls, a), b) == without(without(calls, b), a),
{
    lemma_without(calls, a);
    lemma_without(calls, b);
    let wa = without(calls, a);
    let wb = without(calls, b);
    lemma_without(wa, b);
    lemma_without(wb, a);
    let left = without(wa, b);
    let right = without(wb, a);
    lemma_same_rest(calls, left, right, a, b);
}

/// What is left when the call under `id` is taken out: the other calls, in
/// their order.
pub open spec fn rest_of(calls: Seq<Pending>, id: u64) -> Seq<Pending>
    decreases calls.len(),
{
    if calls.len() == 0 {
        Seq::empty()
    } else if calls.last().id == id {
        rest_of(calls.drop_last(), id)
    } else {
        rest_of(calls.drop_last(), id).push(calls.last())
    }
}

proof fn lemma_rest_of_absent(calls: Seq<Pending>, id: u64)
    requires
        !ids_of(calls).contains(id),
    ensures
        rest_of(calls, id) == calls,
    decreases calls.len(),
{
    if calls.len() > 0 {
        let front = calls.drop_last();
        assert(ids_of(calls)[calls.len() - 1] == calls.last().id);
        if ids_of(front).contains(id) {
            let k = ids_of(front).index_of(id);
            assert(0 <= k < front.len() && ids_of(front)[k] == id);
            assert(ids_of(calls)[k] == id);
        }
        lemma_rest_of_absent(front, id);
        assert(front.push(calls.last()) =~= calls);
    }
}

proof fn lemma_without(calls: Seq<Pending>, id: u64)
    requires
        ids_of(calls).no_duplicates(),
    ensures
        without(calls, id) == rest_of(calls, id),
        ids_of(without(calls, id)).no_duplicates(),
    decreases calls.len(),
{
    if !ids_of(calls).contains(id) {
        lemma_rest_of_absent(calls, id);
    } else {
        let at = ids_of(calls).index_of(id);
        assert(0 <= at < calls.len() && ids_of(calls)[at] == id);
        lemma_remove_keeps_distinct(calls, at);
        let front = calls.drop_last();
        let last = calls.last();
        assert forall|x: int, y: int| 0 <= x < front.len() && 0 <= y < front.len() && x
            != y implies ids_of(front)[x] != ids_of(front)[y] by {
            assert(ids_of(calls)[x] != ids_of(calls)[y]);
        }
        if at == calls.len() - 1 {
            assert(calls.remove(at) =~= front);
            if ids_of(front).contains(id) {
                let k = ids_of(front).index_of(id);
                assert(0 <= k < front.len() && ids_of(front)[k] == id);
                assert(ids_of(calls)[k] == ids_of(calls)[at]);
            }
            lemma_rest_of_absent(front, id);
        } else {
            assert(ids_of(calls)[calls.len() - 1] != ids_of(calls)[at]);
            assert(ids_of(front)[at] == id);
            let k = ids_of(front).index_of(id);
            assert(0 <= k < front.len() && ids_of(front)[k] == id);
            assert(ids_of(calls)[k] == id);
            assert(k == at);
            lemma_without(front, id);
            assert(calls.remove(at) =~= front.remove(at).push(last));
        }
    }
}

proof fn lemma_same_rest(calls: Seq<Pending>, left: Seq<Pending>, right: Seq<Pending>, a: u64, b: u64)
    requires
        left == rest_of(rest_of(calls, a), b),
        right == rest_of(rest_of(calls, b), a),
    ensures
        left == right,
    decreases calls.len(),
{
    if calls.len() > 0 {
        let front = calls.drop_last();
        let last = calls.last();
        lemma_same_rest(front, rest_of(rest_of(front, a), b), rest_of(rest_of(front, b), a), a, b);
        if last.id != a {
            assert(rest_of(front, a).push(last).drop_last() =~= rest_of(front, a));
        }
        if last.id != b {
            assert(rest_of(front, b).push(last).drop_last() =~= rest_of(front, b));
        }
    }
}

} // verus!
