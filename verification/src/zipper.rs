//! The synchronizer: a fixed-width barrier that aligns one data unit from
//! each input endpoint into a tuple.
//!
//! Each input endpoint owns one slot; arrivals are appended to their slot.
//! A tuple completes only when every slot holds at least one pending unit.
//! On completion the most recently pushed unit of each slot is taken and all
//! older units are discarded (freshness over completeness): this is a
//! real-time alignment barrier, not a FIFO join, so units from producers
//! that run ahead are dropped rather than queued without bound.

use vstd::prelude::*;

verus! {

/// A barrier with one slot of pending units per input endpoint.
pub struct Zipper<U> {
    buffers: Vec<Vec<U>>,
}

/// The slot contents after appending `unit` to slot `idx`.
pub open spec fn slots_after_push<U>(slots: Seq<Seq<U>>, idx: int, unit: U) -> Seq<Seq<U>> {
    slots.update(idx, slots[idx].push(unit))
}

/// A tuple completes exactly when every slot holds at least one unit.
pub open spec fn zip_ready<U>(slots: Seq<Seq<U>>) -> bool {
    forall|i: int| 0 <= i < slots.len() ==> slots[i].len() > 0
}

/// The completed tuple: the most recently pushed unit of each slot, in
/// endpoint-index order.
pub open spec fn zipped_tuple<U>(slots: Seq<Seq<U>>) -> Seq<U> {
    Seq::new(slots.len(), |i: int| slots[i].last())
}

/// `count` slots, all empty.
pub open spec fn cleared_slots<U>(count: nat) -> Seq<Seq<U>> {
    Seq::new(count, |i: int| Seq::<U>::empty())
}

impl<U> View for Zipper<U> {
    type V = Seq<Seq<U>>;

    closed spec fn view(&self) -> Seq<Seq<U>> {
        self.buffers@.map_values(|b: Vec<U>| b@)
    }
}

impl<U> Zipper<U> {
    /// A synchronizer with `size` empty slots, one per input endpoint.
    pub fn with_size(size: usize) -> (z: Zipper<U>)
        ensures
            z@ == cleared_slots::<U>(size as nat),
    {
        let mut buffers: Vec<Vec<U>> = Vec::new();
        let mut i: usize = 0;
        while i < size
            invariant
                i <= size,
                buffers@.len() == i,
                forall|j: int| 0 <= j < i ==> buffers@[j]@.len() == 0,
            decreases size - i,
        {
            buffers.push(Vec::new());
            i = i + 1;
        }
        let z = Zipper { buffers };
        proof {
            assert(z@ =~~= cleared_slots::<U>(size as nat));
        }
        z
    }

    /// Appends `unit` to the slot of input endpoint `idx`. Never blocks and
    /// never fails; a slot may accumulate several pending units when its
    /// producer runs ahead of the others.
    pub fn push(&mut self, unit: U, idx: usize)
        requires
            idx < old(self)@.len(),
        ensures
            final(self)@ == slots_after_push(old(self)@, idx as int, unit),
    {
        let slot = &mut self.buffers[idx];
        slot.push(unit);
        proof {
            assert(self@ =~~= slots_after_push(old(self)@, idx as int, unit));
        }
    }

    /// Takes a completed tuple if every slot is non-empty: the most recent
    /// unit of each slot is returned, older units are discarded, and every
    /// slot is left empty. If any slot is empty, nothing changes and no
    /// tuple is returned.
    pub fn try_zip(&mut self) -> (r: Option<Vec<U>>)
        ensures
            zip_ready(old(self)@) ==> {
                &&& r matches Some(tuple) && tuple@ == zipped_tuple(old(self)@)
                &&& final(self)@ == cleared_slots::<U>(old(self)@.len())
            },
            !zip_ready(old(self)@) ==> r is None && final(self)@ == old(self)@,
    {
        let n = self.buffers.len();
        proof {
            assert(forall|j: int| 0 <= j < n ==> self@[j] == self.buffers@[j]@);
        }
        let mut filled = true;
        let mut i: usize = 0;
        while i < n
            invariant
                i <= n,
                n == self.buffers@.len(),
                *self == *old(self),
                filled <==> (forall|j: int| 0 <= j < i ==> self.buffers@[j]@.len() > 0),
            decreases n - i,
        {
            if self.buffers[i].len() == 0 {
                filled = false;
            }
            i = i + 1;
        }
        proof {
            assert(self@.len() == n);
            assert(forall|j: int| 0 <= j < n ==> self@[j] == self.buffers@[j]@);
            if filled {
                assert(zip_ready(self@));
            } else {
                let j = choose|j: int| 0 <= j < n && !(self.buffers@[j]@.len() > 0);
                assert(self@[j].len() == 0);
                assert(!zip_ready(self@));
            }
        }
        if filled {
            let ghost orig = self.buffers@;
            let mut zip: Vec<U> = Vec::new();
            let mut i: usize = 0;
            while i < n
                invariant
                    i <= n,
                    n == self.buffers@.len(),
                    orig.len() == n,
                    forall|j: int| 0 <= j < n ==> orig[j]@.len() > 0,
                    zip@.len() == i,
                    forall|j: int| 0 <= j < i ==> zip@[j] == orig[j]@.last(),
                    forall|j: int| 0 <= j < i ==> self.buffers@[j]@.len() == 0,
                    forall|j: int| i <= j < n ==> self.buffers@[j] == orig[j],
                decreases n - i,
            {
                proof {
                    assert(self.buffers@[i as int] == orig[i as int]);
                }
                let slot = &mut self.buffers[i];
                let freshest = slot.pop().unwrap();
                slot.clear();
                zip.push(freshest);
                i = i + 1;
            }
            proof {
                assert(zip@ =~= zipped_tuple(old(self)@));
                assert(self@ =~~= cleared_slots::<U>(old(self)@.len()));
            }
            Some(zip)
        } else {
            None
        }
    }

    /// Discards all pending units, leaving every slot empty. Flush handling
    /// resets the synchronizer through this so no stale unit survives a
    /// flush.
    pub fn reset(&mut self)
        ensures
            final(self)@ == cleared_slots::<U>(old(self)@.len()),
    {
        let n = self.buffers.len();
        let mut i: usize = 0;
        while i < n
            invariant
                i <= n,
                n == self.buffers@.len(),
                forall|j: int| 0 <= j < i ==> self.buffers@[j]@.len() == 0,
            decreases n - i,
        {
            let slot = &mut self.buffers[i];
            slot.clear();
            i = i + 1;
        }
        proof {
            assert(self@ =~~= cleared_slots::<U>(old(self)@.len()));
        }
    }

    /// The number of slots, fixed at construction to the input endpoint
    /// count.
    pub fn size(&self) -> (n: usize)
        ensures
            n == self@.len(),
    {
        self.buffers.len()
    }
}

/// The slot contents after a whole sequence of pushes, each a slot index
/// paired with the unit appended there.
pub open spec fn slots_after_pushes<U>(slots: Seq<Seq<U>>, pushes: Seq<(int, U)>) -> Seq<Seq<U>>
    decreases pushes.len(),
{
    if pushes.len() == 0 {
        slots
    } else {
        slots_after_push(
            slots_after_pushes(slots, pushes.drop_last()),
            pushes.last().0,
            pushes.last().1,
        )
    }
}

/// Whether some push in the sequence addressed slot `i`.
pub open spec fn slot_received_push<U>(pushes: Seq<(int, U)>, i: int) -> bool {
    exists|k: int| 0 <= k < pushes.len() && #[trigger] pushes[k].0 == i
}

/// Pushing never changes the slot count, and a slot holds a unit exactly
/// when some push addressed it.
proof fn lemma_pushes_fill_their_slots<U>(count: nat, pushes: Seq<(int, U)>)
    requires
        forall|k: int| 0 <= k < pushes.len() ==> 0 <= #[trigger] pushes[k].0 < count,
    ensures
        slots_after_pushes(cleared_slots::<U>(count), pushes).len() == count,
        forall|i: int|
            0 <= i < count ==> ((#[trigger] slots_after_pushes(
                cleared_slots::<U>(count),
                pushes,
            )[i].len() > 0) <==> slot_received_push(pushes, i)),
    decreases pushes.len(),
{
    if pushes.len() > 0 {
        let prefix = pushes.drop_last();
        lemma_pushes_fill_their_slots::<U>(count, prefix);
        let before = slots_after_pushes(cleared_slots::<U>(count), prefix);
        let after = slots_after_pushes(cleared_slots::<U>(count), pushes);
        let target = pushes.last().0;
        assert forall|i: int|
            0 <= i < count implies ((#[trigger] after[i].len() > 0) <==> slot_received_push(
            pushes,
            i,
        )) by {
            if i == target {
                assert(pushes[pushes.len() - 1].0 == i);
                assert(slot_received_push(pushes, i));
            } else {
                assert(after[i] == before[i]);
                if after[i].len() > 0 {
                    let k = choose|k: int| 0 <= k < prefix.len() && #[trigger] prefix[k].0 == i;
                    assert(pushes[k].0 == i);
                    assert(slot_received_push(pushes, i));
                } else if slot_received_push(pushes, i) {
                    let k = choose|k: int| 0 <= k < pushes.len() && #[trigger] pushes[k].0 == i;
                    assert(prefix[k] == pushes[k]);
                    assert(slot_received_push(prefix, i));
                }
            }
        }
    }
}

/// Starting from empty slots (construction, or the reset after a
/// completion), any sequence of pushes completes a tuple exactly once
/// every slot has received at least one push.
pub proof fn lemma_completion_exactly_when_every_slot_pushed<U>(count: nat, pushes: Seq<(int, U)>)
    requires
        forall|k: int| 0 <= k < pushes.len() ==> 0 <= #[trigger] pushes[k].0 < count,
    ensures
        zip_ready(slots_after_pushes(cleared_slots::<U>(count), pushes)) <==> (forall|i: int|
            0 <= i < count ==> #[trigger] slot_received_push(pushes, i)),
{
    lemma_pushes_fill_their_slots::<U>(count, pushes);
    let after = slots_after_pushes(cleared_slots::<U>(count), pushes);
    if zip_ready(after) {
        assert forall|i: int| 0 <= i < count implies #[trigger] slot_received_push(pushes, i) by {
            assert(after[i].len() > 0);
        }
    }
    if forall|i: int| 0 <= i < count ==> #[trigger] slot_received_push(pushes, i) {
        assert forall|i: int| 0 <= i < after.len() implies after[i].len() > 0 by {
            assert(slot_received_push(pushes, i));
        }
        assert(zip_ready(after));
    }
}

/// A completed tuple carries exactly one unit per slot, in slot order: the
/// input side of the dispatch arity invariant.
pub proof fn lemma_tuple_arity<U>(slots: Seq<Seq<U>>)
    ensures
        zipped_tuple(slots).len() == slots.len(),
{
}

/// Older units never reach a tuple: when a slot received several pushes, a
/// completion takes only the most recent of them and the rest are dropped.
pub proof fn lemma_latest_unit_wins<U>(slots: Seq<Seq<U>>, idx: int, a: U, b: U, c: U)
    requires
        0 <= idx < slots.len(),
    ensures
        ({
            let filled = slots_after_push(
                slots_after_push(slots_after_push(slots, idx, a), idx, b),
                idx,
                c,
            );
            zip_ready(filled) ==> zipped_tuple(filled)[idx] == c
        }),
{
}

/// Immediately after a completion every slot is empty, so a second
/// completion cannot happen before a new push (for a synchronizer with at
/// least one slot; one with no slots completes an empty tuple at every
/// call).
pub proof fn lemma_no_completion_after_reset<U>(count: nat)
    requires
        count > 0,
    ensures
        !zip_ready(cleared_slots::<U>(count)),
{
    assert(cleared_slots::<U>(count)[0].len() == 0);
}

} // verus!
