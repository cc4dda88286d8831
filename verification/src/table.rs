//! The session table: which handle serves which flow.

use crate::flow::NetworkTuple;
use vstd::prelude::*;

verus! {

/// One live session: the flow it serves and the handle that reaches it.
struct Slot<H> {
    tuple: NetworkTuple,
    handle: H,
}

/// Keyed storage from flow identity to session handle.
///
/// The table is a map: a flow has at most one handle at any time. It is meant
/// to be owned by one task and is never shared.
pub struct SessionTable<H> {
    slots: Vec<Slot<H>>,
}

/// Whether some slot of `slots` serves `tuple`.
spec fn serves<H>(slots: Seq<Slot<H>>, tuple: NetworkTuple) -> bool {
    exists|i: int| 0 <= i < slots.len() && (#[trigger] slots[i]).tuple == tuple
}

/// A slot of `slots` that serves `tuple`, where there is one.
spec fn slot_of<H>(slots: Seq<Slot<H>>, tuple: NetworkTuple) -> int {
    choose|i: int| 0 <= i < slots.len() && (#[trigger] slots[i]).tuple == tuple
}

/// No two slots serve the same flow.
spec fn distinct<H>(slots: Seq<Slot<H>>) -> bool {
    forall|i: int, j: int|
        0 <= i < j < slots.len() ==> (#[trigger] slots[i]).tuple != (#[trigger] slots[j]).tuple
}

/// The map that a sequence of slots stands for.
spec fn as_map<H>(slots: Seq<Slot<H>>) -> Map<NetworkTuple, H> {
    Map::new(|t: NetworkTuple| serves(slots, t), |t: NetworkTuple| slots[slot_of(slots, t)].handle)
}

/// The flows of a sequence of slots, in slot order.
spec fn flows<H>(slots: Seq<Slot<H>>) -> Seq<NetworkTuple> {
    Seq::new(slots.len(), |i: int| slots[i].tuple)
}

/// With distinct slots, the slot at `i` is the one found for its flow.
proof fn lemma_slot_found<H>(slots: Seq<Slot<H>>, i: int)
    requires
        distinct(slots),
        0 <= i < slots.len(),
    ensures
        serves(slots, slots[i].tuple),
        slot_of(slots, slots[i].tuple) == i,
        as_map(slots).contains_key(slots[i].tuple),
        as_map(slots)[slots[i].tuple] == slots[i].handle,
{
    let t = slots[i].tuple;
    assert(serves(slots, t));
    let j = slot_of(slots, t);
    assert(0 <= j < slots.len() && slots[j].tuple == t);
    if j < i {
        assert(slots[j].tuple != slots[i].tuple);
    } else if i < j {
        assert(slots[i].tuple != slots[j].tuple);
    }
}

/// Appending a slot for a flow that has none adds that flow to the map.
proof fn lemma_push<H>(slots: Seq<Slot<H>>, slot: Slot<H>)
    requires
        distinct(slots),
        !serves(slots, slot.tuple),
    ensures
        distinct(slots.push(slot)),
        as_map(slots.push(slot)) == as_map(slots).insert(slot.tuple, slot.handle),
{
    let after = slots.push(slot);
    assert forall|i: int, j: int| 0 <= i < j < after.len() implies (#[trigger] after[i]).tuple != (
    #[trigger] after[j]).tuple by {
        if j < slots.len() {
            assert(slots[i].tuple != slots[j].tuple);
        } else {
            assert(slots[i].tuple != slot.tuple);
        }
    }
    assert forall|t: NetworkTuple| serves(after, t) <==> (serves(slots, t) || t == slot.tuple) by {
        if serves(slots, t) {
            let i = slot_of(slots, t);
            assert(after[i].tuple == t);
        }
        if t == slot.tuple {
            assert(after[slots.len() as int].tuple == t);
        }
        if serves(after, t) {
            let i = slot_of(after, t);
            if i < slots.len() {
                assert(slots[i].tuple == t);
            }
        }
    }
    assert forall|t: NetworkTuple| serves(after, t) implies as_map(after)[t] == as_map(
        slots,
    ).insert(slot.tuple, slot.handle)[t] by {
        let i = slot_of(after, t);
        lemma_slot_found(after, i);
        if i < slots.len() {
            lemma_slot_found(slots, i);
        }
    }
    assert(as_map(after) =~= as_map(slots).insert(slot.tuple, slot.handle));
}

/// Replacing the handle of a slot replaces the handle of its flow.
proof fn lemma_update<H>(slots: Seq<Slot<H>>, i: int, slot: Slot<H>)
    requires
        distinct(slots),
        0 <= i < slots.len(),
        slot.tuple == slots[i].tuple,
    ensures
        distinct(slots.update(i, slot)),
        as_map(slots.update(i, slot)) == as_map(slots).insert(slot.tuple, slot.handle),
{
    let after = slots.update(i, slot);
    assert forall|a: int, b: int| 0 <= a < b < after.len() implies (#[trigger] after[a]).tuple != (
    #[trigger] after[b]).tuple by {
        assert(slots[a].tuple != slots[b].tuple);
    }
    assert forall|t: NetworkTuple| serves(after, t) <==> serves(slots, t) by {
        if serves(slots, t) {
            let k = slot_of(slots, t);
            assert(after[k].tuple == t);
        }
        if serves(after, t) {
            let k = slot_of(after, t);
            assert(slots[k].tuple == t);
        }
    }
    lemma_slot_found(slots, i);
    assert forall|t: NetworkTuple| serves(after, t) implies as_map(after)[t] == as_map(
        slots,
    ).insert(slot.tuple, slot.handle)[t] by {
        let k = slot_of(after, t);
        lemma_slot_found(after, k);
        lemma_slot_found(slots, k);
    }
    assert(as_map(after) =~= as_map(slots).insert(slot.tuple, slot.handle));
}

/// Taking a slot out takes its flow out of the map.
proof fn lemma_remove<H>(slots: Seq<Slot<H>>, i: int)
    requires
        distinct(slots),
        0 <= i < slots.len(),
    ensures
        distinct(slots.remove(i)),
        as_map(slots.remove(i)) == as_map(slots).remove(slots[i].tuple),
{
    let after = slots.remove(i);
    let gone = slots[i].tuple;
    assert forall|a: int| 0 <= a < after.len() implies #[trigger] after[a] == slots[if a < i {
        a
    } else {
        a + 1
    }] by {}
    assert forall|a: int, b: int| 0 <= a < b < after.len() implies (#[trigger] after[a]).tuple != (
    #[trigger] after[b]).tuple by {
        let a0 = if a < i { a } else { a + 1 };
        let b0 = if b < i { b } else { b + 1 };
        assert(slots[a0].tuple != slots[b0].tuple);
    }
    assert forall|t: NetworkTuple| serves(after, t) <==> (serves(slots, t) && t != gone) by {
        if serves(slots, t) && t != gone {
            let k = slot_of(slots, t);
            let k1 = if k < i { k } else { k - 1 };
            assert(after[k1].tuple == t);
        }
        if serves(after, t) {
            let k = slot_of(after, t);
            let k0 = if k < i { k } else { k + 1 };
            assert(slots[k0].tuple == t);
            if k0 < i {
                assert(slots[k0].tuple != slots[i].tuple);
            } else {
                assert(slots[i].tuple != slots[k0].tuple);
            }
        }
    }
    assert forall|t: NetworkTuple| serves(after, t) implies as_map(after)[t] == as_map(slots)[t] by {
        let k = slot_of(after, t);
        let k0 = if k < i { k } else { k + 1 };
        lemma_slot_found(after, k);
        lemma_slot_found(slots, k0);
    }
    assert(as_map(after) =~= as_map(slots).remove(gone));
}

/// With distinct slots, the map has as many flows as there are slots.
proof fn lemma_count<H>(slots: Seq<Slot<H>>)
    requires
        distinct(slots),
    ensures
        flows(slots).no_duplicates(),
        flows(slots).to_set() == as_map(slots).dom(),
        as_map(slots).dom().finite(),
        as_map(slots).dom().len() == slots.len(),
{
    let f = flows(slots);
    assert forall|i: int, j: int| 0 <= i < f.len() && 0 <= j < f.len() && i != j implies f[i]
        != f[j] by {
        if i < j {
            assert(slots[i].tuple != slots[j].tuple);
        } else {
            assert(slots[j].tuple != slots[i].tuple);
        }
    }
    assert forall|t: NetworkTuple| f.to_set().contains(t) <==> as_map(slots).dom().contains(t) by {
        if f.to_set().contains(t) {
            let i = choose|i: int| 0 <= i < f.len() && f[i] == t;
            assert(slots[i].tuple == t);
        }
        if serves(slots, t) {
            let i = slot_of(slots, t);
            assert(f[i] == t);
        }
    }
    assert(f.to_set() =~= as_map(slots).dom());
    f.unique_seq_to_set();
    vstd::seq_lib::seq_to_set_is_finite(f);
}

impl<H> View for SessionTable<H> {
    type V = Map<NetworkTuple, H>;

    /// The table as a map from flow to handle.
    closed spec fn view(&self) -> Map<NetworkTuple, H> {
        as_map(self.slots@)
    }
}

impl<H> SessionTable<H> {
    #[verifier::type_invariant]
    spec fn well_formed(&self) -> bool {
        distinct(self.slots@)
    }

    /// An empty table.
    pub fn new() -> (table: Self)
        ensures
            table@ == Map::<NetworkTuple, H>::empty(),
    {
        let table = SessionTable { slots: Vec::new() };
        assert(table@ =~= Map::<NetworkTuple, H>::empty());
        table
    }

    /// Moves the slots out and leaves the table empty, so that they can be
    /// changed and put back in one assignment.
    fn take_slots(&mut self) -> (slots: Vec<Slot<H>>)
        ensures
            slots@ == old(self).slots@,
            distinct(slots@),
            final(self).slots@.len() == 0,
    {
        proof {
            use_type_invariant(&*self);
        }
        let mut slots: Vec<Slot<H>> = Vec::new();
        core::mem::swap(&mut self.slots, &mut slots);
        slots
    }

    /// The slot that serves `tuple`, if there is one.
    fn position(&self, tuple: &NetworkTuple) -> (found: Option<usize>)
        ensures
            match found {
                Some(i) => i < self.slots@.len() && self.slots@[i as int].tuple == *tuple,
                None => !serves(self.slots@, *tuple),
            },
    {
        let mut i: usize = 0;
        while i < self.slots.len()
            invariant
                i <= self.slots@.len(),
                forall|k: int| 0 <= k < i ==> (#[trigger] self.slots@[k]).tuple != *tuple,
            decreases self.slots@.len() - i,
        {
            if self.slots[i].tuple == *tuple {
                return Some(i);
            }
            i += 1;
        }
        None
    }

    /// The number of live sessions.
    pub fn len(&self) -> (count: usize)
        ensures
            self@.dom().finite(),
            count == self@.len(),
    {
        proof {
            use_type_invariant(self);
            lemma_count(self.slots@);
        }
        self.slots.len()
    }

    /// Whether no session is live.
    pub fn is_empty(&self) -> (empty: bool)
        ensures
            empty <==> self@ == Map::<NetworkTuple, H>::empty(),
    {
        proof {
            use_type_invariant(self);
            lemma_count(self.slots@);
            if self.slots@.len() == 0 {
                assert(self@ =~= Map::<NetworkTuple, H>::empty());
            }
        }
        self.slots.len() == 0
    }

    /// Whether a session is registered for `tuple`.
    pub fn contains(&self, tuple: &NetworkTuple) -> (present: bool)
        ensures
            present == self@.contains_key(*tuple),
    {
        self.position(tuple).is_some()
    }

    /// The handle registered for `tuple`, if there is one.
    pub fn lookup(&self, tuple: &NetworkTuple) -> (found: Option<&H>)
        ensures
            match found {
                Some(handle) => self@.contains_key(*tuple) && *handle == self@[*tuple],
                None => !self@.contains_key(*tuple),
            },
    {
        match self.position(tuple) {
            Some(i) => {
                proof {
                    use_type_invariant(self);
                    lemma_slot_found(self.slots@, i as int);
                }
                Some(&self.slots[i].handle)
            },
            None => None,
        }
    }

    /// Registers `handle` for `tuple`. A handle already registered for the
    /// same flow is replaced and lost.
    pub fn insert(&mut self, tuple: NetworkTuple, handle: H)
        ensures
            final(self)@ == old(self)@.insert(tuple, handle),
    {
        let found = self.position(&tuple);
        let mut slots = self.take_slots();
        let slot = Slot { tuple, handle };
        match found {
            Some(i) => {
                proof {
                    lemma_update(slots@, i as int, slot);
                }
                slots.set(i, slot);
            },
            None => {
                proof {
                    lemma_push(slots@, slot);
                }
                slots.push(slot);
            },
        }
        self.slots = slots;
    }

    /// Removes the session registered for `tuple`, and says whether there
    /// was one.
    pub fn remove(&mut self, tuple: &NetworkTuple) -> (removed: bool)
        ensures
            removed == old(self)@.contains_key(*tuple),
            final(self)@ == old(self)@.remove(*tuple),
    {
        match self.position(tuple) {
            Some(i) => {
                let mut slots = self.take_slots();
                proof {
                    lemma_remove(slots@, i as int);
                }
                let _ = slots.remove(i);
                self.slots = slots;
                true
            },
            None => {
                assert(self@ =~= self@.remove(*tuple));
                false
            },
        }
    }

    /// Removes every session.
    pub fn clear(&mut self)
        ensures
            final(self)@ == Map::<NetworkTuple, H>::empty(),
    {
        self.slots = Vec::new();
        assert(self@ =~= Map::<NetworkTuple, H>::empty());
    }

    /// The flows that have a live session, each exactly once.
    pub fn tuples(&self) -> (live: Vec<NetworkTuple>)
        ensures
            live@.no_duplicates(),
            live@.to_set() == self@.dom(),
            live@.len() == self@.len(),
    {
        proof {
            use_type_invariant(self);
            lemma_count(self.slots@);
        }
        let mut live: Vec<NetworkTuple> = Vec::new();
        let mut i: usize = 0;
        while i < self.slots.len()
            invariant
                i <= self.slots@.len(),
                live@ == flows(self.slots@).subrange(0, i as int),
            decreases self.slots@.len() - i,
        {
            live.push(self.slots[i].tuple);
            assert(live@ =~= flows(self.slots@).subrange(0, i + 1));
            i += 1;
        }
        assert(live@ =~= flows(self.slots@));
        live
    }
}

} // verus!
