//! Handle store for channel instances: fixed-capacity slots, a free-slot
//! stack, and a map from stable 64-bit identifiers to slot positions.
//!
//! Identifiers are handed out by a monotonically increasing counter and are
//! never reused, even when the slot that carried them is.  The store is a
//! sequential value; callers that share it across threads guard it with a
//! lock of their own.

use std::collections::HashMap;
use vstd::prelude::*;

verus! {

broadcast use vstd::std_specs::hash::group_hash_axioms;

/// One storage slot of the handle store.
pub struct ChannelSlot<T> {
    /// The stored channel, if the slot is occupied.
    pub data: Option<T>,
}

impl<T> ChannelSlot<T> {
    /// An empty slot.
    fn new() -> (s: Self)
        ensures
            s.data is None,
    {
        ChannelSlot { data: None }
    }

    /// A slot holding `item`.
    fn new_with(item: T) -> (s: Self)
        ensures
            s.data == Some(item),
    {
        ChannelSlot { data: Some(item) }
    }
}

/// Fixed-capacity handle store.
///
/// Viewed abstractly as the map from live handle identifiers to the stored
/// values.  `insert` places a value in a free slot and returns a fresh
/// identifier; `remove` frees the slot but retires the identifier forever.
pub struct ChannelSlab<T> {
    /// Storage slots.
    slots: Vec<ChannelSlot<T>>,
    /// Indices of slots that hold nothing, in stack order.
    free: Vec<usize>,
    /// Next identifier to hand out; identifiers below it are spent.
    next_id: u64,
    /// Map from live identifiers to slot indices.
    id_to_slot: HashMap<u64, usize>,
}

impl<T> View for ChannelSlab<T> {
    type V = Map<u64, T>;

    closed spec fn view(&self) -> Map<u64, T> {
        Map::new(
            |id: u64| self.id_to_slot@.dom().contains(id),
            |id: u64| self.slots@[self.id_to_slot@[id] as int].data->Some_0,
        )
    }
}

impl<T> ChannelSlab<T> {
    /// Internal consistency of the store: the free stack and the identifier
    /// map partition the slots, identifiers stay below the counter, and
    /// occupied slots hold a value.
    pub closed spec fn wf(self) -> bool {
        &&& self.free@.no_duplicates()
        &&& (forall|k: int|
            0 <= k < self.free@.len() ==> #[trigger] self.free@[k] < self.slots@.len())
        &&& (forall|k: int|
            0 <= k < self.free@.len() ==> self.slots@[#[trigger] self.free@[k] as int].data
                is None)
        &&& (forall|id: u64|
            #[trigger] self.id_to_slot@.dom().contains(id) ==> id < self.next_id)
        &&& (forall|id: u64|
            #[trigger] self.id_to_slot@.dom().contains(id) ==> self.id_to_slot@[id]
                < self.slots@.len())
        &&& (forall|id: u64|
            #[trigger] self.id_to_slot@.dom().contains(id)
                ==> self.slots@[self.id_to_slot@[id] as int].data is Some)
        &&& (forall|id: u64|
            #[trigger] self.id_to_slot@.dom().contains(id) ==> !self.free@.contains(
                self.id_to_slot@[id],
            ))
        &&& (forall|id1: u64, id2: u64|
            self.id_to_slot@.dom().contains(id1) && self.id_to_slot@.dom().contains(id2) && id1
                != id2 ==> #[trigger] self.id_to_slot@[id1] != #[trigger] self.id_to_slot@[id2])
        &&& self.free@.len() + self.id_to_slot@.len() == self.slots@.len()
    }

    /// Number of slots, fixed at construction.
    pub closed spec fn capacity(self) -> nat {
        self.slots@.len()
    }

    /// Identifiers already handed out lie strictly below this bound.
    pub closed spec fn id_bound(self) -> u64 {
        self.next_id
    }

    /// Create a store with the given number of slots and no live handles.
    pub fn new(capacity: usize) -> (s: Self)
        ensures
            s.wf(),
            s@ == Map::<u64, T>::empty(),
            s.capacity() == capacity,
            s.id_bound() == 0,
    {
        let mut slots: Vec<ChannelSlot<T>> = Vec::new();
        let mut i: usize = 0;
        while i < capacity
            invariant
                i <= capacity,
                slots@.len() == i,
                forall|k: int| 0 <= k < i ==> slots@[k].data is None,
            decreases capacity - i,
        {
            slots.push(ChannelSlot::new());
            i = i + 1;
        }
        let mut free: Vec<usize> = Vec::new();
        let mut j: usize = capacity;
        while j > 0
            invariant
                j <= capacity,
                free@.len() == capacity - j,
                forall|k: int| 0 <= k < free@.len() ==> #[trigger] free@[k] == capacity - 1 - k,
            decreases j,
        {
            j = j - 1;
            free.push(j);
        }
        let s = ChannelSlab { slots, free, next_id: 0, id_to_slot: HashMap::new() };
        proof {
            assert forall|p: int, q: int|
                0 <= p < s.free@.len() && 0 <= q < s.free@.len() && p != q implies s.free@[p]
                != s.free@[q] by {
                assert(s.free@[p] == capacity - 1 - p);
                assert(s.free@[q] == capacity - 1 - q);
            }
            assert(s@ =~= Map::<u64, T>::empty());
        }
        s
    }

    /// Insert an item; returns its fresh identifier, or `None` when every
    /// slot is taken.
    pub fn insert(&mut self, item: T) -> (r: Option<u64>)
        requires
            old(self).wf(),
        ensures
            final(self).wf(),
            final(self).capacity() == old(self).capacity(),
            match r {
                Some(id) => {
                    &&& old(self)@.len() < old(self).capacity()
                    &&& old(self).id_bound() < u64::MAX
                    &&& id == old(self).id_bound()
                    &&& !old(self)@.dom().contains(id)
                    &&& final(self)@ == old(self)@.insert(id, item)
                    &&& final(self).id_bound() == old(self).id_bound() + 1
                },
                None => {
                    &&& (old(self)@.len() == old(self).capacity() || old(self).id_bound()
                        == u64::MAX)
                    &&& final(self)@ == old(self)@
                    &&& final(self).id_bound() == old(self).id_bound()
                },
            },
    {
        proof {
            assert(self@.dom() =~= self.id_to_slot@.dom());
        }
        if self.next_id == u64::MAX {
            return None;
        }
        match self.free.pop() {
            None => {
                proof {
                    assert(self@ =~= old(self)@);
                }
                None
            },
            Some(slot_idx) => {
                let id = self.next_id;
                self.next_id = self.next_id + 1;
                self.slots[slot_idx] = ChannelSlot::new_with(item);
                self.id_to_slot.insert(id, slot_idx);
                proof {
                    let oldm = old(self).id_to_slot@;
                    assert(!oldm.dom().contains(id));
                    assert(self.id_to_slot@.dom() =~= oldm.dom().insert(id));
                    assert(old(self).free@.contains(slot_idx)) by {
                        assert(old(self).free@[old(self).free@.len() - 1] == slot_idx);
                    }
                    assert forall|x: usize| self.free@.contains(x) implies old(self).free@.contains(x)
                        && x != slot_idx by {
                        let k = choose|k: int|
                            0 <= k < self.free@.len() && self.free@[k] == x;
                        assert(old(self).free@[k] == x);
                    }
                    assert(self@ =~= old(self)@.insert(id, item));
                    assert(self.wf());
                    assert(old(self)@.len() == oldm.len()) by {
                        assert(old(self)@.dom() =~= oldm.dom());
                    }

                    assert(self@.len() == self.id_to_slot@.len()) by {
                        assert(self@.dom() =~= self.id_to_slot@.dom());
                    }
                }
                Some(id)
            },
        }
    }

    /// Slot index of a live identifier.
    fn get_slot_idx(&self, id: u64) -> (r: Option<usize>)
        requires
            self.wf(),
        ensures
            match r {
                Some(idx) => self.id_to_slot@.dom().contains(id) && idx == self.id_to_slot@[id],
                None => !self.id_to_slot@.dom().contains(id),
            },
    {
        match self.id_to_slot.get(&id) {
            Some(idx) => Some(*idx),
            None => None,
        }
    }

    /// Run a read-only function over the channel behind `id`; `None` when
    /// the identifier is not live.
    pub fn with_channel<F: FnOnce(&T) -> R, R>(&self, id: u64, f: F) -> (r: Option<R>)
        requires
            self.wf(),
            forall|t: &T| #[trigger] call_requires(f, (t,)),
        ensures
            match r {
                Some(res) => self@.dom().contains(id) && call_ensures(f, (&self@[id],), res),
                None => !self@.dom().contains(id),
            },
    {
        proof {
            assert(self@.dom() =~= self.id_to_slot@.dom());
        }
        match self.get_slot_idx(id) {
            None => None,
            Some(slot_idx) => {
                match &self.slots[slot_idx].data {
                    Some(channel) => {
                        assert(*channel == self@[id]);
                        Some(f(channel))
                    },
                    None => None,
                }
            },
        }
    }

    /// Run an updating function over the channel behind `id`: the function
    /// consumes the stored value and hands back its replacement together
    /// with a result.  `None` when the identifier is not live.
    pub fn with_channel_mut<F: FnOnce(T) -> (T, R), R>(&mut self, id: u64, f: F) -> (r: Option<
        R,
    >)
        requires
            old(self).wf(),
            forall|t: T| #[trigger] call_requires(f, (t,)),
        ensures
            final(self).wf(),
            final(self).capacity() == old(self).capacity(),
            final(self).id_bound() == old(self).id_bound(),
            r is Some ==> old(self)@.dom().contains(id),
            r is Some ==> exists|t2: T, res: R|
                #[trigger] call_ensures(f, (old(self)@[id],), (t2, res)) && r == Some(res)
                    && final(self)@ == old(self)@.insert(id, t2),
            r is None ==> !old(self)@.dom().contains(id) && final(self)@ == old(self)@,
    {
        proof {
            assert(self@.dom() =~= self.id_to_slot@.dom());
        }
        match self.get_slot_idx(id) {
            None => None,
            Some(slot_idx) => {
                let slot = &mut self.slots[slot_idx];
                let item_opt = slot.data.take();
                match item_opt {
                    Some(channel) => {
                        assert(channel == old(self)@[id]);
                        let (channel2, res) = f(channel);
                        let ghost stored = channel2;
                        proof {
                            assert(call_ensures(f, (old(self)@[id],), (stored, res)));
                        }
                        self.slots[slot_idx] = ChannelSlot::new_with(channel2);
                        proof {
                            assert(self@ =~= old(self)@.insert(id, stored));
                            assert(self.wf());
                            assert(exists|t2: T|
                                #[trigger] call_ensures(f, (old(self)@[id],), (t2, res))
                                    && self@ == old(self)@.insert(id, t2));
                        }
                        Some(res)
                    },
                    None => {
                        proof {
                            assert(false);
                        }
                        None
                    },
                }
            },
        }
    }

    /// Remove the channel behind `id` and free its slot; the identifier is
    /// spent and will never be handed out again.
    pub fn remove(&mut self, id: u64) -> (r: Option<T>)
        requires
            old(self).wf(),
        ensures
            final(self).wf(),
            final(self).capacity() == old(self).capacity(),
            final(self).id_bound() == old(self).id_bound(),
            match r {
                Some(v) => {
                    &&& old(self)@.dom().contains(id)
                    &&& v == old(self)@[id]
                    &&& final(self)@ == old(self)@.remove(id)
                },
                None => !old(self)@.dom().contains(id) && final(self)@ == old(self)@,
            },
    {
        proof {
            assert(self@.dom() =~= self.id_to_slot@.dom());
        }
        match self.id_to_slot.remove(&id) {
            None => {
                proof {
                    assert(self@ =~= old(self)@);
                }
                None
            },
            Some(slot_idx) => {
                let slot = &mut self.slots[slot_idx];
                let item_opt = slot.data.take();
                match item_opt {
                    Some(item) => {
                        self.free.push(slot_idx);
                        proof {
                            assert(self.id_to_slot@.dom() =~= old(self).id_to_slot@.dom().remove(
                                id,
                            ));
                            assert forall|x: usize| self.free@.contains(x) implies old(self).free@.contains(x)
                                || x == slot_idx by {
                                let k = choose|k: int|
                                    0 <= k < self.free@.len() && self.free@[k] == x;
                                if k < self.free@.len() - 1 {
                                    assert(old(self).free@[k] == x);
                                }
                            }
                            assert forall|x: usize| old(self).free@.contains(x) implies self
                                .free@.contains(x) by {
                                let k = choose|k: int|
                                    0 <= k < old(self).free@.len() && old(self).free@[k] == x;
                                assert(self.free@[k] == x);
                            }
                            assert(self@ =~= old(self)@.remove(id));
                            assert(self.wf());
                        }
                        Some(item)
                    },
                    None => {
                        proof {
                            assert(false);
                        }
                        None
                    },
                }
            },
        }
    }

    /// Number of live handles.
    pub fn count(&self) -> (r: usize)
        requires
            self.wf(),
        ensures
            r == self@.len(),
    {
        proof {
            assert(self@.dom() =~= self.id_to_slot@.dom());
        }
        self.id_to_slot.len()
    }
}

/// Freshness of handle identifiers: every live identifier lies strictly
/// below the store's identifier bound.  Since `insert` returns exactly the
/// bound and then moves it up, while no other operation moves it down, an
/// identifier handed out once is never handed out again — even when its
/// slot is reused.
pub proof fn lemma_live_ids_below_bound<T>(s: ChannelSlab<T>, id: u64)
    requires
        s.wf(),
        s@.dom().contains(id),
    ensures
        id < s.id_bound(),
{
    assert(s@.dom() =~= s.id_to_slot@.dom());
}

} // verus!
