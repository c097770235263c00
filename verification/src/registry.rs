//! Generation-counted resource tables.
//!
//! Long-lived protocol resources (surfaces, outputs, input devices) are owned
//! by an external protocol layer and can be destroyed between the moment a
//! reference is captured and the moment it is used.  A [`Handle`] is a weak
//! reference: an index into a [`Registry`] plus the generation the slot had
//! when the entry was created.  Every access re-validates the generation, so
//! a handle to a destroyed resource fails cleanly instead of dangling.
//!
//! A registry is abstracted as a `Map<Handle, T>` of its live entries.

use vstd::prelude::*;

verus! {

/// A weak reference to one registry entry.
///
/// A handle built by [`Handle::null`] (generation zero) never names a live
/// entry, because entries are created with generation one or above.
#[derive(Clone, Copy, Debug, PartialEq, Eq, Structural)]
pub struct Handle {
    pub index: usize,
    pub generation: u64,
}

impl Handle {
    /// A placeholder handle that no registry lookup will ever accept.
    pub fn null() -> (h: Handle)
        ensures
            h == Self::null_spec(),
    {
        Handle { index: 0, generation: 0 }
    }

    pub open spec fn null_spec() -> Handle {
        Handle { index: 0, generation: 0 }
    }
}

struct Slot<T> {
    generation: u64,
    value: Option<T>,
}

/// An index-addressed table of resources with per-slot generation counters.
///
/// Destroying an entry bumps its slot's generation, so every handle that
/// pointed at the entry becomes invalid forever; a slot may later be reused
/// for a fresh entry under a higher generation.
pub struct Registry<T> {
    slots: Vec<Slot<T>>,
}

impl<T> Registry<T> {
    /// Is `h` a live entry of this table?  Used through the table's map view.
    spec fn slot_valid(self, h: Handle) -> bool {
        &&& h.index < self.slots@.len()
        &&& self.slots@[h.index as int].generation == h.generation
        &&& self.slots@[h.index as int].value is Some
    }

    /// Does `h` currently name a live entry?
    pub open spec fn valid_handle(self, h: Handle) -> bool {
        self@.dom().contains(h)
    }

    /// An empty table: no handle is valid.
    pub fn new() -> (r: Registry<T>)
        ensures
            r@ == Map::<Handle, T>::empty(),
    {
        let r = Registry { slots: Vec::new() };
        proof {
            assert(r@ =~= Map::<Handle, T>::empty());
        }
        r
    }

    /// Creates an entry and returns a fresh handle to it.  Every handle that
    /// was valid before stays valid and keeps its value; the new handle was
    /// not valid before the call.
    pub fn insert(&mut self, value: T) -> (h: Handle)
        ensures
            !old(self)@.dom().contains(h),
            final(self)@ == old(self)@.insert(h, value),
            h.generation >= 1,
    {
        let ghost pre = *self;
        let h = match self.find_free_slot() {
            Some(i) => {
                let g: u64 = self.slots[i].generation + 1;
                self.slots.set(i, Slot { generation: g, value: Some(value) });
                Handle { index: i, generation: g }
            },
            None => {
                let i = self.slots.len();
                self.slots.push(Slot { generation: 1, value: Some(value) });
                Handle { index: i, generation: 1 }
            },
        };
        proof {
            assert(self@ =~= pre@.insert(h, value));
        }
        h
    }

    /// A destroyed slot whose generation counter has room to grow, if any.
    fn find_free_slot(&self) -> (r: Option<usize>)
        ensures
            match r {
                Some(i) => i < self.slots@.len() && self.slots@[i as int].value is None
                    && self.slots@[i as int].generation < u64::MAX,
                None => true,
            },
    {
        let n = self.slots.len();
        let mut i: usize = 0;
        while i < n
            invariant
                n == self.slots@.len(),
                i <= n,
            decreases n - i,
        {
            if self.slots[i].value.is_none() && self.slots[i].generation < u64::MAX {
                return Some(i);
            }
            i = i + 1;
        }
        None
    }

    /// Scoped access: the entry behind `h`, or `None` once the resource is
    /// gone.
    pub fn get(&self, h: Handle) -> (r: Option<&T>)
        ensures
            match r {
                Some(v) => self@.dom().contains(h) && *v == self@[h],
                None => !self@.dom().contains(h),
            },
    {
        if h.index < self.slots.len() {
            let slot = &self.slots[h.index];
            if slot.generation == h.generation {
                slot.value.as_ref()
            } else {
                None
            }
        } else {
            None
        }
    }

    /// Is the resource behind `h` still alive?
    pub fn contains(&self, h: Handle) -> (b: bool)
        ensures
            b == self@.dom().contains(h),
    {
        self.get(h).is_some()
    }

    /// Replaces the value behind a live handle; does nothing for a dead one.
    pub fn update(&mut self, h: Handle, value: T) -> (ok: bool)
        ensures
            ok == old(self)@.dom().contains(h),
            ok ==> final(self)@ == old(self)@.insert(h, value),
            !ok ==> *final(self) == *old(self),
    {
        let ghost pre = *self;
        if h.index < self.slots.len() {
            let generation = self.slots[h.index].generation;
            let live = self.slots[h.index].value.is_some();
            if generation == h.generation && live {
                self.slots.set(h.index, Slot { generation: h.generation, value: Some(value) });
                proof {
                    assert(self@ =~= pre@.insert(h, value));
                }
                return true;
            }
        }
        false
    }

    /// Destroys the entry behind `h`.  Afterwards `h` (and every other handle
    /// to the entry) is invalid forever; all other entries are untouched.
    pub fn destroy(&mut self, h: Handle) -> (ok: bool)
        ensures
            ok == old(self)@.dom().contains(h),
            final(self)@ == old(self)@.remove(h),
            !ok ==> *final(self) == *old(self),
    {
        let ghost pre = *self;
        if h.index < self.slots.len() {
            let generation = self.slots[h.index].generation;
            let live = self.slots[h.index].value.is_some();
            if generation == h.generation && live {
                let g: u64 = if h.generation < u64::MAX {
                    h.generation + 1
                } else {
                    h.generation
                };
                self.slots.set(h.index, Slot { generation: g, value: None });
                proof {
                    assert(self@ =~= pre@.remove(h));
                }
                return true;
            }
        }
        proof {
            assert(self@ =~= pre@.remove(h));
        }
        false
    }
}

impl<T> View for Registry<T> {
    type V = Map<Handle, T>;

    /// The live entries, keyed by their handles.
    closed spec fn view(&self) -> Map<Handle, T> {
        Map::new(|h: Handle| self.slot_valid(h), |h: Handle| self.slots@[h.index as int].value->Some_0)
    }
}

} // verus!
