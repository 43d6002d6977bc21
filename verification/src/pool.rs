//! A generation-checked arena.
//!
//! Entries live in a dense vector of slots; a `Handle` carries the slot
//! index and the generation the slot had when the entry was spawned. A
//! handle resolves only while its slot still holds an entry of the same
//! generation, so a stale handle reads as "absent" instead of aliasing a
//! later entry. Generation zero is reserved for the null handle.

use vstd::prelude::*;

verus! {

/// A generation-checked reference into a `Pool`, or the null handle.
#[derive(Clone, Copy, PartialEq, Eq, Structural, Debug)]
pub struct Handle {
    pub index: u32,
    pub generation: u32,
}

impl Handle {
    /// The handle that refers to nothing.
    pub open spec fn spec_none() -> Handle {
        Handle { index: 0u32, generation: 0u32 }
    }

    /// True when the handle is the null handle.
    pub open spec fn spec_is_none(self) -> bool {
        self.generation == 0
    }

    /// The handle that refers to nothing.
    pub fn none() -> (h: Handle)
        ensures
            h == Handle::spec_none(),
    {
        Handle { index: 0, generation: 0 }
    }

    /// True when the handle is the null handle.
    pub fn is_none(&self) -> (r: bool)
        ensures
            r == self.spec_is_none(),
    {
        self.generation == 0
    }

    /// True when the handle may refer to a pool entry.
    pub fn is_some(&self) -> (r: bool)
        ensures
            r == !self.spec_is_none(),
    {
        self.generation != 0
    }
}

/// One arena slot: its current generation and, when occupied, its entry.
pub struct Slot<T> {
    pub generation: u32,
    pub payload: Option<T>,
}

/// A dense arena addressed by generation-checked handles.
pub struct Pool<T> {
    pub slots: Vec<Slot<T>>,
}

impl<T> Pool<T> {
    /// Number of slots, occupied or not.
    pub open spec fn spec_len(self) -> int {
        self.slots@.len() as int
    }

    /// True when slot `k` holds an entry.
    pub open spec fn occupied(self, k: int) -> bool {
        0 <= k < self.slots@.len() && self.slots@[k].payload is Some
    }

    /// The entry in slot `k`.
    pub open spec fn payload_at(self, k: int) -> T
        recommends
            self.occupied(k),
    {
        self.slots@[k].payload->0
    }

    /// The generation of slot `k`.
    pub open spec fn gen_at(self, k: int) -> u32
        recommends
            0 <= k < self.slots@.len(),
    {
        self.slots@[k].generation
    }

    /// True when `h` refers to a live entry of this pool.
    pub open spec fn valid(self, h: Handle) -> bool {
        &&& h.generation != 0
        &&& (h.index as int) < self.slots@.len()
        &&& self.slots@[h.index as int].generation == h.generation
        &&& self.slots@[h.index as int].payload is Some
    }

    /// The entry `h` refers to, or `None` for a stale, null or
    /// out-of-range handle.
    pub open spec fn spec_resolve(self, h: Handle) -> Option<T> {
        if self.valid(h) {
            Some(self.payload_at(h.index as int))
        } else {
            None
        }
    }

    /// First slot a spawn would reuse: empty, with a generation that can
    /// still grow.
    pub open spec fn spec_first_free_from(self, k: int) -> Option<int>
        decreases self.spec_len() - k,
    {
        if k < 0 || k >= self.spec_len() {
            None
        } else if self.slots@[k].payload is None && self.slots@[k].generation < u32::MAX {
            Some(k)
        } else {
            self.spec_first_free_from(k + 1)
        }
    }

    /// An empty pool.
    pub fn new() -> (p: Pool<T>)
        ensures
            p.slots@.len() == 0,
    {
        Pool { slots: Vec::new() }
    }

    /// Number of slots, occupied or not.
    pub fn slot_count(&self) -> (n: usize)
        ensures
            n == self.slots@.len(),
    {
        self.slots.len()
    }

    /// True when slot `i` holds an entry.
    pub fn has_at(&self, i: usize) -> (r: bool)
        ensures
            r == self.occupied(i as int),
    {
        i < self.slots.len() && self.slots[i].payload.is_some()
    }

    /// Borrows the entry in slot `i`.
    pub fn at(&self, i: usize) -> (r: &T)
        requires
            self.occupied(i as int),
        ensures
            *r == self.payload_at(i as int),
    {
        match &self.slots[i].payload {
            Some(p) => p,
            None => unreached(),
        }
    }

    /// Mutably borrows the entry in slot `i`.
    pub fn at_mut(&mut self, i: usize) -> (r: &mut T)
        requires
            old(self).occupied(i as int),
        ensures
            *r == old(self).payload_at(i as int),
            final(self).slots@ == old(self).slots@.update(
                i as int,
                (Slot { generation: old(self).gen_at(i as int), payload: Some(*final(r)) }),
            ),
    {
        let slot = &mut self.slots[i];
        match &mut slot.payload {
            Some(p) => p,
            None => unreached(),
        }
    }

    /// The handle of the entry in slot `i`.
    pub fn handle_at(&self, i: usize) -> (h: Handle)
        requires
            i < self.slots@.len(),
            self.slots@.len() <= u32::MAX as usize,
        ensures
            h == (Handle { index: i as u32, generation: self.gen_at(i as int) }),
    {
        Handle { index: i as u32, generation: self.slots[i].generation }
    }

    /// Borrows the entry `h` refers to; a stale, null or out-of-range
    /// handle resolves to `None`.
    pub fn try_borrow(&self, h: Handle) -> (r: Option<&T>)
        ensures
            match r {
                Some(p) => self.valid(h) && *p == self.payload_at(h.index as int),
                None => !self.valid(h),
            },
    {
        if h.generation == 0 {
            return None;
        }
        let i = h.index as usize;
        if i >= self.slots.len() {
            return None;
        }
        let slot = &self.slots[i];
        if slot.generation != h.generation {
            return None;
        }
        match &slot.payload {
            Some(p) => Some(p),
            None => None,
        }
    }

    /// Stores `payload` in the first reusable slot, or in a new slot at
    /// the end, and returns its handle.
    #[verifier::loop_isolation(false)]
    pub fn spawn(&mut self, payload: T) -> (h: Handle)
        requires
            old(self).slots@.len() < u32::MAX as usize,
        ensures
            match old(self).spec_first_free_from(0) {
                Some(k) => {
                    &&& h == (Handle {
                        index: k as u32,
                        generation: (old(self).gen_at(k) + 1) as u32,
                    })
                    &&& final(self).slots@ == old(self).slots@.update(
                        k,
                        (Slot { generation: (old(self).gen_at(k) + 1) as u32, payload: Some(payload) }),
                    )
                },
                None => {
                    &&& h == (Handle { index: old(self).slots@.len() as u32, generation: 1u32 })
                    &&& final(self).slots@ == old(self).slots@.push(
                        (Slot { generation: 1u32, payload: Some(payload) }),
                    )
                },
            },
            final(self).valid(h),
            final(self).spec_resolve(h) == Some(payload),
    {
        let n = self.slots.len();
        let mut i: usize = 0;
        while i < n
            invariant
                i <= n,
                n == self.slots@.len(),
                *self == *old(self),
                old(self).spec_first_free_from(0) == old(self).spec_first_free_from(i as int),
            decreases n - i,
        {
            if self.slots[i].payload.is_none() && self.slots[i].generation < u32::MAX {
                proof {
                    assert(old(self).spec_first_free_from(i as int) == Some(i as int));
                }
                let generation = self.slots[i].generation + 1;
                self.slots[i] = Slot { generation, payload: Some(payload) };
                return Handle { index: i as u32, generation };
            }
            proof {
                assert(old(self).spec_first_free_from(i as int) == old(self).spec_first_free_from(
                    i + 1,
                ));
            }
            i += 1;
        }
        proof {
            assert(old(self).spec_first_free_from(n as int) is None);
        }
        self.slots.push(Slot { generation: 1, payload: Some(payload) });
        Handle { index: n as u32, generation: 1 }
    }

    /// Removes and returns the entry `h` refers to; a handle that does not
    /// resolve leaves the pool unchanged.
    pub fn free(&mut self, h: Handle) -> (r: Option<T>)
        ensures
            if old(self).valid(h) {
                &&& r == Some(old(self).payload_at(h.index as int))
                &&& final(self).slots@ == old(self).slots@.update(
                    h.index as int,
                    (Slot { generation: h.generation, payload: None }),
                )
            } else {
                &&& r is None
                &&& final(self).slots@ == old(self).slots@
            },
    {
        if h.generation == 0 {
            return None;
        }
        let i = h.index as usize;
        if i >= self.slots.len() {
            return None;
        }
        if self.slots[i].generation != h.generation {
            return None;
        }
        let slot = &mut self.slots[i];
        let taken = slot.payload.take();
        if taken.is_none() {
            proof {
                assert(self.slots@ =~= old(self).slots@);
            }
        }
        taken
    }
}

} // verus!
