//! A process-wide instance map, modelled explicitly: handles are allocated
//! from a monotonic counter and each maps to one live instance.  The
//! unverified side wraps one registry in a lock and converts a poisoned
//! lock into an ordinary error, so a failed operation never disables the
//! whole session.

use vstd::prelude::*;
use std::collections::HashMap;

verus! {

broadcast use vstd::std_specs::hash::group_hash_axioms;

/// A registry of live instances keyed by numeric handle.
pub struct InstanceRegistry<T> {
    map: HashMap<u32, T>,
    next_id: u32,
}

impl<T> InstanceRegistry<T> {
    /// The live instances by handle.
    pub closed spec fn spec_map(&self) -> Map<u32, T> {
        self.map@
    }

    /// The next handle the registry will allocate.
    pub closed spec fn spec_next(&self) -> u32 {
        self.next_id
    }

    /// Handles start at 1 and every live handle was allocated before the
    /// counter reached its current value, so the next allocation is fresh.
    pub closed spec fn wf(&self) -> bool {
        &&& self.next_id >= 1
        &&& forall|k: u32| self.map@.contains_key(k) ==> 1 <= k < self.next_id
    }

    /// An empty registry whose first handle is 1.
    pub fn new() -> (r: InstanceRegistry<T>)
        ensures
            r.wf(),
            r.spec_map() == Map::<u32, T>::empty(),
            r.spec_next() == 1u32,
    {
        let r = InstanceRegistry { map: HashMap::new(), next_id: 1 };
        proof {
            assert(r.map@ =~= Map::<u32, T>::empty());
        }
        r
    }

    /// Stores an instance under a fresh handle and returns the handle.
    pub fn create(&mut self, value: T) -> (h: u32)
        requires
            old(self).wf(),
            old(self).spec_next() < u32::MAX,
        ensures
            final(self).wf(),
            h == old(self).spec_next(),
            !old(self).spec_map().contains_key(h),
            final(self).spec_map() == old(self).spec_map().insert(h, value),
            final(self).spec_next() == old(self).spec_next() + 1,
    {
        let id = self.next_id;
        self.next_id = self.next_id + 1;
        self.map.insert(id, value);
        id
    }

    /// Whether a handle maps to a live instance.
    pub fn contains(&self, handle: &u32) -> (r: bool)
        ensures
            r == self.spec_map().contains_key(*handle),
    {
        self.map.contains_key(handle)
    }

    /// Removes the handle's instance, if any; the handle is dead afterwards
    /// either way.
    pub fn dispose(&mut self, handle: &u32)
        requires
            old(self).wf(),
        ensures
            final(self).wf(),
            final(self).spec_map() == old(self).spec_map().remove(*handle),
            final(self).spec_next() == old(self).spec_next(),
    {
        self.map.remove(handle);
    }

    /// Takes the handle's instance out for exclusive use, leaving the
    /// handle temporarily unmapped; `None` reports an unknown handle and
    /// leaves the registry unchanged.
    pub fn take(&mut self, handle: &u32) -> (r: Option<T>)
        requires
            old(self).wf(),
        ensures
            final(self).wf(),
            final(self).spec_next() == old(self).spec_next(),
            match r {
                Some(v) => old(self).spec_map().contains_key(*handle) && v == old(
                    self,
                ).spec_map()[*handle] && final(self).spec_map() == old(self).spec_map().remove(
                    *handle,
                ),
                None => !old(self).spec_map().contains_key(*handle) && final(self).spec_map()
                    == old(self).spec_map(),
            },
    {
        let r = self.map.remove(handle);
        proof {
            if r is None {
                assert(self.map@ =~= old(self).map@);
            }
        }
        r
    }

    /// Puts an instance back under a handle the registry has already
    /// allocated, as after a `take`.
    pub fn restore(&mut self, handle: u32, value: T)
        requires
            old(self).wf(),
            1 <= handle < old(self).spec_next(),
        ensures
            final(self).wf(),
            final(self).spec_map() == old(self).spec_map().insert(handle, value),
            final(self).spec_next() == old(self).spec_next(),
    {
        self.map.insert(handle, value);
    }

    /// The number of live instances.
    pub fn len(&self) -> (r: usize)
        ensures
            r == self.spec_map().len(),
    {
        self.map.len()
    }
}

} // verus!
