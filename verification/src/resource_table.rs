//! The table that owns the alignment feedback filters of a process and
//! hands out the ids under which commands refer to them.

use std::collections::HashMap;
use vstd::prelude::*;

verus! {

broadcast use vstd::std_specs::hash::group_hash_axioms;

/// Resources under ids that rise by one with each resource added. The
/// table owns a resource from the moment it is added until it is removed,
/// and an id, once given out, is never given out again.
pub struct ResourceTable<T> {
    entries: HashMap<u32, T>,
    next_id: u32,
}

impl<T> View for ResourceTable<T> {
    type V = Map<u32, T>;

    closed spec fn view(&self) -> Map<u32, T> {
        self.entries@
    }
}

impl<T> ResourceTable<T> {
    /// Every id in use was given out before: it is below the next one.
    #[verifier::type_invariant]
    spec fn ids_below_next(self) -> bool {
        forall|id: u32| #[trigger] self.entries@.contains_key(id) ==> id < self.next_id
    }

    /// The id that the next resource added will get.
    pub closed spec fn next_id(&self) -> u32 {
        self.next_id
    }

    /// No id is left to give out.
    pub open spec fn is_full(&self) -> bool {
        self.next_id() == u32::MAX
    }

    /// An empty table, whose first id is `0`.
    pub fn new() -> (r: Self)
        ensures
            r@ == Map::<u32, T>::empty(),
            r.next_id() == 0,
    {
        ResourceTable { entries: HashMap::new(), next_id: 0 }
    }

    /// An empty table whose first id is `first_id`.
    pub fn starting_at(first_id: u32) -> (r: Self)
        ensures
            r@ == Map::<u32, T>::empty(),
            r.next_id() == first_id,
    {
        ResourceTable { entries: HashMap::new(), next_id: first_id }
    }

    /// Whether `add` would find no id to give out.
    pub fn full(&self) -> (r: bool)
        ensures
            r == self.is_full(),
    {
        self.next_id == u32::MAX
    }

    /// Takes ownership of `resource` and returns its id, the table's next
    /// id, which was never in use. A full table is left as it was and hands
    /// the resource back.
    pub fn add(&mut self, resource: T) -> (r: Result<u32, T>)
        ensures
            match r {
                Ok(id) => {
                    &&& !old(self).is_full()
                    &&& id == old(self).next_id()
                    &&& !old(self)@.contains_key(id)
                    &&& final(self)@ == old(self)@.insert(id, resource)
                    &&& final(self).next_id() == id + 1
                },
                Err(back) => {
                    &&& old(self).is_full()
                    &&& back == resource
                    &&& final(self)@ == old(self)@
                    &&& final(self).next_id() == old(self).next_id()
                },
            },
    {
        proof {
            use_type_invariant(&*self);
        }
        if self.next_id == u32::MAX {
            return Err(resource);
        }
        let id = self.next_id;
        // The map leaves the table while it changes, so that the table is
        // whole at every step.
        let mut entries: HashMap<u32, T> = HashMap::new();
        core::mem::swap(&mut self.entries, &mut entries);
        entries.insert(id, resource);
        self.next_id = id + 1;
        core::mem::swap(&mut self.entries, &mut entries);
        Ok(id)
    }

    /// The resource under `id`, if the table holds one. Only an id that
    /// `add` gave out can be in use.
    pub fn get(&self, id: u32) -> (r: Option<&T>)
        ensures
            match r {
                Some(resource) => {
                    &&& self@.contains_key(id)
                    &&& *resource == self@[id]
                    &&& id < self.next_id()
                },
                None => !self@.contains_key(id),
            },
    {
        proof {
            use_type_invariant(self);
        }
        self.entries.get(&id)
    }

    /// Gives up the resource under `id`, if the table holds one. The id
    /// stays spent.
    pub fn remove(&mut self, id: u32) -> (r: Option<T>)
        ensures
            final(self)@ == old(self)@.remove(id),
            final(self).next_id() == old(self).next_id(),
            match r {
                Some(resource) => old(self)@.contains_key(id) && resource == old(self)@[id],
                None => !old(self)@.contains_key(id),
            },
    {
        proof {
            use_type_invariant(&*self);
        }
        let mut entries: HashMap<u32, T> = HashMap::new();
        core::mem::swap(&mut self.entries, &mut entries);
        let removed = entries.remove(&id);
        core::mem::swap(&mut self.entries, &mut entries);
        removed
    }

    /// How many resources the table holds.
    pub fn len(&self) -> (r: usize)
        ensures
            r == self@.len(),
    {
        self.entries.len()
    }
}

} // verus!
