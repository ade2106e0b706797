//! The instance registry: identifiers minted by a monotonic counter, and a
//! map from live identifiers to the native handles they name.

use std::collections::HashMap;
use vstd::prelude::*;

verus! {

broadcast use vstd::std_specs::hash::group_hash_axioms;

/// One past the largest identifier that can ever be issued.
pub open spec fn id_space() -> nat {
    0x1_0000_0000
}

/// Owns every live window handle of one execution context.
///
/// Identifiers are issued in increasing order, starting at zero, and are
/// never reused: the counter is not rewound when a window is exited.
pub struct Registry<H> {
    next: u64,
    map: HashMap<u32, H>,
}

impl<H> Registry<H> {
    /// Number of identifiers issued so far; the next one to be issued.
    pub closed spec fn issued(&self) -> nat {
        self.next as nat
    }

    /// The live entries: identifiers whose windows were created and not exited.
    pub closed spec fn live(&self) -> Map<u32, H> {
        self.map@
    }

    /// Every live identifier was issued, and the counter never passes the
    /// identifier space.
    pub closed spec fn wf(&self) -> bool {
        &&& self.next <= id_space()
        &&& forall|id: u32| #[trigger] self.map@.contains_key(id) ==> (id as nat) < self.next
    }

    /// True while another identifier can be issued.
    pub open spec fn can_allocate_spec(&self) -> bool {
        self.issued() < id_space()
    }

    /// An empty registry that has issued nothing.
    pub fn new() -> (r: Self)
        ensures
            r.wf(),
            r.issued() == 0,
            r.live().is_empty(),
    {
        Registry { next: 0, map: HashMap::new() }
    }

    /// An identifier that has not been issued names no live window.
    pub proof fn lemma_unissued_not_live(&self, id: u32)
        requires
            self.wf(),
            (id as nat) >= self.issued(),
        ensures
            !self.live().contains_key(id),
    {
    }

    /// Whether [`Registry::allocate`] will succeed.
    pub fn can_allocate(&self) -> (r: bool)
        requires
            self.wf(),
        ensures
            r == self.can_allocate_spec(),
    {
        self.next < 0x1_0000_0000
    }

    /// Issues the next identifier: the number of identifiers issued before.
    /// Returns `None` only once all `u32` values have been issued.
    pub fn allocate(&mut self) -> (r: Option<u32>)
        requires
            old(self).wf(),
        ensures
            final(self).wf(),
            final(self).live() == old(self).live(),
            old(self).can_allocate_spec() <==> r.is_some(),
            match r {
                Some(id) => {
                    &&& id as nat == old(self).issued()
                    &&& final(self).issued() == old(self).issued() + 1
                    &&& !old(self).live().contains_key(id)
                },
                None => final(self).issued() == old(self).issued(),
            },
    {
        if self.next < 0x1_0000_0000 {
            let id = self.next as u32;
            self.next = self.next + 1;
            Some(id)
        } else {
            None
        }
    }

    /// Records that `id` names `handle`, replacing any earlier entry.
    pub fn insert(&mut self, id: u32, handle: H)
        requires
            old(self).wf(),
            (id as nat) < old(self).issued(),
        ensures
            final(self).wf(),
            final(self).issued() == old(self).issued(),
            final(self).live() == old(self).live().insert(id, handle),
    {
        self.map.insert(id, handle);
    }

    /// Whether `id` names a live window.
    pub fn contains(&self, id: u32) -> (r: bool)
        requires
            self.wf(),
        ensures
            r == self.live().contains_key(id),
    {
        self.map.contains_key(&id)
    }

    /// Takes the entry of `id` out of the registry, handing its handle to
    /// the caller; `None` where `id` names no live window.
    pub fn remove(&mut self, id: u32) -> (r: Option<H>)
        requires
            old(self).wf(),
        ensures
            final(self).wf(),
            final(self).issued() == old(self).issued(),
            final(self).live() == old(self).live().remove(id),
            match r {
                Some(h) => old(self).live().contains_key(id) && h == old(self).live()[id],
                None => !old(self).live().contains_key(id),
            },
    {
        self.map.remove(&id)
    }
}

impl<H: Copy> Registry<H> {
    /// The handle that `id` names, if `id` names a live window.
    pub fn get(&self, id: u32) -> (r: Option<H>)
        requires
            self.wf(),
        ensures
            match r {
                Some(h) => self.live().contains_key(id) && h == self.live()[id],
                None => !self.live().contains_key(id),
            },
    {
        match self.map.get(&id) {
            Some(h) => Some(*h),
            None => None,
        }
    }
}

} // verus!
