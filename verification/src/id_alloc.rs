//! Recycling id allocator for thread ids.
//!
//! Thread ids interact with fixed-offset user-stack and trap-context
//! placement, so they are reused densely: a freed id goes onto a free list
//! and is handed out again before the high-water counter grows.  (File
//! descriptors deliberately do not use this allocator — their holes must not
//! shift existing descriptor numbers — see the slot tables in the process
//! module.)

use vstd::prelude::*;

verus! {

pub struct RecycleAllocator {
    /// High-water mark: every id ever handed out is below it.
    current: usize,
    /// Freed ids available for reuse; all below `current`, no duplicates.
    recycled: Vec<usize>,
}

impl RecycleAllocator {
    pub closed spec fn wf(&self) -> bool {
        &&& forall|i: int|
            0 <= i < self.recycled@.len() ==> #[trigger] self.recycled@[i] < self.current
        &&& forall|i: int, j: int|
            0 <= i < j < self.recycled@.len() ==> self.recycled@[i] != self.recycled@[j]
    }

    /// An id counts as allocated when it has been handed out and not freed.
    pub closed spec fn allocated(&self, id: usize) -> bool {
        id < self.current && !self.recycled@.contains(id)
    }

    pub closed spec fn high_water(&self) -> int {
        self.current as int
    }

    pub fn new() -> (a: Self)
        ensures
            a.wf(),
            a.high_water() == 0,
            forall|id: usize| !a.allocated(id),
    {
        RecycleAllocator { current: 0, recycled: Vec::new() }
    }

    /// Hand out an id that is not currently allocated, preferring a recycled
    /// one.  Every other id keeps its allocation state.
    pub fn allocate(&mut self) -> (id: usize)
        requires
            old(self).wf(),
            old(self).high_water() < usize::MAX,
        ensures
            final(self).wf(),
            !old(self).allocated(id),
            final(self).allocated(id),
            forall|x: usize| x != id ==> final(self).allocated(x) == old(self).allocated(x),
            final(self).high_water() <= old(self).high_water() + 1,
            id < final(self).high_water(),
    {
        if let Some(id) = self.recycled.pop() {
            proof {
                let r = old(self).recycled@;
                assert(id == r[r.len() - 1]);
                assert(r.contains(id));
                assert(!self.recycled@.contains(id)) by {
                    if self.recycled@.contains(id) {
                        let k = choose|k: int|
                            0 <= k < self.recycled@.len() && self.recycled@[k] == id;
                        assert(r[k] == r[r.len() - 1]);
                        assert(false);
                    }
                }
                assert forall|x: usize| x != id implies self.allocated(x) == old(
                    self,
                ).allocated(x) by {
                    if r.contains(x) {
                        let k = choose|k: int| 0 <= k < r.len() && r[k] == x;
                        assert(k < r.len() - 1);
                        assert(self.recycled@[k] == x);
                    }
                    if self.recycled@.contains(x) {
                        let k = choose|k: int|
                            0 <= k < self.recycled@.len() && self.recycled@[k] == x;
                        assert(r[k] == x);
                    }
                }
            }
            id
        } else {
            let id = self.current;
            self.current = self.current + 1;
            proof {
                assert(old(self).recycled@ =~= self.recycled@);
            }
            id
        }
    }

    /// Return an id to the free list.  Freeing an id that is not allocated is
    /// a programming error and is excluded outright.
    pub fn deallocate(&mut self, id: usize)
        requires
            old(self).wf(),
            old(self).allocated(id),
        ensures
            final(self).wf(),
            !final(self).allocated(id),
            forall|x: usize| x != id ==> final(self).allocated(x) == old(self).allocated(x),
            final(self).high_water() == old(self).high_water(),
    {
        self.recycled.push(id);
        proof {
            let r = old(self).recycled@;
            assert(self.recycled@ == r.push(id));
            assert(self.recycled@[r.len() as int] == id);
            assert(self.recycled@.contains(id));
            assert forall|x: usize| x != id implies self.allocated(x) == old(
                self,
            ).allocated(x) by {
                if r.contains(x) {
                    let k = choose|k: int| 0 <= k < r.len() && r[k] == x;
                    assert(self.recycled@[k] == x);
                }
                if self.recycled@.contains(x) {
                    let k = choose|k: int| 0 <= k < self.recycled@.len() && self.recycled@[k] == x;
                    assert(k < r.len());
                    assert(r[k] == x);
                }
            }
        }
    }
}

} // verus!
