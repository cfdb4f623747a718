//! Address-space model.
//!
//! ELF loading and page-table mechanics are collaborators: the loader hands
//! the kernel an address space, an entry point, and a user-stack base, and the
//! kernel only reads and writes bytes through it.  The model is therefore one
//! contiguous mapped range of bytes plus the no-allocate framebuffer mapping,
//! which borrows physical frames and is recorded as present or absent.

use vstd::prelude::*;

verus! {

pub const PAGE_SIZE: usize = 4096;

pub const USER_STACK_SIZE: usize = 8192;

/// Byte `k` (little-endian) of the 64-bit word `w`.
pub open spec fn le_byte(w: u64, k: int) -> u8 {
    ((w >> ((8 * k) as u64)) & 0xff) as u8
}

/// One process's address space: a contiguous mapped byte range, and whether
/// the framebuffer is currently mapped into it.
pub struct MemorySet {
    /// Lowest mapped virtual address.
    pub base: usize,
    /// The mapped bytes, `data[i]` at address `base + i`.
    pub data: Vec<u8>,
    /// A no-allocate mapping of the framebuffer pages is present.
    pub fb_mapped: bool,
}

impl MemorySet {
    pub open spec fn wf(&self) -> bool {
        self.base + self.data@.len() <= usize::MAX
    }

    /// Address `addr` is mapped.
    pub open spec fn contains(&self, addr: int) -> bool {
        self.base <= addr < self.base + self.data@.len()
    }

    /// The byte mapped at address `addr`.
    pub open spec fn byte_at(&self, addr: int) -> u8
        recommends
            self.contains(addr),
    {
        self.data@[addr - self.base]
    }

    /// Build an address space over `[base, base + data.len())`.
    pub fn from_raw(base: usize, data: Vec<u8>) -> (ms: MemorySet)
        requires
            base + data@.len() <= usize::MAX,
        ensures
            ms.wf(),
            ms.base == base,
            ms.data@ == data@,
            !ms.fb_mapped,
    {
        MemorySet { base, data, fb_mapped: false }
    }

    /// Duplicate an address space by full copy — the `fork` path.  The copy
    /// maps the same range with the same bytes; no copy-on-write.
    pub fn from_existed_user(other: &MemorySet) -> (ms: MemorySet)
        ensures
            ms.base == other.base,
            ms.data@ == other.data@,
            ms.fb_mapped == other.fb_mapped,
    {
        let mut data: Vec<u8> = Vec::new();
        let mut i: usize = 0;
        while i < other.data.len()
            invariant
                i <= other.data@.len(),
                data@ == other.data@.take(i as int),
            decreases other.data@.len() - i,
        {
            data.push(other.data[i]);
            i = i + 1;
            proof {
                assert(data@ =~= other.data@.take(i as int));
            }
        }
        proof {
            assert(data@ =~= other.data@);
        }
        MemorySet { base: other.base, data, fb_mapped: other.fb_mapped }
    }

    pub fn read_byte(&self, addr: usize) -> (b: u8)
        requires
            self.contains(addr as int),
        ensures
            b == self.byte_at(addr as int),
    {
        self.data[addr - self.base]
    }

    pub fn write_byte(&mut self, addr: usize, v: u8)
        requires
            old(self).contains(addr as int),
        ensures
            final(self).base == old(self).base,
            final(self).fb_mapped == old(self).fb_mapped,
            final(self).data@ == old(self).data@.update(addr - old(self).base, v),
            final(self).byte_at(addr as int) == v,
            forall|a: int|
                old(self).contains(a) && a != addr ==> final(self).byte_at(a) == old(
                    self,
                ).byte_at(a),
    {
        let i = addr - self.base;
        self.data.set(i, v);
    }

    /// Record the no-allocate mapping of the framebuffer pages: the physical
    /// frames are borrowed from the GPU driver, not owned by the mapping, so
    /// nothing is copied — the mapping is present from here on.
    pub fn push_noalloc(&mut self)
        requires
            !old(self).fb_mapped,
        ensures
            final(self).fb_mapped,
            final(self).base == old(self).base,
            final(self).data@ == old(self).data@,
    {
        self.fb_mapped = true;
    }

    /// Write the 64-bit word `w` at `addr`, little-endian, as the
    /// virtual-address-aware byte writes of the trap path do.
    pub fn write_word(&mut self, addr: usize, w: u64)
        requires
            old(self).wf(),
            old(self).contains(addr as int),
            old(self).contains(addr + 7),
        ensures
            final(self).base == old(self).base,
            final(self).fb_mapped == old(self).fb_mapped,
            final(self).data@.len() == old(self).data@.len(),
            forall|k: int| 0 <= k < 8 ==> final(self).byte_at(addr + k) == le_byte(w, k),
            forall|a: int|
                old(self).contains(a) && !(addr <= a < addr + 8) ==> final(self).byte_at(a) == old(
                    self,
                ).byte_at(a),
    {
        let mut k: usize = 0;
        while k < 8
            invariant
                k <= 8,
                self.base == old(self).base,
                self.fb_mapped == old(self).fb_mapped,
                self.data@.len() == old(self).data@.len(),
                self.wf(),
                old(self).contains(addr as int),
                old(self).contains(addr + 7),
                forall|j: int| 0 <= j < k ==> self.byte_at(addr + j) == le_byte(w, j),
                forall|a: int|
                    old(self).contains(a) && !(addr <= a < addr + k) ==> self.byte_at(a) == old(
                        self,
                    ).byte_at(a),
            decreases 8 - k,
        {
            let sh: u64 = 8 * (k as u64);
            proof {
                assert((w >> sh) & 0xff < 256) by (bit_vector);
            }
            let b: u8 = ((w >> sh) & 0xff) as u8;
            self.write_byte(addr + k, b);
            k = k + 1;
        }
    }
}

/// What the loader collaborator produces: an address space with the program
/// mapped, the entry point, and the base of the user-stack area.  The stack
/// area of thread 0 is mapped in full.
pub struct LoadedImage {
    pub memory_set: MemorySet,
    pub ustack_base: usize,
    pub entry_point: usize,
}

impl LoadedImage {
    pub open spec fn wf(&self) -> bool {
        &&& self.memory_set.wf()
        &&& self.ustack_base + USER_STACK_SIZE <= usize::MAX
        &&& self.memory_set.contains(self.ustack_base as int)
        &&& self.memory_set.contains(self.ustack_base + USER_STACK_SIZE - 1)
    }
}

/// Law: address spaces duplicated by full copy stay isolated.  At the copy
/// the child maps the same bytes as the parent; a later write in the child
/// changes exactly one byte of the child and no byte of the parent (and
/// symmetrically, since the two are separate states from the copy on).
pub proof fn lemma_fork_write_isolation(
    parent: MemorySet,
    child: MemorySet,
    addr: usize,
    v: u8,
)
    requires
        child.base == parent.base,
        child.data@ == parent.data@,
        child.contains(addr as int),
    ensures
        forall|a: int| parent.contains(a) ==> child.byte_at(a) == parent.byte_at(a),
        ({
            let written = child.data@.update(addr - child.base, v);
            &&& written[addr - child.base] == v
            &&& forall|a: int|
                parent.contains(a) && a != addr ==> written[a - parent.base] == parent.byte_at(a)
            &&& parent.data@ == child.data@
        }),
{
}

} // verus!
