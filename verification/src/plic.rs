//! Platform-level interrupt controller: register layout arithmetic.
//!
//! The PLIC arbitrates device interrupts and reports, per (hart, priority
//! level) target, which source fired.  The claim/complete registers live in
//! MMIO space; the kernel core computes their addresses, and the actual
//! volatile accesses are a collaborator at the hardware edge.

use vstd::prelude::*;

verus! {

pub struct PLIC {
    pub base_addr: usize,
}

/// The two interrupt target priority levels a hart exposes.
#[derive(Clone, Copy, PartialEq, Eq, Structural, Debug)]
pub enum IntrTargetPriority {
    Machine,
    Supervisor,
}

impl IntrTargetPriority {
    /// Register-layout index of the priority level: machine targets come
    /// first within each hart's pair.
    pub open spec fn spec_index(self) -> int {
        match self {
            IntrTargetPriority::Machine => 0,
            IntrTargetPriority::Supervisor => 1,
        }
    }

    pub fn index(self) -> (i: usize)
        ensures
            i == self.spec_index(),
    {
        match self {
            IntrTargetPriority::Machine => 0,
            IntrTargetPriority::Supervisor => 1,
        }
    }

    /// How many priority levels each hart exposes.
    pub fn supported_number() -> (n: usize)
        ensures
            n == 2,
    {
        2
    }
}

impl PLIC {
    pub fn new(base_addr: usize) -> (plic: Self)
        ensures
            plic.base_addr == base_addr,
    {
        PLIC { base_addr }
    }

    /// Index of the (hart, priority) target in the PLIC's target list: the
    /// two priority levels of each hart sit next to each other.
    pub fn hart_id_with_priority(hart_id: usize, target_priority: IntrTargetPriority) -> (id:
        usize)
        requires
            hart_id * 2 + 1 <= usize::MAX,
        ensures
            id == hart_id * 2 + target_priority.spec_index(),
    {
        let priority_num = IntrTargetPriority::supported_number();
        hart_id * priority_num + target_priority.index()
    }

    /// MMIO address of the claim/complete register of the (hart, priority)
    /// target: one 4 KiB page per target, starting 0x20_0004 above the base.
    pub fn claim_comp_ptr_of_hart_with_priority(
        &self,
        hart_id: usize,
        target_priority: IntrTargetPriority,
    ) -> (addr: usize)
        requires
            self.base_addr + 0x20_0004 + 0x1000 * (hart_id * 2 + target_priority.spec_index())
                <= usize::MAX,
        ensures
            addr == self.base_addr + 0x20_0004 + 0x1000 * (hart_id * 2
                + target_priority.spec_index()),
    {
        let id = Self::hart_id_with_priority(hart_id, target_priority);
        self.base_addr + 0x20_0004 + 0x1000 * id
    }
}

} // verus!
