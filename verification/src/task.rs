//! Thread control block and trap context.
//!
//! A thread owns a kernel stack, a trap context, and its user-stack placement,
//! and is identified by (owning process, thread id).  The trap-entry assembly
//! and the full register save format are collaborators; the trap context here
//! holds the fields the lifecycle operations actually write: entry point,
//! stack pointers, kernel address-space token, trap-handler entry, and the two
//! argument registers `exec` fills.

use vstd::prelude::*;

use crate::mem::{PAGE_SIZE, USER_STACK_SIZE};

verus! {

/// The saved state written when a thread enters user mode, restricted to the
/// fields the kernel core writes.
#[derive(Clone, Copy, PartialEq, Eq, Structural, Debug)]
pub struct TrapContext {
    /// User program counter to return to (the entry point at start).
    pub sepc: usize,
    /// User stack pointer (`x2`).
    pub sp: usize,
    /// Token of the kernel address space.
    pub kernel_satp: usize,
    /// Top of this thread's kernel stack.
    pub kernel_sp: usize,
    /// Address of the trap-handler entry.
    pub trap_handler: usize,
    /// First argument register (`x10`): argc after `exec`.
    pub a0: usize,
    /// Second argument register (`x11`): argv base after `exec`.
    pub a1: usize,
}

/// The trap context of a freshly started application: program counter at the
/// entry point, user stack pointer set, argument registers cleared.
pub open spec fn spec_app_init_context(
    entry: usize,
    sp: usize,
    kernel_satp: usize,
    kernel_sp: usize,
    trap_handler: usize,
) -> TrapContext {
    TrapContext { sepc: entry, sp, kernel_satp, kernel_sp, trap_handler, a0: 0, a1: 0 }
}

impl TrapContext {
    pub fn app_init_context(
        entry: usize,
        sp: usize,
        kernel_satp: usize,
        kernel_sp: usize,
        trap_handler: usize,
    ) -> (cx: TrapContext)
        ensures
            cx == spec_app_init_context(entry, sp, kernel_satp, kernel_sp, trap_handler),
    {
        TrapContext { sepc: entry, sp, kernel_satp, kernel_sp, trap_handler, a0: 0, a1: 0 }
    }
}

/// Top of the user stack of thread `tid`: stacks are laid out upward from the
/// stack base, one stack plus one guard page per thread id — dense thread-id
/// reuse keeps this placement compact.
pub open spec fn spec_ustack_top(ustack_base: int, tid: int) -> int {
    ustack_base + tid * (PAGE_SIZE + USER_STACK_SIZE) + USER_STACK_SIZE
}

pub fn ustack_top_of(ustack_base: usize, tid: usize) -> (top: usize)
    requires
        spec_ustack_top(ustack_base as int, tid as int) <= usize::MAX,
    ensures
        top == spec_ustack_top(ustack_base as int, tid as int),
{
    ustack_base + tid * (PAGE_SIZE + USER_STACK_SIZE) + USER_STACK_SIZE
}

/// One thread.  The back-reference to the owning process is its pid (the
/// process outlives any single thread's view of it), carried in [`ThreadId`]
/// values handed to the scheduler; the block itself holds what the thread
/// owns exclusively.
#[derive(Clone, Copy, PartialEq, Eq, Structural, Debug)]
pub struct TaskControlBlock {
    /// Thread id inside the owning process; the main thread has 0.
    pub tid: usize,
    /// Base of the user-stack area this thread's stack is placed from.
    pub ustack_base: usize,
    /// Top of the thread's kernel stack (exclusively owned).
    pub kstack_top: usize,
    /// Saved user-mode state (exclusively owned).
    pub trap_cx: TrapContext,
}

} // verus!
