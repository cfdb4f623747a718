//! System calls of the GUI and input surface.
//!
//! Each call runs on the current thread of the calling process and touches
//! kernel state through the owning cells; the contracts say exactly what is
//! returned and what changes for every kernel state the call is allowed in.

use vstd::prelude::*;
use vstd::pervasive::unreached;

use crate::cell::Fault;
use crate::input::InputReadStep;
use crate::kernel::{current_process_live, Kernel};

verus! {

/// Fixed virtual base address the framebuffer is mapped at.
pub const FB_VADDR: usize = 0x1000_0000;

/// Map the GPU framebuffer into the calling process's address space at
/// `FB_VADDR` with a no-allocate mapping, and return that fixed address.
///
/// Calling it again while the mapping is still present is the
/// `FramebufferMapped` fault: this kernel refuses the double map rather than
/// silently remapping.
pub fn sys_framebuffer(k: &mut Kernel) -> (r: Result<usize, Fault>)
    requires
        current_process_live(*old(k)),
    ensures
        *final(k) == (Kernel { processes: final(k).processes, ..*old(k) }),
        final(k).processes@.len() == old(k).processes@.len(),
        forall|j: int|
            0 <= j < old(k).processes@.len() && j != old(k).scheduler.current->Some_0.pid
                ==> final(k).processes@[j] == old(k).processes@[j],
        ({
            let pid = old(k).scheduler.current->Some_0.pid as int;
            let p_old = old(k).processes@[pid]->Some_0;
            let slot = final(k).processes@[pid];
            &&& slot is Some
            &&& ({
                let p_new = slot->Some_0;
                &&& p_new.pid_spec() == p_old.pid_spec()
                &&& p_new.wf()
                &&& r is Err <==> p_old.inner_spec().memory_set.fb_mapped
                &&& p_old.inner_spec().memory_set.fb_mapped ==> r == Err::<usize, Fault>(
                    Fault::FramebufferMapped,
                ) && p_new.inner_spec() == p_old.inner_spec()
                &&& !p_old.inner_spec().memory_set.fb_mapped ==> {
                    &&& r == Ok::<usize, Fault>(FB_VADDR)
                    &&& p_new.inner_spec().memory_set.fb_mapped
                    &&& p_new.inner_spec().memory_set.base == p_old.inner_spec().memory_set.base
                    &&& p_new.inner_spec().memory_set.data@ == p_old.inner_spec().memory_set.data@
                    &&& p_new.inner_spec() == (crate::process::ProcessControlBlockInner {
                        memory_set: p_new.inner_spec().memory_set,
                        ..p_old.inner_spec()
                    })
                }
            })
        }),
{
    let pid = match &k.scheduler.current {
        Some(t) => t.pid,
        None => unreached(),
    };
    let slot = k.processes.remove(pid);
    let mut process = match slot {
        Some(p) => p,
        None => unreached(),
    };
    let mut inner = match process.inner_exclusive_access(&mut k.intr) {
        Ok(guard) => guard,
        Err(_) => unreached(),
    };
    let r = if inner.memory_set.fb_mapped {
        Err(Fault::FramebufferMapped)
    } else {
        inner.memory_set.push_noalloc();
        Ok(FB_VADDR)
    };
    process.inner_release(&mut k.intr, inner);
    k.processes.insert(pid, Some(process));
    proof {
        assert(k.processes@ =~= old(k).processes@.update(pid as int, k.processes@[pid as int]));
    }
    r
}

/// Ask the GPU to push the framebuffer to the display.  Always succeeds and
/// returns 0; the push itself is the hardware's work.
pub fn sys_framebuffer_flush(k: &mut Kernel) -> (r: isize)
    requires
        old(k).gpu.flush_requests < u64::MAX,
    ensures
        r == 0,
        *final(k) == (Kernel { gpu: final(k).gpu, ..*old(k) }),
        final(k).gpu.flush_requests == old(k).gpu.flush_requests + 1,
        final(k).gpu.fb_base == old(k).gpu.fb_base,
        final(k).gpu.fb_len == old(k).gpu.fb_len,
{
    k.gpu.flush();
    0
}

/// Non-blocking event poll: the oldest keyboard event if any, else the
/// oldest mouse event, else 0.  The packed format is type in bits 48–63,
/// code in bits 32–47, value in bits 0–31.
pub fn sys_event_get(k: &mut Kernel) -> (event: u64)
    requires
        old(k).keyboard.wf(),
        old(k).mouse.wf(),
        old(k).scheduler.current is Some,
    ensures
        final(k).keyboard.wf(),
        final(k).mouse.wf(),
        *final(k) == (Kernel { keyboard: final(k).keyboard, mouse: final(k).mouse, ..*old(k) }),
        final(k).keyboard.waiters() == old(k).keyboard.waiters(),
        final(k).mouse.waiters() == old(k).mouse.waiters(),
        old(k).keyboard.events().len() > 0 ==> event == old(k).keyboard.events()[0]
            && final(k).keyboard.events() == old(k).keyboard.events().drop_first()
            && final(k).mouse.events() == old(k).mouse.events(),
        old(k).keyboard.events().len() == 0 && old(k).mouse.events().len() > 0 ==> event == old(
            k,
        ).mouse.events()[0] && final(k).mouse.events() == old(k).mouse.events().drop_first()
            && final(k).keyboard.events() == old(k).keyboard.events(),
        old(k).keyboard.events().len() == 0 && old(k).mouse.events().len() == 0 ==> event == 0
            && final(k).keyboard.events() == old(k).keyboard.events() && final(k).mouse.events()
            == old(k).mouse.events(),
{
    if !k.keyboard.is_empty(&mut k.intr) {
        match k.keyboard.read_event(&mut k.intr, &mut k.scheduler) {
            InputReadStep::Event(event) => event,
            InputReadStep::Suspended => unreached(),
        }
    } else if !k.mouse.is_empty(&mut k.intr) {
        match k.mouse.read_event(&mut k.intr, &mut k.scheduler) {
            InputReadStep::Event(event) => event,
            InputReadStep::Suspended => unreached(),
        }
    } else {
        0
    }
}

/// Whether the serial software buffer is empty: 1 when it holds no byte, 0
/// as soon as it holds at least one.  The polarity is inverted relative to
/// the name and is preserved exactly.
pub fn sys_key_pressed(k: &mut Kernel) -> (r: isize)
    requires
        old(k).uart.wf(),
    ensures
        final(k).uart.wf(),
        *final(k) == (Kernel { uart: final(k).uart, ..*old(k) }),
        final(k).uart.buffer() == old(k).uart.buffer(),
        final(k).uart.waiters() == old(k).uart.waiters(),
        r == if old(k).uart.buffer().len() == 0 {
            1int
        } else {
            0int
        },
{
    let empty = k.uart.read_buffer_is_empty(&mut k.intr);
    if empty {
        1
    } else {
        0
    }
}

} // verus!
