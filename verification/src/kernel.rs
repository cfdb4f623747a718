//! The kernel's global state and the platform interrupt dispatch.
//!
//! Device singletons are constructed once during boot and live as fields
//! here, so initialization order is explicit.  The interrupt entry point
//! takes the source id the interrupt controller reported for the supervisor
//! target — claiming and completing the MMIO register is the hardware edge —
//! and dispatches it over the fixed id table: source 0 is the block device,
//! source 10 the serial device, anything else a fatal fault.

use vstd::prelude::*;

use crate::block::{apply_completions, VirtIOBlock};
use crate::cell::{Fault, IntrState};
use crate::chardev::NS16550a;
use crate::gpu::VirtIOGpuWrapper;
use crate::id_alloc::RecycleAllocator;
use crate::input::VirtIOInputWrapper;
use crate::process::ProcessControlBlock;
use crate::mem::LoadedImage;
use crate::sched::{Scheduler, ThreadId};

verus! {

/// Interrupt source id of the virtio block device on this board.
pub const BLOCK_IRQ: u32 = 0;

/// Interrupt source id of the NS16550a serial device on this board.
pub const UART_IRQ: u32 = 10;

/// The whole single-hart kernel: machine interrupt flag, scheduler, process
/// table, and the device singletons, constructed in one boot step.
pub struct Kernel {
    /// The hart's local interrupt-enable flag.
    pub intr: IntrState,
    pub scheduler: Scheduler,
    pub pid_allocator: RecycleAllocator,
    /// Process table indexed by pid; reaping clears a slot.
    pub processes: Vec<Option<ProcessControlBlock>>,
    /// Token of the kernel address space, written into trap contexts.
    pub kernel_token: usize,
    /// Address of the trap-handler entry, written into trap contexts.
    pub trap_handler: usize,
    pub uart: NS16550a,
    pub keyboard: VirtIOInputWrapper,
    pub mouse: VirtIOInputWrapper,
    pub block_device: VirtIOBlock,
    pub gpu: VirtIOGpuWrapper,
}

impl Kernel {
    /// Boot: construct every device singleton with empty buffers and wait
    /// queues, an empty process table, and interrupts still masked.
    pub fn boot(
        kernel_token: usize,
        trap_handler: usize,
        block_queue_size: usize,
        fb_base: usize,
        fb_len: usize,
    ) -> (k: Kernel)
        ensures
            !k.intr.enabled,
            k.scheduler.current is None,
            k.scheduler.ready@ == Seq::<crate::sched::ThreadId>::empty(),
            k.pid_allocator.wf(),
            k.pid_allocator.high_water() == 0,
            k.processes@.len() == 0,
            k.kernel_token == kernel_token,
            k.trap_handler == trap_handler,
            k.uart.wf(),
            k.uart.buffer().len() == 0,
            k.uart.waiters().len() == 0,
            k.keyboard.wf(),
            k.keyboard.events().len() == 0,
            k.keyboard.waiters().len() == 0,
            k.mouse.wf(),
            k.mouse.events().len() == 0,
            k.mouse.waiters().len() == 0,
            k.block_device.wf(),
            k.block_device.queues().len() == block_queue_size,
            k.gpu.fb_base == fb_base,
            k.gpu.fb_len == fb_len,
            k.gpu.flush_requests == 0,
    {
        Kernel {
            intr: IntrState { enabled: false },
            scheduler: Scheduler::new(),
            pid_allocator: RecycleAllocator::new(),
            processes: Vec::new(),
            kernel_token,
            trap_handler,
            uart: NS16550a::new(),
            keyboard: VirtIOInputWrapper::new(),
            mouse: VirtIOInputWrapper::new(),
            block_device: VirtIOBlock::new(block_queue_size),
            gpu: VirtIOGpuWrapper::new(fb_base, fb_len),
        }
    }
}

/// The calling process: the process table slot of the current thread's pid
/// holds a live, well-formed process.
pub open spec fn current_process_live(k: Kernel) -> bool {
    &&& k.scheduler.current is Some
    &&& k.scheduler.current->Some_0.pid < k.processes@.len()
    &&& k.processes@[k.scheduler.current->Some_0.pid as int] is Some
    &&& k.processes@[k.scheduler.current->Some_0.pid as int]->Some_0.wf()
    &&& k.processes@[k.scheduler.current->Some_0.pid as int]->Some_0.inner_spec().tasks@.len() > 0
}

/// The pid table and the pid allocator agree: pids are handed out densely,
/// one table slot per pid ever allocated.  Reaping, which would free a slot
/// and recycle its pid, belongs to the wait syscall outside this surface, so
/// the table only grows here.
pub open spec fn pid_table_dense(k: Kernel) -> bool {
    &&& k.pid_allocator.wf()
    &&& k.pid_allocator.high_water() == k.processes@.len()
    &&& forall|id: usize|
        (id as int) < k.processes@.len() ==> #[trigger] k.pid_allocator.allocated(id)
}

impl Kernel {
    /// Create a process from a program image: allocate the next pid, build
    /// the control block with thread 0 ready, and register it in the pid
    /// table.
    pub fn spawn_process(&mut self, image: LoadedImage, kstack_top: usize) -> (pid: usize)
        requires
            image.wf(),
            pid_table_dense(*old(self)),
            old(self).processes@.len() < usize::MAX,
        ensures
            pid_table_dense(*final(self)),
            *final(self) == (Kernel {
                pid_allocator: final(self).pid_allocator,
                processes: final(self).processes,
                scheduler: final(self).scheduler,
                ..*old(self)
            }),
            pid == old(self).processes@.len(),
            final(self).processes@ == old(self).processes@.push(
                final(self).processes@[pid as int],
            ),
            final(self).processes@[pid as int] is Some,
            ({
                let p = final(self).processes@[pid as int]->Some_0;
                &&& p.wf()
                &&& p.pid_spec() == pid
                &&& !p.inner_spec().is_zombie
                &&& p.inner_spec().memory_set == image.memory_set
                &&& p.inner_spec().parent is None
                &&& p.inner_spec().children@.len() == 0
                &&& p.inner_spec().fd_table@ == seq![
                    Some(crate::process::Fd::Stdin),
                    Some(crate::process::Fd::Stdout),
                    Some(crate::process::Fd::Stdout),
                ]
                &&& p.inner_spec().tasks@.len() == 1
            }),
            final(self).scheduler.ready@ == old(self).scheduler.ready@.push(
                ThreadId { pid, tid: 0 },
            ),
            final(self).scheduler.current == old(self).scheduler.current,
    {
        let pid = self.pid_allocator.allocate();
        let process = ProcessControlBlock::new(
            image,
            pid,
            self.kernel_token,
            kstack_top,
            self.trap_handler,
            &mut self.scheduler,
        );
        self.processes.push(Some(process));
        pid
    }

    /// Fork the calling process: duplicate it as `ProcessControlBlock::fork`
    /// does, register the child in the pid table, and leave the child's one
    /// thread ready.
    pub fn fork_current(&mut self, child_kstack_top: usize) -> (child_pid: usize)
        requires
            pid_table_dense(*old(self)),
            current_process_live(*old(self)),
            old(self).processes@.len() < usize::MAX,
        ensures
            pid_table_dense(*final(self)),
            current_process_live(*final(self)),
            *final(self) == (Kernel {
                pid_allocator: final(self).pid_allocator,
                processes: final(self).processes,
                scheduler: final(self).scheduler,
                ..*old(self)
            }),
            child_pid == old(self).processes@.len(),
            final(self).processes@.len() == old(self).processes@.len() + 1,
            forall|j: int|
                0 <= j < old(self).processes@.len() && j != old(
                    self,
                ).scheduler.current->Some_0.pid ==> final(self).processes@[j] == old(
                    self,
                ).processes@[j],
            ({
                let pid = old(self).scheduler.current->Some_0.pid as int;
                let parent_was = old(self).processes@[pid]->Some_0;
                let parent_slot = final(self).processes@[pid];
                let child_slot = final(self).processes@[child_pid as int];
                &&& parent_slot is Some
                &&& ({
                    let parent_now = parent_slot->Some_0;
                    &&& parent_now.wf()
                    &&& parent_now.pid_spec() == parent_was.pid_spec()
                    &&& parent_now.inner_spec() == (crate::process::ProcessControlBlockInner {
                        children: parent_now.inner_spec().children,
                        ..parent_was.inner_spec()
                    })
                    &&& parent_now.inner_spec().children@ == parent_was.inner_spec().children@.push(
                        child_pid,
                    )
                })
                &&& child_slot is Some
                &&& ({
                    let child = child_slot->Some_0;
                    &&& child.wf()
                    &&& child.pid_spec() == child_pid
                    &&& !child.inner_spec().is_zombie
                    &&& child.inner_spec().parent == Some(parent_was.pid_spec())
                    &&& child.inner_spec().memory_set.base
                        == parent_was.inner_spec().memory_set.base
                    &&& child.inner_spec().memory_set.data@
                        == parent_was.inner_spec().memory_set.data@
                    &&& child.inner_spec().fd_table@ == parent_was.inner_spec().fd_table@
                    &&& child.inner_spec().tasks@.len() == 1
                })
            }),
            final(self).scheduler.ready@ == old(self).scheduler.ready@.push(
                ThreadId { pid: child_pid, tid: 0 },
            ),
            final(self).scheduler.current == old(self).scheduler.current,
            final(self).intr == old(self).intr,
    {
        let pid = match &self.scheduler.current {
            Some(t) => t.pid,
            None => 0,
        };
        let slot = self.processes.remove(pid);
        let mut parent = match slot {
            Some(p) => p,
            None => vstd::pervasive::unreached(),
        };
        let child = parent.fork(
            &mut self.pid_allocator,
            child_kstack_top,
            &mut self.intr,
            &mut self.scheduler,
        );
        let child_pid = child.getpid();
        self.processes.insert(pid, Some(parent));
        self.processes.push(Some(child));
        proof {
            assert(self.processes@.subrange(0, old(self).processes@.len() as int) =~= old(
                self,
            ).processes@.update(pid as int, self.processes@[pid as int]));
            assert forall|id: usize|
                (id as int) < self.processes@.len() implies #[trigger] self.pid_allocator.allocated(
                id,
            ) by {
                if id != child_pid {
                    assert(old(self).pid_allocator.allocated(id));
                }
            }
        }
        child_pid
    }
}

/// Board hook run during boot.  The virt board needs no extra device setup
/// beyond the singletons' own construction.
pub fn device_init() {
}

/// Interrupt dispatch entry point.  `intr_src_id` is what the controller
/// reported for the supervisor target of hart 0; `uart_fifo` and
/// `block_used` are what the named device's hardware queue held, drained by
/// the handler that runs.  An id bound to no device is a fatal fault.
/// Interrupts are only delivered while the hart has them enabled.
pub fn irq_handler(
    k: &mut Kernel,
    intr_src_id: u32,
    uart_fifo: &Vec<u8>,
    block_used: &Vec<u16>,
) -> (r: Result<(), Fault>)
    requires
        old(k).intr.enabled,
        old(k).uart.wf(),
        old(k).block_device.wf(),
        forall|i: int| 0 <= i < block_used@.len() ==> block_used@[i] < old(k).block_device.queues().len(),
    ensures
        final(k).uart.wf(),
        final(k).block_device.wf(),
        final(k).intr == old(k).intr,
        r is Err <==> intr_src_id != BLOCK_IRQ && intr_src_id != UART_IRQ,
        r is Err ==> r == Err::<(), Fault>(Fault::UnsupportedIrq) && *final(k) == *old(k),
        intr_src_id == UART_IRQ ==> {
            &&& final(k).uart.buffer() == old(k).uart.buffer() + uart_fifo@
            &&& (uart_fifo@.len() == 0 || old(k).uart.waiters().len() == 0)
                ==> final(k).uart.waiters() == old(k).uart.waiters()
                    && final(k).scheduler == old(k).scheduler
            &&& uart_fifo@.len() > 0 && old(k).uart.waiters().len() > 0
                ==> final(k).uart.waiters() == old(k).uart.waiters().drop_first()
                    && final(k).scheduler.ready@
                        == old(k).scheduler.ready@.push(old(k).uart.waiters()[0])
                    && final(k).scheduler.current == old(k).scheduler.current
            &&& final(k).keyboard == old(k).keyboard
            &&& final(k).mouse == old(k).mouse
            &&& final(k).block_device == old(k).block_device
            &&& final(k).processes == old(k).processes
            &&& final(k).gpu == old(k).gpu
        },
        intr_src_id == BLOCK_IRQ ==> {
            &&& (final(k).block_device.queues(), final(k).scheduler.ready@) == apply_completions(
                old(k).block_device.queues(),
                old(k).scheduler.ready@,
                block_used@,
            )
            &&& final(k).scheduler.current == old(k).scheduler.current
            &&& final(k).uart.buffer() == old(k).uart.buffer()
            &&& final(k).uart.waiters() == old(k).uart.waiters()
            &&& final(k).keyboard == old(k).keyboard
            &&& final(k).mouse == old(k).mouse
            &&& final(k).processes == old(k).processes
            &&& final(k).gpu == old(k).gpu
        },
{
    if intr_src_id == BLOCK_IRQ {
        k.block_device.handle_irq(block_used, &mut k.intr, &mut k.scheduler);
        Ok(())
    } else if intr_src_id == UART_IRQ {
        k.uart.handle_irq(uart_fifo, &mut k.intr, &mut k.scheduler);
        Ok(())
    } else {
        Err(Fault::UnsupportedIrq)
    }
}

} // verus!
