//! Core of a single-hart RISC-V kernel, modelled and verified.
//!
//! One hardware core runs a cooperative scheduler, blocking system calls, and
//! asynchronous interrupt handlers over the same mutable state, with interrupt
//! masking as the only mutual exclusion.  This crate holds that core as
//! explicit data: the interrupt-safe cell every shared structure is built on,
//! the FIFO wait-queue primitives, the process and thread control blocks with
//! their lifecycle, and the interrupt-driven blocking I/O protocol shared by
//! the character, input, and block devices.  Hardware itself (MMIO registers,
//! virtio queues, the SBI layer) stays outside: interrupt handlers take what
//! the hardware reported as arguments and the contracts say exactly what the
//! kernel does with it.

pub mod block;
pub mod cell;
pub mod chardev;
pub mod condvar;
pub mod gpu;
pub mod id_alloc;
pub mod input;
pub mod kernel;
pub mod mem;
pub mod mutex;
pub mod plic;
pub mod process;
pub mod sched;
pub mod semaphore;
pub mod syscall;
pub mod task;
