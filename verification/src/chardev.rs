//! Serial device (NS16550a UART): the character instantiation of the
//! interrupt bridge.
//!
//! The software receive buffer behind the device's interrupt-safe cell is the
//! only place consumers read from; the hardware FIFO is drained solely by the
//! interrupt handler, which hands the drained bytes in as an argument here —
//! the MMIO registers themselves are a collaborator outside the model.
//! Writes poll a hardware ready bit and never block, so they do not appear in
//! the blocking protocol.

use vstd::prelude::*;

use crate::cell::{InterruptSafeCell, IntrState};
use crate::condvar::Condvar;
use crate::sched::Scheduler;

verus! {

pub struct NS16550aInner {
    /// Software receive buffer, oldest byte first.
    pub read_buffer: Vec<u8>,
}

pub struct NS16550a {
    pub inner: InterruptSafeCell<NS16550aInner>,
    /// Wakes readers blocked on an empty buffer.
    pub condvar: Condvar,
}

#[derive(Clone, Copy, PartialEq, Eq, Structural, Debug)]
/// One step of the blocking-read protocol on the serial device.
pub enum CharReadStep {
    /// The buffer had data: its oldest byte.
    Byte(u8),
    /// The buffer was empty: the caller is enqueued on the condvar and the
    /// context switch has been committed; it retries when it runs again.
    Suspended,
}

impl NS16550a {
    pub open spec fn wf(&self) -> bool {
        &&& !self.inner.is_borrowed()
        &&& self.condvar.wf()
    }

    /// The software receive buffer, oldest byte first.
    pub open spec fn buffer(&self) -> Seq<u8> {
        self.inner.stored().read_buffer@
    }

    /// Threads blocked waiting for input, in enqueue order.
    pub open spec fn waiters(&self) -> Seq<crate::sched::ThreadId> {
        self.condvar.queue()
    }

    pub fn new() -> (dev: Self)
        ensures
            dev.wf(),
            dev.buffer() == Seq::<u8>::empty(),
            dev.waiters() == Seq::<crate::sched::ThreadId>::empty(),
    {
        NS16550a {
            inner: InterruptSafeCell::new(NS16550aInner { read_buffer: Vec::new() }),
            condvar: Condvar::new(),
        }
    }

    /// Whether the software receive buffer is currently empty.
    pub fn read_buffer_is_empty(&mut self, intr: &mut IntrState) -> (empty: bool)
        requires
            old(self).wf(),
        ensures
            final(self).wf(),
            *final(intr) == *old(intr),
            final(self).buffer() == old(self).buffer(),
            final(self).waiters() == old(self).waiters(),
            empty == (old(self).buffer().len() == 0),
    {
        match self.inner.exclusive_access(intr) {
            Ok(guard) => {
                let empty = guard.read_buffer.len() == 0;
                self.inner.release(intr, guard);
                empty
            },
            Err(_) => {
                // Unreachable: the cell is not borrowed between operations.
                true
            },
        }
    }

    /// One iteration of the blocking read: take the oldest buffered byte, or
    /// enqueue the caller and switch away.  The enqueue happens while the
    /// device cell is still held (so a concurrent interrupt already sees the
    /// waiter), the cell is released next, and only then is the context
    /// switch committed — the handler is never blocked behind a suspended
    /// thread's held cell.  Callers loop: on resumption they re-check the
    /// buffer rather than assume the wakeup meant data.
    pub fn read(&mut self, intr: &mut IntrState, sched: &mut Scheduler) -> (step: CharReadStep)
        requires
            old(self).wf(),
            old(sched).current is Some,
        ensures
            final(self).wf(),
            *final(intr) == *old(intr),
            old(self).buffer().len() > 0 ==> step == CharReadStep::Byte(old(self).buffer()[0])
                && final(self).buffer() == old(self).buffer().drop_first()
                && final(self).waiters() == old(self).waiters()
                && *final(sched) == *old(sched),
            old(self).buffer().len() == 0 ==> step is Suspended
                && final(self).buffer() == old(self).buffer()
                && final(self).waiters() == old(self).waiters().push(old(sched).current->Some_0)
                && ({
                &&& old(sched).ready@.len() == 0 ==> final(sched).current is None
                    && final(sched).ready@ == old(sched).ready@
                &&& old(sched).ready@.len() > 0 ==> final(sched).current == Some(
                    old(sched).ready@[0],
                ) && final(sched).ready@ == old(sched).ready@.drop_first()
            }),
    {
        match self.inner.exclusive_access(intr) {
            Ok(mut guard) => {
                if guard.read_buffer.len() > 0 {
                    let ch = guard.read_buffer.remove(0);
                    self.inner.release(intr, guard);
                    CharReadStep::Byte(ch)
                } else {
                    let token = self.condvar.wait_no_sched(intr, sched);
                    self.inner.release(intr, guard);
                    sched.schedule(token);
                    CharReadStep::Suspended
                }
            },
            Err(_) => {
                // Unreachable: the cell is not borrowed between operations.
                CharReadStep::Suspended
            },
        }
    }

    /// Interrupt handler (top half): drain every byte the hardware FIFO held
    /// into the software buffer under the cell, release the cell, and signal
    /// exactly once if anything was drained.  The handler never suspends.
    pub fn handle_irq(&mut self, incoming: &Vec<u8>, intr: &mut IntrState, sched: &mut Scheduler)
        requires
            old(self).wf(),
        ensures
            final(self).wf(),
            *final(intr) == *old(intr),
            final(self).buffer() == old(self).buffer() + incoming@,
            incoming@.len() == 0 ==> final(self).waiters() == old(self).waiters()
                && *final(sched) == *old(sched),
            incoming@.len() > 0 && old(self).waiters().len() == 0 ==> final(self).waiters()
                == old(self).waiters() && *final(sched) == *old(sched),
            incoming@.len() > 0 && old(self).waiters().len() > 0 ==> final(self).waiters() == old(
                self,
            ).waiters().drop_first() && final(sched).ready@ == old(sched).ready@.push(
                old(self).waiters()[0],
            ) && final(sched).current == old(sched).current,
    {
        let mut count: usize = 0;
        match self.inner.exclusive_access(intr) {
            Ok(mut guard) => {
                let mut i: usize = 0;
                #[verifier::loop_isolation(false)]
                while i < incoming.len()
                    invariant
                        i <= incoming@.len(),
                        count == i,
                        guard.read_buffer@ == old(self).buffer() + incoming@.take(i as int),
                    decreases incoming@.len() - i,
                {
                    guard.read_buffer.push(incoming[i]);
                    count = count + 1;
                    i = i + 1;
                    proof {
                        assert(guard.read_buffer@ =~= old(self).buffer() + incoming@.take(
                            i as int,
                        ));
                    }
                }
                proof {
                    assert(guard.read_buffer@ =~= old(self).buffer() + incoming@);
                }
                self.inner.release(intr, guard);
            },
            Err(_) => {
                // Unreachable: the cell is not borrowed between operations.
            },
        }
        if count > 0 {
            self.condvar.signal(intr, sched);
        }
    }
}

/// Law: the read side is FIFO.  After drains appended `d1` then `d2` to a
/// buffer `b`, the buffer holds `b + d1 + d2`, the `i`-th read returns byte
/// `i` of that sequence, and the buffer is empty exactly when no undrained
/// byte remains.
pub proof fn lemma_device_buffer_fifo(b: Seq<u8>, d1: Seq<u8>, d2: Seq<u8>, i: int)
    requires
        0 <= i < b.len() + d1.len() + d2.len(),
    ensures
        ((b + d1) + d2).len() == b.len() + d1.len() + d2.len(),
        ((b + d1) + d2).skip(i).len() > 0,
        ((b + d1) + d2).skip(i)[0] == ((b + d1) + d2)[i],
        ((b + d1) + d2).skip(i).len() == 0 <==> i >= b.len() + d1.len() + d2.len(),
{
    assert(((b + d1) + d2).skip(i)[0] == ((b + d1) + d2)[i]);
}

} // verus!
