//! Input devices (keyboard, mouse): the event instantiation of the interrupt
//! bridge.
//!
//! The interrupt handler drains every pending hardware event, packs each into
//! one 64-bit word — bits 48–63 the event type, bits 32–47 the code, bits
//! 0–31 the value — and appends it to the software event queue, then signals
//! once.  Readers block on the queue exactly as serial readers do on the
//! receive buffer.  The virtio transport that reports the raw events is a
//! collaborator: the handler takes what it reported as an argument.

use vstd::prelude::*;

use crate::cell::{InterruptSafeCell, IntrState};
use crate::condvar::Condvar;
use crate::sched::Scheduler;

verus! {

/// A raw event as the input hardware reports it.
#[derive(Clone, Copy, PartialEq, Eq, Structural, Debug)]
pub struct RawInputEvent {
    pub event_type: u16,
    pub code: u16,
    pub value: u32,
}

/// The packed wire format handed to user space: type in bits 48–63, code in
/// bits 32–47, value in bits 0–31.
pub open spec fn spec_pack_event(e: RawInputEvent) -> u64 {
    ((e.event_type as u64) << 48) | ((e.code as u64) << 32) | (e.value as u64)
}

pub fn pack_event(e: RawInputEvent) -> (packed: u64)
    ensures
        packed == spec_pack_event(e),
{
    ((e.event_type as u64) << 48) | ((e.code as u64) << 32) | (e.value as u64)
}

pub struct VirtIOInputInner {
    /// Packed events, oldest first.
    pub events: Vec<u64>,
}

pub struct VirtIOInputWrapper {
    pub inner: InterruptSafeCell<VirtIOInputInner>,
    /// Wakes readers blocked on an empty event queue.
    pub condvar: Condvar,
}

#[derive(Clone, Copy, PartialEq, Eq, Structural, Debug)]
/// One step of the blocking-read protocol on an input device.
pub enum InputReadStep {
    /// The queue had an event: its oldest entry.
    Event(u64),
    /// The queue was empty: the caller is enqueued on the condvar and the
    /// context switch has been committed; it retries when it runs again.
    Suspended,
}

impl VirtIOInputWrapper {
    pub open spec fn wf(&self) -> bool {
        &&& !self.inner.is_borrowed()
        &&& self.condvar.wf()
    }

    /// The software event queue, oldest event first.
    pub open spec fn events(&self) -> Seq<u64> {
        self.inner.stored().events@
    }

    /// Threads blocked waiting for events, in enqueue order.
    pub open spec fn waiters(&self) -> Seq<crate::sched::ThreadId> {
        self.condvar.queue()
    }

    pub fn new() -> (dev: Self)
        ensures
            dev.wf(),
            dev.events() == Seq::<u64>::empty(),
            dev.waiters() == Seq::<crate::sched::ThreadId>::empty(),
    {
        VirtIOInputWrapper {
            inner: InterruptSafeCell::new(VirtIOInputInner { events: Vec::new() }),
            condvar: Condvar::new(),
        }
    }

    /// Whether the software event queue is currently empty.
    pub fn is_empty(&mut self, intr: &mut IntrState) -> (empty: bool)
        requires
            old(self).wf(),
        ensures
            final(self).wf(),
            *final(intr) == *old(intr),
            final(self).events() == old(self).events(),
            final(self).waiters() == old(self).waiters(),
            empty == (old(self).events().len() == 0),
    {
        match self.inner.exclusive_access(intr) {
            Ok(guard) => {
                let empty = guard.events.len() == 0;
                self.inner.release(intr, guard);
                empty
            },
            Err(_) => {
                // Unreachable: the cell is not borrowed between operations.
                true
            },
        }
    }

    /// One iteration of the blocking read: take the oldest packed event, or
    /// enqueue the caller on the condvar, release the device cell, and only
    /// then commit the context switch.  Callers loop and re-check on
    /// resumption.
    pub fn read_event(&mut self, intr: &mut IntrState, sched: &mut Scheduler) -> (step:
        InputReadStep)
        requires
            old(self).wf(),
            old(sched).current is Some,
        ensures
            final(self).wf(),
            *final(intr) == *old(intr),
            old(self).events().len() > 0 ==> step == InputReadStep::Event(old(self).events()[0])
                && final(self).events() == old(self).events().drop_first()
                && final(self).waiters() == old(self).waiters()
                && *final(sched) == *old(sched),
            old(self).events().len() == 0 ==> step is Suspended
                && final(self).events() == old(self).events()
                && final(self).waiters() == old(self).waiters().push(old(sched).current->Some_0)
                && ({
                &&& old(sched).ready@.len() == 0 ==> final(sched).current is None
                    && final(sched).ready@ == old(sched).ready@
                &&& old(sched).ready@.len() > 0 ==> final(sched).current == Some(
                    old(sched).ready@[0],
                ) && final(sched).ready@ == old(sched).ready@.drop_first()
            }),
    {
        match self.inner.exclusive_access(intr) {
            Ok(mut guard) => {
                if guard.events.len() > 0 {
                    let event = guard.events.remove(0);
                    self.inner.release(intr, guard);
                    InputReadStep::Event(event)
                } else {
                    let token = self.condvar.wait_no_sched(intr, sched);
                    self.inner.release(intr, guard);
                    sched.schedule(token);
                    InputReadStep::Suspended
                }
            },
            Err(_) => {
                // Unreachable: the cell is not borrowed between operations.
                InputReadStep::Suspended
            },
        }
    }

    /// Interrupt handler (top half): pack and append every pending hardware
    /// event under the cell, release the cell, then signal exactly once if
    /// anything was drained.  The handler never suspends.
    pub fn handle_irq(
        &mut self,
        pending: &Vec<RawInputEvent>,
        intr: &mut IntrState,
        sched: &mut Scheduler,
    )
        requires
            old(self).wf(),
        ensures
            final(self).wf(),
            *final(intr) == *old(intr),
            final(self).events() == old(self).events() + pending@.map_values(
                |e: RawInputEvent| spec_pack_event(e),
            ),
            pending@.len() == 0 ==> final(self).waiters() == old(self).waiters()
                && *final(sched) == *old(sched),
            pending@.len() > 0 && old(self).waiters().len() == 0 ==> final(self).waiters() == old(
                self,
            ).waiters() && *final(sched) == *old(sched),
            pending@.len() > 0 && old(self).waiters().len() > 0 ==> final(self).waiters() == old(
                self,
            ).waiters().drop_first() && final(sched).ready@ == old(sched).ready@.push(
                old(self).waiters()[0],
            ) && final(sched).current == old(sched).current,
    {
        let mut count: usize = 0;
        match self.inner.exclusive_access(intr) {
            Ok(mut guard) => {
                let mut i: usize = 0;
                #[verifier::loop_isolation(false)]
                while i < pending.len()
                    invariant
                        i <= pending@.len(),
                        count == i,
                        guard.events@ == old(self).events() + pending@.take(i as int).map_values(
                            |e: RawInputEvent| spec_pack_event(e),
                        ),
                    decreases pending@.len() - i,
                {
                    let packed = pack_event(pending[i]);
                    guard.events.push(packed);
                    count = count + 1;
                    i = i + 1;
                    proof {
                        assert(guard.events@ =~= old(self).events() + pending@.take(
                            i as int,
                        ).map_values(|e: RawInputEvent| spec_pack_event(e)));
                    }
                }
                proof {
                    assert(pending@.take(pending@.len() as int) =~= pending@);
                    assert(guard.events@ =~= old(self).events() + pending@.map_values(
                        |e: RawInputEvent| spec_pack_event(e),
                    ));
                }
                self.inner.release(intr, guard);
            },
            Err(_) => {
                // Unreachable: the cell is not borrowed between operations.
            },
        }
        if count > 0 {
            self.condvar.signal(intr, sched);
        }
    }
}

} // verus!
