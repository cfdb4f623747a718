//! Counting semaphore: the third wait-queue primitive, sharing the FIFO
//! wake/block contract of the condvar and the mutex.
//!
//! The count may go negative; its absolute value is then the number of
//! blocked waiters.  `up` increments and wakes the earliest waiter when the
//! count was negative; `down` decrements and blocks the caller when the count
//! goes below zero.

use vstd::prelude::*;

use crate::cell::{InterruptSafeCell, IntrState};
use crate::sched::{Scheduler, ThreadId};

verus! {

pub struct SemaphoreInner {
    pub count: isize,
    pub wait_queue: Vec<ThreadId>,
}

pub struct Semaphore {
    pub inner: InterruptSafeCell<SemaphoreInner>,
}

impl Semaphore {
    /// No borrow of the inner cell is live between operations.
    pub open spec fn wf(&self) -> bool {
        !self.inner.is_borrowed()
    }

    pub open spec fn count(&self) -> int {
        self.inner.stored().count as int
    }

    pub open spec fn queue(&self) -> Seq<ThreadId> {
        self.inner.stored().wait_queue@
    }

    pub fn new(res_count: usize) -> (s: Self)
        requires
            res_count <= isize::MAX,
        ensures
            s.wf(),
            s.count() == res_count,
            s.queue() == Seq::<ThreadId>::empty(),
    {
        Semaphore {
            inner: InterruptSafeCell::new(
                SemaphoreInner { count: res_count as isize, wait_queue: Vec::new() },
            ),
        }
    }

    /// Release one unit.  When the count was negative a thread is blocked on
    /// it, and the earliest waiter is woken.
    pub fn up(&mut self, intr: &mut IntrState, sched: &mut Scheduler)
        requires
            old(self).wf(),
            old(self).count() < isize::MAX,
            old(self).count() < 0 ==> old(self).queue().len() > 0,
        ensures
            final(self).wf(),
            *final(intr) == *old(intr),
            final(self).count() == old(self).count() + 1,
            old(self).count() >= 0 ==> final(self).queue() == old(self).queue()
                && *final(sched) == *old(sched),
            old(self).count() < 0 ==> final(self).queue() == old(self).queue().drop_first()
                && final(sched).ready@ == old(sched).ready@.push(old(self).queue()[0])
                && final(sched).current == old(sched).current,
    {
        match self.inner.exclusive_access(intr) {
            Ok(mut guard) => {
                guard.count = guard.count + 1;
                if guard.count <= 0 {
                    let task = guard.wait_queue.remove(0);
                    sched.wakeup_task(task);
                }
                self.inner.release(intr, guard);
            },
            Err(_) => {
                // Unreachable: the cell is not borrowed between operations.
            },
        }
    }

    /// Take one unit.  When no unit is free the count goes negative, the
    /// current thread joins the wait queue, and the hart switches away.
    pub fn down(&mut self, intr: &mut IntrState, sched: &mut Scheduler)
        requires
            old(self).wf(),
            old(self).count() > isize::MIN,
            old(sched).current is Some,
        ensures
            final(self).wf(),
            *final(intr) == *old(intr),
            final(self).count() == old(self).count() - 1,
            old(self).count() > 0 ==> final(self).queue() == old(self).queue()
                && *final(sched) == *old(sched),
            old(self).count() <= 0 ==> final(self).queue() == old(self).queue().push(
                old(sched).current->Some_0,
            ) && ({
                &&& old(sched).ready@.len() == 0 ==> final(sched).current is None
                    && final(sched).ready@ == old(sched).ready@
                &&& old(sched).ready@.len() > 0 ==> final(sched).current == Some(
                    old(sched).ready@[0],
                ) && final(sched).ready@ == old(sched).ready@.drop_first()
            }),
    {
        match self.inner.exclusive_access(intr) {
            Ok(mut guard) => {
                guard.count = guard.count - 1;
                if guard.count < 0 {
                    let current = sched.current_thread();
                    guard.wait_queue.push(current);
                    self.inner.release(intr, guard);
                    sched.block_current_and_run_next();
                } else {
                    self.inner.release(intr, guard);
                }
            },
            Err(_) => {
                // Unreachable: the cell is not borrowed between operations.
            },
        }
    }
}

} // verus!
