//! Blocking mutex: a FIFO wait queue behind an interrupt-safe cell.
//!
//! `unlock` hands the lock directly to the earliest waiter if one exists (the
//! lock stays held, ownership transfers); only with an empty queue does it
//! actually become free.  `lock` on a held mutex enqueues the caller and
//! switches away; when the scheduler later resumes that thread it owns the
//! lock by the handoff.

use vstd::prelude::*;

use crate::cell::{InterruptSafeCell, IntrState};
use crate::sched::{Scheduler, ThreadId};

verus! {

pub struct MutexInner {
    pub locked: bool,
    pub wait_queue: Vec<ThreadId>,
}

pub struct Mutex {
    pub inner: InterruptSafeCell<MutexInner>,
}

impl Mutex {
    /// No borrow of the inner cell is live between operations.
    pub open spec fn wf(&self) -> bool {
        !self.inner.is_borrowed()
    }

    pub open spec fn locked(&self) -> bool {
        self.inner.stored().locked
    }

    pub open spec fn queue(&self) -> Seq<ThreadId> {
        self.inner.stored().wait_queue@
    }

    pub fn new() -> (m: Self)
        ensures
            m.wf(),
            !m.locked(),
            m.queue() == Seq::<ThreadId>::empty(),
    {
        Mutex { inner: InterruptSafeCell::new(MutexInner { locked: false, wait_queue: Vec::new() }) }
    }

    /// Acquire the mutex.  A free mutex is taken at once; a held one enqueues
    /// the current thread at the back of the wait queue and switches away.
    /// When the thread runs again it owns the lock, handed off by `unlock`.
    pub fn lock(&mut self, intr: &mut IntrState, sched: &mut Scheduler)
        requires
            old(self).wf(),
            old(sched).current is Some,
        ensures
            final(self).wf(),
            *final(intr) == *old(intr),
            final(self).locked(),
            !old(self).locked() ==> final(self).queue() == old(self).queue()
                && *final(sched) == *old(sched),
            old(self).locked() ==> final(self).queue() == old(self).queue().push(
                old(sched).current->Some_0,
            ) && ({
                &&& old(sched).ready@.len() == 0 ==> final(sched).current is None
                    && final(sched).ready@ == old(sched).ready@
                &&& old(sched).ready@.len() > 0 ==> final(sched).current == Some(
                    old(sched).ready@[0],
                ) && final(sched).ready@ == old(sched).ready@.drop_first()
            }),
    {
        match self.inner.exclusive_access(intr) {
            Ok(mut guard) => {
                if guard.locked {
                    let current = sched.current_thread();
                    guard.wait_queue.push(current);
                    self.inner.release(intr, guard);
                    sched.block_current_and_run_next();
                } else {
                    guard.locked = true;
                    self.inner.release(intr, guard);
                }
            },
            Err(_) => {
                // Unreachable: the cell is not borrowed between operations.
            },
        }
    }

    /// Release the mutex.  If a thread is waiting, the lock is handed to the
    /// earliest waiter (it stays held and the waiter becomes ready); only
    /// with an empty queue does the mutex become free.
    pub fn unlock(&mut self, intr: &mut IntrState, sched: &mut Scheduler)
        requires
            old(self).wf(),
            old(self).locked(),
        ensures
            final(self).wf(),
            *final(intr) == *old(intr),
            old(self).queue().len() > 0 ==> final(self).locked()
                && final(self).queue() == old(self).queue().drop_first()
                && final(sched).ready@ == old(sched).ready@.push(old(self).queue()[0])
                && final(sched).current == old(sched).current,
            old(self).queue().len() == 0 ==> !final(self).locked()
                && final(self).queue() == old(self).queue()
                && *final(sched) == *old(sched),
    {
        match self.inner.exclusive_access(intr) {
            Ok(mut guard) => {
                if guard.wait_queue.len() > 0 {
                    let task = guard.wait_queue.remove(0);
                    sched.wakeup_task(task);
                } else {
                    guard.locked = false;
                }
                self.inner.release(intr, guard);
            },
            Err(_) => {
                // Unreachable: the cell is not borrowed between operations.
            },
        }
    }
}

} // verus!
