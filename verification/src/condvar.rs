//! Condition variable: a FIFO wait queue behind its own interrupt-safe cell.
//!
//! `signal` wakes the earliest-enqueued waiter and is a no-op on an empty
//! queue — there is no memory of signals without waiters.  Two wait entry
//! points exist: the classic monitor-style `wait(mutex)`, and the two-phase
//! `wait_no_sched`, which enqueues the caller and hands back a suspension
//! token so that a device driver can drop its own cell before committing the
//! context switch.

use vstd::prelude::*;

use crate::cell::{Fault, InterruptSafeCell, IntrState};
use crate::mutex::Mutex;
use crate::sched::{Scheduler, SuspendToken, ThreadId};

verus! {

pub struct CondvarInner {
    /// Blocked threads in enqueue order; the front is woken first.
    pub wait_queue: Vec<ThreadId>,
}

pub struct Condvar {
    pub inner: InterruptSafeCell<CondvarInner>,
}

impl Condvar {
    /// No borrow of the inner cell is live between operations.
    pub open spec fn wf(&self) -> bool {
        !self.inner.is_borrowed()
    }

    /// The wait queue, front first.
    pub open spec fn queue(&self) -> Seq<ThreadId> {
        self.inner.stored().wait_queue@
    }

    pub fn new() -> (c: Self)
        ensures
            c.wf(),
            c.queue() == Seq::<ThreadId>::empty(),
    {
        Condvar { inner: InterruptSafeCell::new(CondvarInner { wait_queue: Vec::new() }) }
    }

    /// Wake the earliest-enqueued waiter, if any, by handing it to the
    /// scheduler's wakeup operation.  An empty queue makes the call a no-op:
    /// the signal is not remembered.
    pub fn signal(&mut self, intr: &mut IntrState, sched: &mut Scheduler)
        requires
            old(self).wf(),
        ensures
            final(self).wf(),
            *final(intr) == *old(intr),
            old(self).queue().len() == 0 ==> final(self).queue() == old(self).queue()
                && *final(sched) == *old(sched),
            old(self).queue().len() > 0 ==> final(self).queue() == old(self).queue().drop_first()
                && final(sched).ready@ == old(sched).ready@.push(old(self).queue()[0])
                && final(sched).current == old(sched).current,
    {
        match self.inner.exclusive_access(intr) {
            Ok(mut guard) => {
                if guard.wait_queue.len() > 0 {
                    let task = guard.wait_queue.remove(0);
                    sched.wakeup_task(task);
                }
                self.inner.release(intr, guard);
            },
            Err(_) => {
                // Unreachable: the cell is not borrowed between operations.
            },
        }
    }

    /// Monitor-style wait: release the caller-supplied mutex, enqueue the
    /// current thread, and switch away.  On resumption the caller re-acquires
    /// the mutex before continuing; that re-acquisition is a separate
    /// `Mutex::lock` step once the scheduler runs this thread again.
    ///
    /// The mutex is released before the wait queue is entered, deliberately:
    /// a signal fired in that gap does not see the caller and is dropped.
    /// That missed-wakeup window is a known property of this discipline and
    /// is kept as designed rather than closed silently.
    pub fn wait(&mut self, mutex: &mut Mutex, intr: &mut IntrState, sched: &mut Scheduler)
        requires
            old(self).wf(),
            old(mutex).wf(),
            old(mutex).locked(),
            old(sched).current is Some,
        ensures
            final(self).wf(),
            final(mutex).wf(),
            *final(intr) == *old(intr),
            final(self).queue() == old(self).queue().push(old(sched).current->Some_0),
            // The mutex is released first: handed off to its earliest waiter,
            // or unlocked if none waits.
            old(mutex).queue().len() > 0 ==> final(mutex).locked()
                && final(mutex).queue() == old(mutex).queue().drop_first(),
            old(mutex).queue().len() == 0 ==> !final(mutex).locked()
                && final(mutex).queue() == old(mutex).queue(),
            // Then the current thread blocks and the hart switches to the
            // next ready thread: first a possible mutex wakeup is appended,
            // then the front of the ready queue becomes current.
            ({
                let woken = if old(mutex).queue().len() > 0 {
                    old(sched).ready@.push(old(mutex).queue()[0])
                } else {
                    old(sched).ready@
                };
                &&& woken.len() == 0 ==> final(sched).current is None
                    && final(sched).ready@ == woken
                &&& woken.len() > 0 ==> final(sched).current == Some(woken[0])
                    && final(sched).ready@ == woken.drop_first()
            }),
    {
        mutex.unlock(intr, sched);
        match self.inner.exclusive_access(intr) {
            Ok(mut guard) => {
                let current = sched.current_thread();
                guard.wait_queue.push(current);
                self.inner.release(intr, guard);
            },
            Err(_) => {
                // Unreachable: the cell is not borrowed between operations.
            },
        }
        sched.block_current_and_run_next();
    }

    /// Device-driver wait: enqueue the current thread and mark it blocked,
    /// but return the suspension token instead of switching.  The caller
    /// releases its own device cell first and only then commits the switch
    /// with `Scheduler::schedule`, so the interrupt handler is never blocked
    /// behind a suspended thread's held lock.  The thread is on the wait
    /// queue before any other lock is released, so a concurrent signal
    /// already sees it.
    pub fn wait_no_sched(&mut self, intr: &mut IntrState, sched: &Scheduler) -> (token:
        SuspendToken)
        requires
            old(self).wf(),
            sched.current is Some,
        ensures
            final(self).wf(),
            *final(intr) == *old(intr),
            final(self).queue() == old(self).queue().push(sched.current->Some_0),
            token.thread == sched.current->Some_0,
    {
        let current = sched.current_thread();
        match self.inner.exclusive_access(intr) {
            Ok(mut guard) => {
                guard.wait_queue.push(current);
                self.inner.release(intr, guard);
            },
            Err(_) => {
                // Unreachable: the cell is not borrowed between operations.
            },
        }
        SuspendToken { thread: current }
    }
}

/// The wait queue left after `n` signals: each signal removes the front.
pub open spec fn queue_after_signals(queue: Seq<ThreadId>, n: int) -> Seq<ThreadId>
    recommends
        0 <= n <= queue.len(),
{
    queue.skip(n)
}

/// Law: wakeup is strict FIFO.  For threads enqueued in order T1..TN, the
/// (i+1)-th signal finds the queue that `i` earlier signals left behind and
/// wakes exactly the (i+1)-th enqueued thread — the transition each `signal`
/// call promises in its contract.
pub proof fn lemma_condvar_fifo(queue: Seq<ThreadId>, i: int)
    requires
        0 <= i < queue.len(),
    ensures
        queue_after_signals(queue, i).len() > 0,
        queue_after_signals(queue, i)[0] == queue[i],
        queue_after_signals(queue, i).drop_first() == queue_after_signals(queue, i + 1),
{
    assert(queue.skip(i).drop_first() =~= queue.skip(i + 1));
}

/// Law: a signal with an empty queue is a no-op and does not carry over: the
/// queue stays empty, and a thread enqueued afterwards is woken only by a
/// later signal, as the first element of the queue it joined.
pub proof fn lemma_signal_empty_no_carry(t: ThreadId)
    ensures
        queue_after_signals(Seq::<ThreadId>::empty(), 0) == Seq::<ThreadId>::empty(),
        Seq::<ThreadId>::empty().push(t)[0] == t,
{
    assert(Seq::<ThreadId>::empty().skip(0) =~= Seq::<ThreadId>::empty());
}

} // verus!
