//! Scheduler glue: the ready queue and the current-task slot.
//!
//! The kernel is single-hart and cooperative: exactly one thread runs at any
//! instant, and every runnable-but-not-current thread sits in a FIFO ready
//! queue.  The scheduler itself is a collaborator of the synchronization and
//! device layers, but its contract is load-bearing, so the operations those
//! layers call — enqueue a new task, wake a blocked task, commit a suspension —
//! are stated here exactly.

use vstd::prelude::*;

verus! {

/// Identity of a thread: the pid of its owning process and its thread id
/// inside that process.
#[derive(Clone, Copy, PartialEq, Eq, Structural, Debug)]
pub struct ThreadId {
    pub pid: usize,
    pub tid: usize,
}

/// Token for a thread that has been enqueued on a wait queue and marked
/// blocked but whose context switch has not happened yet.  Handing the token
/// to [`Scheduler::schedule`] commits the switch.  The two steps are separate
/// so that a caller can release an unrelated lock in between.
pub struct SuspendToken {
    pub thread: ThreadId,
}

/// The ready queue and the current-task slot of the single hart.
pub struct Scheduler {
    /// The thread that is executing right now, if any.
    pub current: Option<ThreadId>,
    /// Runnable threads in FIFO order; the front runs next.
    pub ready: Vec<ThreadId>,
}

impl Scheduler {
    pub fn new() -> (s: Self)
        ensures
            s.current is None,
            s.ready@ == Seq::<ThreadId>::empty(),
    {
        Scheduler { current: None, ready: Vec::new() }
    }

    /// Enqueue a newly created thread at the back of the ready queue.
    pub fn add_task(&mut self, thread: ThreadId)
        ensures
            final(self).ready@ == old(self).ready@.push(thread),
            final(self).current == old(self).current,
    {
        self.ready.push(thread);
    }

    /// Make a blocked thread ready again.  Wakeup is enqueue-at-the-back:
    /// woken threads run in wakeup order, after everything already ready.
    pub fn wakeup_task(&mut self, thread: ThreadId)
        ensures
            final(self).ready@ == old(self).ready@.push(thread),
            final(self).current == old(self).current,
    {
        self.ready.push(thread);
    }

    /// The identity of the thread executing right now.
    pub fn current_thread(&self) -> (t: ThreadId)
        requires
            self.current is Some,
        ensures
            t == self.current->Some_0,
    {
        match &self.current {
            Some(t) => *t,
            None => ThreadId { pid: 0, tid: 0 },
        }
    }

    /// Commit the context switch prepared by a wait-queue suspension: the
    /// suspended thread stops being current and the front of the ready queue
    /// (if any) takes its place.  The suspended thread itself is now owned by
    /// whatever wait queue holds it.
    pub fn schedule(&mut self, token: SuspendToken)
        requires
            old(self).current == Some(token.thread),
        ensures
            old(self).ready@.len() == 0 ==> final(self).current is None
                && final(self).ready@ == old(self).ready@,
            old(self).ready@.len() > 0 ==> final(self).current == Some(old(self).ready@[0])
                && final(self).ready@ == old(self).ready@.drop_first(),
    {
        let _ = token;
        self.block_current_and_run_next();
    }

    /// Block the current thread right away and run the next ready one.  This
    /// is the one-step form used by the mutex-guarded wait path, where no
    /// other lock is held and the two-phase split is not needed.
    pub fn block_current_and_run_next(&mut self)
        requires
            old(self).current is Some,
        ensures
            old(self).ready@.len() == 0 ==> final(self).current is None
                && final(self).ready@ == old(self).ready@,
            old(self).ready@.len() > 0 ==> final(self).current == Some(old(self).ready@[0])
                && final(self).ready@ == old(self).ready@.drop_first(),
    {
        if self.ready.len() > 0 {
            let next = self.ready.remove(0);
            self.current = Some(next);
        } else {
            self.current = None;
        }
    }
}

} // verus!
