//! Block device: the per-request instantiation of the interrupt bridge.
//!
//! The virtio transport owns the request ring; submitting reads and writes is
//! a synchronous hardware operation outside the model.  What the kernel core
//! owns is one condition variable per ring slot: a requester waits on the
//! condvar of its token, and the interrupt handler signals the condvar of
//! every token the hardware reports completed, in report order, without ever
//! suspending.

use vstd::prelude::*;

use crate::cell::IntrState;
use crate::condvar::Condvar;
use crate::sched::{Scheduler, ThreadId};

verus! {

/// The wait queue a single signal leaves behind.
pub open spec fn spec_signal_queue(q: Seq<ThreadId>) -> Seq<ThreadId> {
    if q.len() == 0 {
        q
    } else {
        q.drop_first()
    }
}

/// The per-token wait queues and the ready queue after the completions in
/// `used` are signalled front to back.
pub open spec fn apply_completions(
    queues: Seq<Seq<ThreadId>>,
    ready: Seq<ThreadId>,
    used: Seq<u16>,
) -> (Seq<Seq<ThreadId>>, Seq<ThreadId>)
    decreases used.len(),
{
    if used.len() == 0 {
        (queues, ready)
    } else {
        let t = used[0] as int;
        let q = queues[t];
        let queues1 = queues.update(t, spec_signal_queue(q));
        let ready1 = if q.len() > 0 {
            ready.push(q[0])
        } else {
            ready
        };
        apply_completions(queues1, ready1, used.drop_first())
    }
}

pub struct VirtIOBlock {
    /// One condvar per virtio ring slot, indexed by request token.
    pub condvars: Vec<Condvar>,
}

impl VirtIOBlock {
    pub open spec fn wf(&self) -> bool {
        forall|i: int| 0 <= i < self.condvars@.len() ==> (#[trigger] self.condvars@[i]).wf()
    }

    /// The per-token wait queues.
    pub open spec fn queues(&self) -> Seq<Seq<ThreadId>> {
        Seq::new(self.condvars@.len(), |i: int| self.condvars@[i].queue())
    }

    /// One condvar per ring slot of the queue the driver was set up with.
    pub fn new(queue_size: usize) -> (dev: Self)
        ensures
            dev.wf(),
            dev.queues().len() == queue_size,
            forall|i: int| 0 <= i < queue_size ==> dev.queues()[i].len() == 0,
    {
        let mut condvars: Vec<Condvar> = Vec::new();
        let mut i: usize = 0;
        #[verifier::loop_isolation(false)]
        while i < queue_size
            invariant
                i <= queue_size,
                condvars@.len() == i,
                forall|j: int| 0 <= j < i ==> (#[trigger] condvars@[j]).wf(),
                forall|j: int| 0 <= j < i ==> condvars@[j].queue().len() == 0,
            decreases queue_size - i,
        {
            condvars.push(Condvar::new());
            i = i + 1;
        }
        VirtIOBlock { condvars }
    }

    /// Interrupt handler (top half): for every token the hardware reported
    /// completed, in report order, wake the earliest waiter on that token's
    /// condvar.  The handler never suspends.
    pub fn handle_irq(&mut self, used: &Vec<u16>, intr: &mut IntrState, sched: &mut Scheduler)
        requires
            old(self).wf(),
            forall|i: int| 0 <= i < used@.len() ==> used@[i] < old(self).queues().len(),
        ensures
            final(self).wf(),
            *final(intr) == *old(intr),
            final(self).queues().len() == old(self).queues().len(),
            (final(self).queues(), final(sched).ready@) == apply_completions(
                old(self).queues(),
                old(sched).ready@,
                used@,
            ),
            final(sched).current == old(sched).current,
    {
        let mut i: usize = 0;
        proof {
            assert(used@.skip(0) =~= used@);
        }
        #[verifier::loop_isolation(false)]
        while i < used.len()
            invariant
                i <= used@.len(),
                self.wf(),
                self.queues().len() == old(self).queues().len(),
                *intr == *old(intr),
                sched.current == old(sched).current,
                apply_completions(old(self).queues(), old(sched).ready@, used@)
                    == apply_completions(self.queues(), sched.ready@, used@.skip(i as int)),
            decreases used@.len() - i,
        {
            let token = used[i];
            let ghost cvs_pre = self.condvars@;
            let ghost queues_pre = self.queues();
            let ghost ready_pre = sched.ready@;
            let ghost rest = used@.skip(i as int);
            let mut cv = self.condvars.remove(token as usize);
            cv.signal(intr, sched);
            self.condvars.insert(token as usize, cv);
            i = i + 1;
            proof {
                let t = token as int;
                assert(rest[0] == used@[i - 1]);
                assert(self.condvars@ =~= cvs_pre.update(t, self.condvars@[t]));
                assert(self.condvars@[t].queue() == spec_signal_queue(queues_pre[t]));
                assert(self.queues() =~= queues_pre.update(t, spec_signal_queue(queues_pre[t])));
                assert(rest.drop_first() =~= used@.skip(i as int));
                assert(apply_completions(queues_pre, ready_pre, rest) == apply_completions(
                    self.queues(),
                    sched.ready@,
                    used@.skip(i as int),
                ));
            }
        }
        proof {
            assert(used@.skip(used@.len() as int) =~= Seq::<u16>::empty());
        }
    }
}

} // verus!
