use hartos::cell::IntrState;
use hartos::condvar::Condvar;
use hartos::mutex::Mutex;
use hartos::sched::{Scheduler, ThreadId};
use hartos::semaphore::Semaphore;

fn thread(pid: usize, tid: usize) -> ThreadId {
    ThreadId { pid, tid }
}

#[test]
fn condvar_signal_wakes_waiters_in_fifo_order() {
    let mut cv = Condvar::new();
    let mut intr = IntrState { enabled: true };
    let mut sched = Scheduler::new();
    let t1 = thread(1, 0);
    let t2 = thread(2, 0);
    let t3 = thread(3, 0);

    // Enqueue three threads in order via wait_no_sched, committing each switch.
    for t in [t1, t2, t3] {
        sched.current = Some(t);
        let token = cv.wait_no_sched(&mut intr, &sched);
        sched.schedule(token);
    }

    // Three signals wake them in exactly enqueue order.
    cv.signal(&mut intr, &mut sched);
    cv.signal(&mut intr, &mut sched);
    cv.signal(&mut intr, &mut sched);
    assert_eq!(sched.ready, vec![t1, t2, t3]);
}

#[test]
fn condvar_signal_on_empty_queue_is_a_noop_and_does_not_carry_over() {
    let mut cv = Condvar::new();
    let mut intr = IntrState { enabled: true };
    let mut sched = Scheduler::new();

    // Signal before any waiter: nothing happens, nothing is remembered.
    cv.signal(&mut intr, &mut sched);
    assert_eq!(sched.ready.len(), 0);

    // A waiter enqueued afterwards is not woken by the earlier signal.
    let t1 = thread(1, 0);
    sched.current = Some(t1);
    let token = cv.wait_no_sched(&mut intr, &sched);
    sched.schedule(token);
    assert_eq!(sched.ready.len(), 0);
    assert_eq!(sched.current, None);

    // Only a fresh signal wakes it.
    cv.signal(&mut intr, &mut sched);
    assert_eq!(sched.ready, vec![t1]);
}

#[test]
fn condvar_wait_releases_mutex_before_enqueueing() {
    let mut cv = Condvar::new();
    let mut mutex = Mutex::new();
    let mut intr = IntrState { enabled: true };
    let mut sched = Scheduler::new();
    let t1 = thread(1, 0);
    sched.current = Some(t1);
    mutex.lock(&mut intr, &mut sched);
    cv.wait(&mut mutex, &mut intr, &mut sched);
    // The lock is free again and the caller sits on the condvar queue.
    assert_eq!(sched.current, None);
    let t2 = thread(2, 0);
    sched.current = Some(t2);
    mutex.lock(&mut intr, &mut sched);
    assert_eq!(sched.current, Some(t2));
    cv.signal(&mut intr, &mut sched);
    assert_eq!(sched.ready, vec![t1]);
}

#[test]
fn mutex_unlock_hands_off_to_earliest_waiter() {
    let mut mutex = Mutex::new();
    let mut intr = IntrState { enabled: true };
    let mut sched = Scheduler::new();
    let t1 = thread(1, 0);
    let t2 = thread(2, 0);
    sched.current = Some(t1);
    mutex.lock(&mut intr, &mut sched);
    // A second thread contends and blocks.
    sched.current = Some(t2);
    sched.ready = vec![t1];
    mutex.lock(&mut intr, &mut sched);
    assert_eq!(sched.current, Some(t1));
    // t1 unlocks: the lock is handed to t2, which becomes ready.
    mutex.unlock(&mut intr, &mut sched);
    assert_eq!(sched.ready, vec![t2]);
}

#[test]
fn semaphore_counts_and_blocks_below_zero() {
    let mut sem = Semaphore::new(1);
    let mut intr = IntrState { enabled: true };
    let mut sched = Scheduler::new();
    let t1 = thread(1, 0);
    let t2 = thread(2, 0);
    sched.current = Some(t1);
    sem.down(&mut intr, &mut sched);
    // The single unit is taken; the next down blocks its caller.
    sched.current = Some(t2);
    sched.ready = vec![t1];
    sem.down(&mut intr, &mut sched);
    assert_eq!(sched.current, Some(t1));
    // up wakes the earliest blocked waiter.
    sem.up(&mut intr, &mut sched);
    assert_eq!(sched.ready, vec![t2]);
}
