use hartos::cell::{Fault, IntrState};
use hartos::id_alloc::RecycleAllocator;
use hartos::mem::{LoadedImage, MemorySet, USER_STACK_SIZE};
use hartos::process::ProcessControlBlock;
use hartos::sched::{Scheduler, ThreadId};

const BASE: usize = 0x10000;
const USTACK_BASE: usize = 0x11000;
const ENTRY: usize = 0x10080;
const KERNEL_TOKEN: usize = 0x8000_1234;
const KSTACK_TOP: usize = 0xffff_f000;
const TRAP_HANDLER: usize = 0x8020_0000;

fn make_image() -> LoadedImage {
    let mut data = vec![0u8; 0x4000];
    data[0] = 0x7f;
    data[1] = b'E';
    data[2] = b'L';
    data[3] = b'F';
    LoadedImage {
        memory_set: MemorySet::from_raw(BASE, data),
        ustack_base: USTACK_BASE,
        entry_point: ENTRY,
    }
}

fn read_word(ms: &MemorySet, addr: usize) -> u64 {
    let mut w: u64 = 0;
    for k in 0..8 {
        w |= (ms.read_byte(addr + k) as u64) << (8 * k);
    }
    w
}

#[test]
fn new_process_has_one_ready_thread_and_stdio() {
    let mut sched = Scheduler::new();
    let mut intr = IntrState { enabled: true };
    let mut p = ProcessControlBlock::new(make_image(), 1, KERNEL_TOKEN, KSTACK_TOP, TRAP_HANDLER, &mut sched);
    assert_eq!(p.getpid(), 1);
    assert_eq!(sched.ready, vec![ThreadId { pid: 1, tid: 0 }]);
    let inner = p.inner_exclusive_access(&mut intr).unwrap();
    assert_eq!(inner.thread_count(), 1);
    assert_eq!(inner.fd_table.len(), 3);
    assert!(inner.fd_table[0].is_some());
    assert!(inner.fd_table[1].is_some());
    assert!(inner.fd_table[2].is_some());
    let task = inner.get_task(0);
    assert_eq!(task.tid, 0);
    assert_eq!(task.trap_cx.sepc, ENTRY);
    assert_eq!(task.trap_cx.sp, USTACK_BASE + USER_STACK_SIZE);
    assert_eq!(task.trap_cx.kernel_satp, KERNEL_TOKEN);
    assert_eq!(task.trap_cx.kernel_sp, KSTACK_TOP);
    assert_eq!(task.trap_cx.trap_handler, TRAP_HANDLER);
    assert_eq!(task.trap_cx.a0, 0);
    assert_eq!(task.trap_cx.a1, 0);
    p.inner_release(&mut intr, inner);
}

#[test]
fn tid_allocation_recycles_densely() {
    let mut sched = Scheduler::new();
    let mut intr = IntrState { enabled: true };
    let mut p = ProcessControlBlock::new(make_image(), 1, KERNEL_TOKEN, KSTACK_TOP, TRAP_HANDLER, &mut sched);
    let mut inner = p.inner_exclusive_access(&mut intr).unwrap();
    // Thread 0 exists; new tids grow densely and freed ones are reused.
    assert_eq!(inner.alloc_tid(), 1);
    assert_eq!(inner.alloc_tid(), 2);
    inner.dealloc_tid(1);
    assert_eq!(inner.alloc_tid(), 1);
    p.inner_release(&mut intr, inner);
}

#[test]
fn fd_allocation_takes_first_hole_without_shifting() {
    let mut sched = Scheduler::new();
    let mut intr = IntrState { enabled: true };
    let mut p = ProcessControlBlock::new(make_image(), 1, KERNEL_TOKEN, KSTACK_TOP, TRAP_HANDLER, &mut sched);
    let mut inner = p.inner_exclusive_access(&mut intr).unwrap();
    // No hole: the table grows.
    assert_eq!(inner.alloc_fd(), 3);
    // A hole is reused first, and no other descriptor moves.
    let fd1 = inner.fd_table[1];
    inner.fd_table[1] = None;
    assert_eq!(inner.alloc_fd(), 1);
    inner.fd_table[1] = fd1;
    assert_eq!(inner.alloc_fd(), 3);
    p.inner_release(&mut intr, inner);
}

#[test]
fn fork_copies_memory_and_shares_fd_identities() {
    let mut sched = Scheduler::new();
    let mut intr = IntrState { enabled: true };
    let mut pid_allocator = RecycleAllocator::new();
    assert_eq!(pid_allocator.allocate(), 0);
    let mut parent =
        ProcessControlBlock::new(make_image(), 0, KERNEL_TOKEN, KSTACK_TOP, TRAP_HANDLER, &mut sched);
    // Put a recognizable byte into the parent's memory first.
    let mut inner = parent.inner_exclusive_access(&mut intr).unwrap();
    inner.memory_set.write_byte(BASE + 100, 42);
    parent.inner_release(&mut intr, inner);

    let mut child = parent.fork(&mut pid_allocator, 0xffff_e000, &mut intr, &mut sched);
    assert_eq!(child.getpid(), 1);
    assert_eq!(sched.ready.last(), Some(&ThreadId { pid: 1, tid: 0 }));

    // The child observes the same memory contents at the instant of the fork.
    let child_inner = child.inner_exclusive_access(&mut intr).unwrap();
    let parent_inner = parent.inner_exclusive_access(&mut intr).unwrap();
    assert_eq!(child_inner.memory_set.read_byte(BASE + 100), 42);
    assert_eq!(child_inner.memory_set.read_byte(BASE), 0x7f);
    assert_eq!(child_inner.fd_table, parent_inner.fd_table);
    assert_eq!(child_inner.parent, Some(0));
    assert_eq!(parent_inner.children, vec![1]);
    assert_eq!(child_inner.thread_count(), 1);
    let child_task = child_inner.get_task(0);
    assert_eq!(child_task.tid, 0);
    assert_eq!(child_task.kstack_top, 0xffff_e000);
    assert_eq!(child_task.trap_cx.kernel_sp, 0xffff_e000);
    parent.inner_release(&mut intr, parent_inner);
    child.inner_release(&mut intr, child_inner);
}

#[test]
fn fork_isolates_later_writes_in_both_directions() {
    let mut sched = Scheduler::new();
    let mut intr = IntrState { enabled: true };
    let mut pid_allocator = RecycleAllocator::new();
    assert_eq!(pid_allocator.allocate(), 0);
    let mut parent =
        ProcessControlBlock::new(make_image(), 0, KERNEL_TOKEN, KSTACK_TOP, TRAP_HANDLER, &mut sched);
    let mut child = parent.fork(&mut pid_allocator, 0xffff_e000, &mut intr, &mut sched);

    // A write in the child is not visible in the parent.
    let mut child_inner = child.inner_exclusive_access(&mut intr).unwrap();
    child_inner.memory_set.write_byte(BASE + 7, 9);
    child.inner_release(&mut intr, child_inner);
    let parent_inner = parent.inner_exclusive_access(&mut intr).unwrap();
    assert_eq!(parent_inner.memory_set.read_byte(BASE + 7), 0);
    parent.inner_release(&mut intr, parent_inner);

    // And vice versa.
    let mut parent_inner = parent.inner_exclusive_access(&mut intr).unwrap();
    parent_inner.memory_set.write_byte(BASE + 8, 5);
    parent.inner_release(&mut intr, parent_inner);
    let child_inner = child.inner_exclusive_access(&mut intr).unwrap();
    assert_eq!(child_inner.memory_set.read_byte(BASE + 8), 0);
    assert_eq!(child_inner.memory_set.read_byte(BASE + 7), 9);
    child.inner_release(&mut intr, child_inner);
}

#[test]
fn exec_faults_unless_exactly_one_thread_lives() {
    let mut sched = Scheduler::new();
    let mut intr = IntrState { enabled: true };
    let mut p = ProcessControlBlock::new(make_image(), 1, KERNEL_TOKEN, KSTACK_TOP, TRAP_HANDLER, &mut sched);
    // Give the process a second live thread slot.
    let mut inner = p.inner_exclusive_access(&mut intr).unwrap();
    let mut extra = inner.get_task(0);
    extra.tid = inner.alloc_tid();
    inner.tasks.push(Some(extra));
    p.inner_release(&mut intr, inner);

    let r = p.exec(make_image(), &vec![], KERNEL_TOKEN, TRAP_HANDLER, &mut intr);
    assert_eq!(r, Err(Fault::ThreadCountViolation));
}

#[test]
fn exec_writes_argument_vector_onto_the_new_stack() {
    let mut sched = Scheduler::new();
    let mut intr = IntrState { enabled: true };
    let mut p = ProcessControlBlock::new(make_image(), 1, KERNEL_TOKEN, KSTACK_TOP, TRAP_HANDLER, &mut sched);
    let args = vec![b"ab".to_vec(), b"c".to_vec()];
    let r = p.exec(make_image(), &args, KERNEL_TOKEN, TRAP_HANDLER, &mut intr);
    assert_eq!(r, Ok(()));

    let top = USTACK_BASE + USER_STACK_SIZE;
    let argv_base = top - 8 * 3;
    let addr0 = argv_base - 3;
    let addr1 = addr0 - 2;
    let aligned_sp = addr1 - addr1 % 8;

    let inner = p.inner_exclusive_access(&mut intr).unwrap();
    let ms = &inner.memory_set;
    // The strings, each NUL-terminated.
    assert_eq!(ms.read_byte(addr0), b'a');
    assert_eq!(ms.read_byte(addr0 + 1), b'b');
    assert_eq!(ms.read_byte(addr0 + 2), 0);
    assert_eq!(ms.read_byte(addr1), b'c');
    assert_eq!(ms.read_byte(addr1 + 1), 0);
    // The NUL-terminated pointer array.
    assert_eq!(read_word(ms, argv_base), addr0 as u64);
    assert_eq!(read_word(ms, argv_base + 8), addr1 as u64);
    assert_eq!(read_word(ms, argv_base + 16), 0);
    // The rewritten trap context: argc and the pointer-array base in the two
    // argument registers, the stack pointer aligned to eight bytes.
    let task = inner.get_task(0);
    assert_eq!(task.trap_cx.a0, 2);
    assert_eq!(task.trap_cx.a1, argv_base);
    assert_eq!(task.trap_cx.sp, aligned_sp);
    assert_eq!(task.trap_cx.sepc, ENTRY);
    // Descriptors survive exec.
    assert_eq!(inner.fd_table.len(), 3);
    assert!(inner.fd_table[0].is_some());
    p.inner_release(&mut intr, inner);
}

#[test]
fn exec_with_no_arguments_writes_only_the_null_entry() {
    let mut sched = Scheduler::new();
    let mut intr = IntrState { enabled: true };
    let mut p = ProcessControlBlock::new(make_image(), 1, KERNEL_TOKEN, KSTACK_TOP, TRAP_HANDLER, &mut sched);
    let r = p.exec(make_image(), &vec![], KERNEL_TOKEN, TRAP_HANDLER, &mut intr);
    assert_eq!(r, Ok(()));
    let top = USTACK_BASE + USER_STACK_SIZE;
    let argv_base = top - 8;
    let inner = p.inner_exclusive_access(&mut intr).unwrap();
    assert_eq!(read_word(&inner.memory_set, argv_base), 0);
    let task = inner.get_task(0);
    assert_eq!(task.trap_cx.a0, 0);
    assert_eq!(task.trap_cx.a1, argv_base);
    p.inner_release(&mut intr, inner);
}
