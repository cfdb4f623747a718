//! Process control block and its lifecycle.
//!
//! A process owns an address space, an ordered list of optional thread slots
//! (holes keep tids stable for running siblings), a file-descriptor table
//! (first-free slot allocation, holes never compacted), a recycling thread-id
//! allocator, and three parallel tables of kernel synchronization objects.
//! All per-process mutable state sits behind one interrupt-safe cell, so any
//! system call touching it serializes with the sibling threads' calls.
//!
//! Parent and child reference each other asymmetrically: the parent owns its
//! children's lifetime (their pids sit in its `children` list and the process
//! table keeps the blocks alive), while a child holds only a lookup pid for
//! its parent, so no cycle keeps either alive.

use vstd::prelude::*;
use vstd::pervasive::unreached;

use crate::cell::{Fault, InterruptSafeCell, IntrState};
use crate::condvar::Condvar;
use crate::id_alloc::RecycleAllocator;
use crate::mem::{le_byte, LoadedImage, MemorySet, USER_STACK_SIZE};
use crate::mutex::Mutex;
use crate::sched::{Scheduler, ThreadId};
use crate::semaphore::Semaphore;
use crate::task::{spec_app_init_context, ustack_top_of, TaskControlBlock, TrapContext};

verus! {

/// Pending-signal bits of a process.
#[derive(Clone, Copy, PartialEq, Eq, Structural, Debug)]
pub struct SignalFlags {
    pub bits: u32,
}

impl SignalFlags {
    pub fn empty() -> (s: Self)
        ensures
            s.bits == 0,
    {
        SignalFlags { bits: 0 }
    }
}

/// An open-file handle in the descriptor table.  Descriptors duplicated by
/// `fork` alias the same underlying file object, so a handle is the identity
/// of that object, not its content.
#[derive(Clone, Copy, PartialEq, Eq, Structural, Debug)]
pub enum Fd {
    Stdin,
    Stdout,
    /// Any other file object, by its identity in the file layer.
    File(usize),
}

pub struct ProcessControlBlockInner {
    pub is_zombie: bool,
    pub memory_set: MemorySet,
    /// Lookup-only back-reference: the parent's pid.
    pub parent: Option<usize>,
    /// Owned forward references: the children's pids.
    pub children: Vec<usize>,
    pub exit_code: i32,
    /// Descriptor table: first-free allocation, holes never shift.
    pub fd_table: Vec<Option<Fd>>,
    pub signals: SignalFlags,
    /// Thread slots; the main thread always occupies slot 0.
    pub tasks: Vec<Option<TaskControlBlock>>,
    /// Recycling tid allocator (dense reuse, unlike the fd table).
    pub task_res_allocator: RecycleAllocator,
    pub mutex_list: Vec<Option<Mutex>>,
    pub semaphore_list: Vec<Option<Semaphore>>,
    pub condvar_list: Vec<Option<Condvar>>,
}

impl ProcessControlBlockInner {
    pub open spec fn wf(&self) -> bool {
        &&& self.task_res_allocator.wf()
        &&& self.memory_set.wf()
        &&& self.tasks@.len() > 0 ==> self.tasks@[0] is Some
    }

    pub fn alloc_tid(&mut self) -> (tid: usize)
        requires
            old(self).task_res_allocator.wf(),
            old(self).task_res_allocator.high_water() < usize::MAX,
        ensures
            final(self).task_res_allocator.wf(),
            !old(self).task_res_allocator.allocated(tid),
            final(self).task_res_allocator.allocated(tid),
            forall|x: usize|
                x != tid ==> final(self).task_res_allocator.allocated(x) == old(
                    self,
                ).task_res_allocator.allocated(x),
            final(self).task_res_allocator.high_water() <= old(
                self,
            ).task_res_allocator.high_water() + 1,
            tid < final(self).task_res_allocator.high_water(),
            *final(self) == (ProcessControlBlockInner {
                task_res_allocator: final(self).task_res_allocator,
                ..*old(self)
            }),
    {
        self.task_res_allocator.allocate()
    }

    pub fn dealloc_tid(&mut self, tid: usize)
        requires
            old(self).task_res_allocator.wf(),
            old(self).task_res_allocator.allocated(tid),
        ensures
            final(self).task_res_allocator.wf(),
            !final(self).task_res_allocator.allocated(tid),
            forall|x: usize|
                x != tid ==> final(self).task_res_allocator.allocated(x) == old(
                    self,
                ).task_res_allocator.allocated(x),
            *final(self) == (ProcessControlBlockInner {
                task_res_allocator: final(self).task_res_allocator,
                ..*old(self)
            }),
    {
        self.task_res_allocator.deallocate(tid)
    }

    pub fn get_task(&self, tid: usize) -> (task: TaskControlBlock)
        requires
            tid < self.tasks@.len(),
            self.tasks@[tid as int] is Some,
        ensures
            task == self.tasks@[tid as int]->Some_0,
    {
        match &self.tasks[tid] {
            Some(task) => *task,
            None => unreached(),
        }
    }

    /// Length of the thread-slot list.  Holes left by exited threads count:
    /// the list never shrinks while siblings may still index into it.
    pub fn thread_count(&self) -> (n: usize)
        ensures
            n == self.tasks@.len(),
    {
        self.tasks.len()
    }

    /// First free descriptor slot, growing the table if none is free.  The
    /// slot is returned still empty; existing descriptor numbers never move.
    pub fn alloc_fd(&mut self) -> (fd: usize)
        requires
            old(self).fd_table@.len() < usize::MAX,
        ensures
            *final(self) == (ProcessControlBlockInner {
                fd_table: final(self).fd_table,
                ..*old(self)
            }),
            fd < final(self).fd_table@.len(),
            final(self).fd_table@[fd as int] is None,
            forall|j: int| 0 <= j < fd ==> final(self).fd_table@[j] is Some,
            forall|j: int|
                0 <= j < old(self).fd_table@.len() ==> final(self).fd_table@[j] == old(
                    self,
                ).fd_table@[j],
            final(self).fd_table@.len() == if fd < old(self).fd_table@.len() {
                old(self).fd_table@.len()
            } else {
                old(self).fd_table@.len() + 1
            },
    {
        let mut i: usize = 0;
        while i < self.fd_table.len()
            invariant
                i <= self.fd_table@.len(),
                *self == *old(self),
                forall|j: int| 0 <= j < i ==> self.fd_table@[j] is Some,
            decreases self.fd_table@.len() - i,
        {
            if self.fd_table[i].is_none() {
                return i;
            }
            i = i + 1;
        }
        self.fd_table.push(None);
        self.fd_table.len() - 1
    }
}

/// The byte sequences of an argument vector.
pub open spec fn args_view(args: Seq<Vec<u8>>) -> Seq<Seq<u8>> {
    Seq::new(args.len(), |i: int| args[i]@)
}

/// Total size of the first `k` argument strings as written onto the user
/// stack: each string followed by its NUL terminator.
pub open spec fn args_prefix_size(args: Seq<Seq<u8>>, k: int) -> int
    decreases k,
{
    if k <= 0 {
        0
    } else {
        args_prefix_size(args, k - 1) + args[k - 1].len() + 1
    }
}

pub proof fn lemma_prefix_nonneg(args: Seq<Seq<u8>>, k: int)
    ensures
        0 <= args_prefix_size(args, k),
    decreases k,
{
    if k > 0 {
        lemma_prefix_nonneg(args, k - 1);
    }
}

pub proof fn lemma_prefix_mono(args: Seq<Seq<u8>>, k1: int, k2: int)
    requires
        k1 <= k2,
    ensures
        args_prefix_size(args, k1) <= args_prefix_size(args, k2),
    decreases k2 - k1,
{
    if k2 > k1 {
        lemma_prefix_mono(args, k1, k2 - 1);
    }
}

/// Top of the user stack that `exec` lays the argument vector under.
pub open spec fn exec_ustack_top(image: LoadedImage) -> int {
    image.ustack_base + USER_STACK_SIZE
}

/// Base of the NUL-terminated pointer array: `args.len() + 1` eight-byte
/// slots right under the stack top.
pub open spec fn exec_argv_base(image: LoadedImage, args: Seq<Seq<u8>>) -> int {
    exec_ustack_top(image) - 8 * (args.len() + 1)
}

/// Address of argument string `i`: the strings grow downward under the
/// pointer array, each with its NUL terminator.
pub open spec fn exec_arg_addr(image: LoadedImage, args: Seq<Seq<u8>>, i: int) -> int {
    exec_argv_base(image, args) - args_prefix_size(args, i + 1)
}

/// Address of byte `k` of pointer-array entry `i`.
pub open spec fn argv_entry_addr(image: LoadedImage, args: Seq<Seq<u8>>, i: int, k: int) -> int {
    exec_argv_base(image, args) + 8 * i + k
}

/// Lowest byte the argument layout occupies.
pub open spec fn exec_lowest(image: LoadedImage, args: Seq<Seq<u8>>) -> int {
    exec_argv_base(image, args) - args_prefix_size(args, args.len() as int)
}

/// The user stack pointer `exec` hands the new program: the end of the
/// argument layout, aligned down to eight bytes.
pub open spec fn exec_user_sp(image: LoadedImage, args: Seq<Seq<u8>>) -> int {
    exec_lowest(image, args) - exec_lowest(image, args) % 8
}

/// Copy one argument string plus its NUL terminator to `addr`, changing no
/// other byte.
fn write_arg_bytes(ms: &mut MemorySet, addr: usize, arg: &Vec<u8>)
    requires
        old(ms).wf(),
        old(ms).contains(addr as int),
        old(ms).contains(addr + arg@.len()),
    ensures
        final(ms).wf(),
        final(ms).base == old(ms).base,
        final(ms).fb_mapped == old(ms).fb_mapped,
        final(ms).data@.len() == old(ms).data@.len(),
        forall|j: int| 0 <= j < arg@.len() ==> final(ms).byte_at(addr + j) == arg@[j],
        final(ms).byte_at(addr + arg@.len()) == 0,
        forall|a: int|
            old(ms).contains(a) && !(addr <= a <= addr + arg@.len()) ==> final(ms).byte_at(a)
                == old(ms).byte_at(a),
{
    let mut j: usize = 0;
    #[verifier::loop_isolation(false)]
    while j < arg.len()
        invariant
            j <= arg@.len(),
            ms.wf(),
            ms.base == old(ms).base,
            ms.fb_mapped == old(ms).fb_mapped,
            ms.data@.len() == old(ms).data@.len(),
            forall|t: int| 0 <= t < j ==> ms.byte_at(addr + t) == arg@[t],
            forall|a: int|
                old(ms).contains(a) && !(addr <= a < addr + j) ==> ms.byte_at(a) == old(
                    ms,
                ).byte_at(a),
        decreases arg@.len() - j,
    {
        ms.write_byte(addr + j, arg[j]);
        j = j + 1;
    }
    ms.write_byte(addr + arg.len(), 0);
}

pub struct ProcessControlBlock {
    /// Process identity; immutable for the process's whole life.
    pub pid: usize,
    inner: InterruptSafeCell<ProcessControlBlockInner>,
}

impl ProcessControlBlock {
    /// Process identity as seen by specifications.
    pub closed spec fn pid_spec(&self) -> usize {
        self.pid
    }

    /// A borrow of the per-process cell is live.
    pub closed spec fn inner_borrowed(&self) -> bool {
        self.inner.is_borrowed()
    }

    /// The per-process state (meaningful only while not borrowed).
    pub closed spec fn inner_spec(&self) -> ProcessControlBlockInner {
        self.inner.stored()
    }

    /// The interrupt-enable state saved by the live borrow.
    pub closed spec fn inner_saved_intr(&self) -> bool {
        self.inner.saved_intr_spec()
    }

    pub open spec fn wf(&self) -> bool {
        &&& !self.inner_borrowed()
        &&& self.inner_spec().wf()
    }

    /// Borrow the per-process state, masking interrupts.  A nested borrow is
    /// the fatal `BorrowViolation` fault.
    pub fn inner_exclusive_access(&mut self, intr: &mut IntrState) -> (r: Result<
        ProcessControlBlockInner,
        Fault,
    >)
        ensures
            final(self).pid_spec() == old(self).pid_spec(),
            r is Err <==> old(self).inner_borrowed(),
            old(self).inner_borrowed() ==> r == Err::<ProcessControlBlockInner, Fault>(
                Fault::BorrowViolation,
            ) && *final(self) == *old(self) && *final(intr) == *old(intr),
            !old(self).inner_borrowed() ==> {
                &&& r == Ok::<ProcessControlBlockInner, Fault>(old(self).inner_spec())
                &&& final(self).inner_borrowed()
                &&& final(self).inner_saved_intr() == old(intr).enabled
                &&& !final(intr).enabled
            },
    {
        self.inner.exclusive_access(intr)
    }

    /// Return the per-process state and restore the saved interrupt-enable
    /// state exactly.
    pub fn inner_release(&mut self, intr: &mut IntrState, inner: ProcessControlBlockInner)
        requires
            old(self).inner_borrowed(),
        ensures
            final(self).pid_spec() == old(self).pid_spec(),
            !final(self).inner_borrowed(),
            final(self).inner_spec() == inner,
            final(intr).enabled == old(self).inner_saved_intr(),
    {
        self.inner.release(intr, inner)
    }

    pub fn getpid(&self) -> (pid: usize)
        ensures
            pid == self.pid_spec(),
    {
        self.pid
    }

    /// Build the first process of a program image: pid as given, descriptors
    /// 0/1/2 pre-bound to standard input and output, thread 0 spawned with a
    /// fully initialized trap context and enqueued ready.
    pub fn new(
        image: LoadedImage,
        pid: usize,
        kernel_token: usize,
        kstack_top: usize,
        trap_handler: usize,
        sched: &mut Scheduler,
    ) -> (p: ProcessControlBlock)
        requires
            image.wf(),
        ensures
            p.wf(),
            p.pid_spec() == pid,
            !p.inner_spec().is_zombie,
            p.inner_spec().memory_set == image.memory_set,
            p.inner_spec().parent is None,
            p.inner_spec().children@ == Seq::<usize>::empty(),
            p.inner_spec().exit_code == 0,
            p.inner_spec().signals.bits == 0,
            p.inner_spec().fd_table@ == seq![
                Some(Fd::Stdin),
                Some(Fd::Stdout),
                Some(Fd::Stdout),
            ],
            p.inner_spec().tasks@.len() == 1,
            p.inner_spec().tasks@[0] == Some(
                TaskControlBlock {
                    tid: 0,
                    ustack_base: image.ustack_base,
                    kstack_top,
                    trap_cx: spec_app_init_context(
                        image.entry_point,
                        (image.ustack_base + USER_STACK_SIZE) as usize,
                        kernel_token,
                        kstack_top,
                        trap_handler,
                    ),
                },
            ),
            p.inner_spec().task_res_allocator.allocated(0),
            p.inner_spec().mutex_list@ == Seq::<Option<Mutex>>::empty(),
            p.inner_spec().semaphore_list@ == Seq::<Option<Semaphore>>::empty(),
            p.inner_spec().condvar_list@ == Seq::<Option<Condvar>>::empty(),
            final(sched).ready@ == old(sched).ready@.push(ThreadId { pid, tid: 0 }),
            final(sched).current == old(sched).current,
    {
        let mut fd_table: Vec<Option<Fd>> = Vec::new();
        fd_table.push(Some(Fd::Stdin));
        fd_table.push(Some(Fd::Stdout));
        fd_table.push(Some(Fd::Stdout));
        proof {
            assert(fd_table@ =~= seq![Some(Fd::Stdin), Some(Fd::Stdout), Some(Fd::Stdout)]);
        }
        let ustack_base = image.ustack_base;
        let entry_point = image.entry_point;
        let mut inner = ProcessControlBlockInner {
            is_zombie: false,
            memory_set: image.memory_set,
            parent: None,
            children: Vec::new(),
            exit_code: 0,
            fd_table,
            signals: SignalFlags::empty(),
            tasks: Vec::new(),
            task_res_allocator: RecycleAllocator::new(),
            mutex_list: Vec::new(),
            semaphore_list: Vec::new(),
            condvar_list: Vec::new(),
        };
        let tid = inner.alloc_tid();
        let ustack_top = ustack_top_of(ustack_base, 0);
        let trap_cx = TrapContext::app_init_context(
            entry_point,
            ustack_top,
            kernel_token,
            kstack_top,
            trap_handler,
        );
        let task = TaskControlBlock { tid, ustack_base, kstack_top, trap_cx };
        inner.tasks.push(Some(task));
        let process = ProcessControlBlock { pid, inner: InterruptSafeCell::new(inner) };
        sched.add_task(ThreadId { pid, tid: 0 });
        process
    }

    /// Replace the program of a single-threaded process.
    ///
    /// A process with any other number of live thread slots faults instead of
    /// silently proceeding: multi-threaded exec is unsupported in this design.
    /// On success the old address space is discarded outright, the argument
    /// strings and the NUL-terminated pointer array are written byte by byte
    /// onto the new user stack (eight-byte aligned), and thread 0's trap
    /// context is rewritten so the two argument registers hold argc and the
    /// pointer-array base.  The pid, the open file descriptors, and the
    /// synchronization-object tables are preserved.
    pub fn exec(
        &mut self,
        image: LoadedImage,
        args: &Vec<Vec<u8>>,
        kernel_token: usize,
        trap_handler: usize,
        intr: &mut IntrState,
    ) -> (r: Result<(), Fault>)
        requires
            old(self).wf(),
            image.wf(),
            8 * (args@.len() + 1) + args_prefix_size(args_view(args@), args@.len() as int)
                <= USER_STACK_SIZE,
        ensures
            final(self).wf(),
            final(self).pid_spec() == old(self).pid_spec(),
            *final(intr) == *old(intr),
            r is Err <==> old(self).inner_spec().tasks@.len() != 1,
            r is Err ==> r == Err::<(), Fault>(Fault::ThreadCountViolation)
                && final(self).inner_spec() == old(self).inner_spec(),
            r is Ok ==> ({
                let av = args_view(args@);
                let n = av.len() as int;
                let argv_base = exec_argv_base(image, av);
                let ms = final(self).inner_spec().memory_set;
                let inner_now = final(self).inner_spec();
                let inner_was = old(self).inner_spec();
                &&& ms.base == image.memory_set.base
                &&& ms.fb_mapped == image.memory_set.fb_mapped
                &&& ms.data@.len() == image.memory_set.data@.len()
                &&& forall|i: int, j: int|
                    0 <= i < n && 0 <= j < av[i].len() ==> ms.byte_at(
                        exec_arg_addr(image, av, i) + j,
                    ) == av[i][j]
                &&& forall|i: int|
                    0 <= i < n ==> ms.byte_at(exec_arg_addr(image, av, i) + av[i].len()) == 0
                &&& forall|i: int, k: int|
                    0 <= i < n && 0 <= k < 8 ==> #[trigger] ms.byte_at(
                        argv_entry_addr(image, av, i, k),
                    ) == le_byte(exec_arg_addr(image, av, i) as u64, k)
                &&& forall|k: int|
                    0 <= k < 8 ==> ms.byte_at(argv_base + 8 * n + k) == le_byte(0u64, k)
                &&& forall|a: int|
                    image.memory_set.contains(a) && !(exec_lowest(image, av) <= a
                        < exec_ustack_top(image)) ==> ms.byte_at(a) == image.memory_set.byte_at(a)
                &&& inner_now.tasks@.len() == 1
                &&& inner_now.tasks@[0] == Some(
                    TaskControlBlock {
                        tid: inner_was.tasks@[0]->Some_0.tid,
                        ustack_base: image.ustack_base,
                        kstack_top: inner_was.tasks@[0]->Some_0.kstack_top,
                        trap_cx: TrapContext {
                            sepc: image.entry_point,
                            sp: exec_user_sp(image, av) as usize,
                            kernel_satp: kernel_token,
                            kernel_sp: inner_was.tasks@[0]->Some_0.kstack_top,
                            trap_handler,
                            a0: args@.len() as usize,
                            a1: argv_base as usize,
                        },
                    },
                )
                &&& inner_now.is_zombie == inner_was.is_zombie
                &&& inner_now.parent == inner_was.parent
                &&& inner_now.children == inner_was.children
                &&& inner_now.exit_code == inner_was.exit_code
                &&& inner_now.fd_table == inner_was.fd_table
                &&& inner_now.signals == inner_was.signals
                &&& inner_now.task_res_allocator == inner_was.task_res_allocator
                &&& inner_now.mutex_list == inner_was.mutex_list
                &&& inner_now.semaphore_list == inner_was.semaphore_list
                &&& inner_now.condvar_list == inner_was.condvar_list
            }),
    {
        let mut inner = match self.inner.exclusive_access(intr) {
            Ok(guard) => guard,
            Err(_) => unreached(),
        };
        if inner.thread_count() != 1 {
            self.inner.release(intr, inner);
            return Err(Fault::ThreadCountViolation);
        }
        let task0 = inner.get_task(0);
        let LoadedImage { memory_set, ustack_base, entry_point } = image;
        let mut ms = memory_set;
        let ghost orig = ms;
        let ghost av = args_view(args@);
        let n = args.len();
        proof {
            lemma_prefix_nonneg(av, n as int);
        }
        let top = ustack_base + USER_STACK_SIZE;
        let mut user_sp = top - 8 * (n + 1);
        let argv_base = user_sp;
        ms.write_word(argv_base + 8 * n, 0);
        let mut i: usize = 0;
        #[verifier::loop_isolation(false)]
        while i < n
            invariant
                i <= n,
                user_sp == exec_argv_base(image, av) - args_prefix_size(av, i as int),
                ms.wf(),
                ms.base == orig.base,
                ms.fb_mapped == orig.fb_mapped,
                ms.data@.len() == orig.data@.len(),
                forall|i2: int, j: int|
                    0 <= i2 < i && 0 <= j < av[i2].len() ==> ms.byte_at(
                        exec_arg_addr(image, av, i2) + j,
                    ) == av[i2][j],
                forall|i2: int|
                    0 <= i2 < i ==> ms.byte_at(exec_arg_addr(image, av, i2) + av[i2].len()) == 0,
                forall|i2: int, k: int|
                    0 <= i2 < i && 0 <= k < 8 ==> #[trigger] ms.byte_at(
                        argv_entry_addr(image, av, i2, k),
                    ) == le_byte(exec_arg_addr(image, av, i2) as u64, k),
                forall|k: int| 0 <= k < 8 ==> ms.byte_at(argv_base + 8 * n + k) == le_byte(0u64, k),
                forall|a: int|
                    orig.contains(a) && !(user_sp <= a < top) ==> ms.byte_at(a) == orig.byte_at(a),
            decreases n - i,
        {
            let arg = &args[i];
            proof {
                lemma_prefix_nonneg(av, i as int);
                lemma_prefix_mono(av, i + 1, n as int);
                assert(av[i as int].len() == arg@.len());
                assert(args_prefix_size(av, i + 1) == args_prefix_size(av, i as int) + arg@.len()
                    + 1);
            }
            user_sp = user_sp - (arg.len() + 1);
            ms.write_word(argv_base + 8 * i, user_sp as u64);
            proof {
                assert forall|i2: int, j: int|
                    0 <= i2 < i && 0 <= j < av[i2].len() implies ms.byte_at(
                    exec_arg_addr(image, av, i2) + j,
                ) == av[i2][j] by {
                    lemma_prefix_nonneg(av, i2);
                    lemma_prefix_mono(av, i2 + 1, n as int);
                    assert(args_prefix_size(av, i2 + 1) == args_prefix_size(av, i2)
                        + av[i2].len() + 1);
                    assert(exec_arg_addr(image, av, i2) + j < argv_base);
                    assert(ustack_base <= exec_arg_addr(image, av, i2) + j);
                }
                assert forall|i2: int|
                    0 <= i2 < i implies ms.byte_at(exec_arg_addr(image, av, i2) + av[i2].len())
                    == 0 by {
                    lemma_prefix_nonneg(av, i2);
                    lemma_prefix_mono(av, i2 + 1, n as int);
                    assert(args_prefix_size(av, i2 + 1) == args_prefix_size(av, i2)
                        + av[i2].len() + 1);
                    assert(exec_arg_addr(image, av, i2) + av[i2].len() < argv_base);
                    assert(ustack_base <= exec_arg_addr(image, av, i2));
                }
                assert forall|i2: int, k: int|
                    0 <= i2 < i && 0 <= k < 8 implies #[trigger] ms.byte_at(
                    argv_entry_addr(image, av, i2, k),
                ) == le_byte(exec_arg_addr(image, av, i2) as u64, k) by {
                    assert(argv_entry_addr(image, av, i2, k) < argv_base + 8 * i);
                }
                assert forall|k: int|
                    0 <= k < 8 implies ms.byte_at(argv_base + 8 * n + k) == le_byte(0u64, k) by {
                    assert(argv_base + 8 * n + k >= argv_base + 8 * i + 8);
                }
            }
            write_arg_bytes(&mut ms, user_sp, arg);
            proof {
                assert(exec_arg_addr(image, av, i as int) == user_sp as int);
                assert forall|i2: int, j: int|
                    0 <= i2 < i + 1 && 0 <= j < av[i2].len() implies ms.byte_at(
                    exec_arg_addr(image, av, i2) + j,
                ) == av[i2][j] by {
                    if i2 < i {
                        lemma_prefix_nonneg(av, i2);
                        lemma_prefix_mono(av, i2 + 1, i as int);
                        assert(args_prefix_size(av, i2 + 1) == args_prefix_size(av, i2)
                            + av[i2].len() + 1);
                        assert(exec_arg_addr(image, av, i2) >= exec_arg_addr(image, av, i - 1));
                        assert(exec_arg_addr(image, av, i2) + j > user_sp + arg@.len());
                    }
                }
                assert forall|i2: int|
                    0 <= i2 < i + 1 implies ms.byte_at(
                    exec_arg_addr(image, av, i2) + av[i2].len(),
                ) == 0 by {
                    if i2 < i {
                        lemma_prefix_nonneg(av, i2);
                        lemma_prefix_mono(av, i2 + 1, i as int);
                        assert(args_prefix_size(av, i2 + 1) == args_prefix_size(av, i2)
                            + av[i2].len() + 1);
                        assert(exec_arg_addr(image, av, i2) + av[i2].len() > user_sp + arg@.len());
                    }
                }
                assert forall|i2: int, k: int|
                    0 <= i2 < i + 1 && 0 <= k < 8 implies #[trigger] ms.byte_at(
                    argv_entry_addr(image, av, i2, k),
                ) == le_byte(exec_arg_addr(image, av, i2) as u64, k) by {
                    assert(argv_entry_addr(image, av, i2, k) > user_sp + arg@.len());
                    if i2 == i {
                        assert(argv_entry_addr(image, av, i2, k) == argv_base + 8 * i + k);
                    }
                }
                assert forall|k: int|
                    0 <= k < 8 implies ms.byte_at(argv_base + 8 * n + k) == le_byte(0u64, k) by {
                    assert(argv_base + 8 * n + k > user_sp + arg@.len());
                }
            }
            i = i + 1;
        }
        let user_sp_aligned = user_sp - user_sp % 8;
        let trap_cx = TrapContext {
            sepc: entry_point,
            sp: user_sp_aligned,
            kernel_satp: kernel_token,
            kernel_sp: task0.kstack_top,
            trap_handler,
            a0: n,
            a1: argv_base,
        };
        let new_task = TaskControlBlock {
            tid: task0.tid,
            ustack_base,
            kstack_top: task0.kstack_top,
            trap_cx,
        };
        inner.tasks.set(0, Some(new_task));
        inner.memory_set = ms;
        self.inner.release(intr, inner);
        Ok(())
    }

    /// Duplicate the process: full copy of the address space, descriptor
    /// table cloned entry by entry (the entries alias the same file objects),
    /// a fresh pid from the allocator, exactly one spawned thread reusing the
    /// parent main thread's user-stack base, weak parent back-reference and
    /// strong child forward-reference, and the child's thread enqueued ready.
    pub fn fork(
        &mut self,
        pid_allocator: &mut RecycleAllocator,
        child_kstack_top: usize,
        intr: &mut IntrState,
        sched: &mut Scheduler,
    ) -> (child: ProcessControlBlock)
        requires
            old(self).wf(),
            old(self).inner_spec().tasks@.len() > 0,
            old(pid_allocator).wf(),
            old(pid_allocator).high_water() < usize::MAX,
        ensures
            final(self).wf(),
            final(self).pid_spec() == old(self).pid_spec(),
            *final(intr) == *old(intr),
            final(pid_allocator).wf(),
            !old(pid_allocator).allocated(child.pid_spec()),
            final(pid_allocator).allocated(child.pid_spec()),
            final(pid_allocator).high_water() <= old(pid_allocator).high_water() + 1,
            child.pid_spec() < final(pid_allocator).high_water(),
            forall|x: usize|
                x != child.pid_spec() ==> final(pid_allocator).allocated(x) == old(
                    pid_allocator,
                ).allocated(x),
            child.wf(),
            !child.inner_spec().is_zombie,
            child.inner_spec().exit_code == 0,
            child.inner_spec().signals.bits == 0,
            child.inner_spec().parent == Some(old(self).pid_spec()),
            child.inner_spec().children@ == Seq::<usize>::empty(),
            child.inner_spec().memory_set.base == old(self).inner_spec().memory_set.base,
            child.inner_spec().memory_set.data@ == old(self).inner_spec().memory_set.data@,
            child.inner_spec().memory_set.fb_mapped == old(self).inner_spec().memory_set.fb_mapped,
            child.inner_spec().fd_table@ == old(self).inner_spec().fd_table@,
            child.inner_spec().mutex_list@ == Seq::<Option<Mutex>>::empty(),
            child.inner_spec().semaphore_list@ == Seq::<Option<Semaphore>>::empty(),
            child.inner_spec().condvar_list@ == Seq::<Option<Condvar>>::empty(),
            child.inner_spec().tasks@.len() == 1,
            child.inner_spec().tasks@[0] == Some(
                TaskControlBlock {
                    tid: 0,
                    ustack_base: old(self).inner_spec().tasks@[0]->Some_0.ustack_base,
                    kstack_top: child_kstack_top,
                    trap_cx: TrapContext {
                        kernel_sp: child_kstack_top,
                        ..old(self).inner_spec().tasks@[0]->Some_0.trap_cx
                    },
                },
            ),
            child.inner_spec().task_res_allocator.allocated(0),
            final(self).inner_spec() == (ProcessControlBlockInner {
                children: final(self).inner_spec().children,
                ..old(self).inner_spec()
            }),
            final(self).inner_spec().children@ == old(self).inner_spec().children@.push(child.pid_spec()),
            final(sched).ready@ == old(sched).ready@.push(ThreadId { pid: child.pid_spec(), tid: 0 }),
            final(sched).current == old(sched).current,
    {
        let mut parent_inner = match self.inner.exclusive_access(intr) {
            Ok(guard) => guard,
            Err(_) => unreached(),
        };
        let memory_set = MemorySet::from_existed_user(&parent_inner.memory_set);
        let child_pid = pid_allocator.allocate();
        let mut new_fd_table: Vec<Option<Fd>> = Vec::new();
        let mut i: usize = 0;
        while i < parent_inner.fd_table.len()
            invariant
                i <= parent_inner.fd_table@.len(),
                new_fd_table@ == parent_inner.fd_table@.take(i as int),
            decreases parent_inner.fd_table@.len() - i,
        {
            new_fd_table.push(parent_inner.fd_table[i]);
            i = i + 1;
            proof {
                assert(new_fd_table@ =~= parent_inner.fd_table@.take(i as int));
            }
        }
        proof {
            assert(new_fd_table@ =~= parent_inner.fd_table@);
        }
        let task0 = parent_inner.get_task(0);
        let mut child_inner = ProcessControlBlockInner {
            is_zombie: false,
            memory_set,
            parent: Some(self.pid),
            children: Vec::new(),
            exit_code: 0,
            fd_table: new_fd_table,
            signals: SignalFlags::empty(),
            tasks: Vec::new(),
            task_res_allocator: RecycleAllocator::new(),
            mutex_list: Vec::new(),
            semaphore_list: Vec::new(),
            condvar_list: Vec::new(),
        };
        let tid = child_inner.alloc_tid();
        let child_task = TaskControlBlock {
            tid,
            ustack_base: task0.ustack_base,
            kstack_top: child_kstack_top,
            trap_cx: TrapContext { kernel_sp: child_kstack_top, ..task0.trap_cx },
        };
        child_inner.tasks.push(Some(child_task));
        parent_inner.children.push(child_pid);
        self.inner.release(intr, parent_inner);
        let child = ProcessControlBlock { pid: child_pid, inner: InterruptSafeCell::new(child_inner) };
        sched.add_task(ThreadId { pid: child_pid, tid: 0 });
        child
    }
}

} // verus!
