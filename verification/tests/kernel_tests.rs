use hartos::cell::Fault;
use hartos::input::RawInputEvent;
use hartos::kernel::{device_init, irq_handler, Kernel, BLOCK_IRQ, UART_IRQ};
use hartos::mem::{LoadedImage, MemorySet};
use hartos::plic::{IntrTargetPriority, PLIC};
use hartos::sched::ThreadId;
use hartos::syscall::{
    sys_event_get, sys_framebuffer, sys_framebuffer_flush, sys_key_pressed, FB_VADDR,
};

const BASE: usize = 0x10000;
const USTACK_BASE: usize = 0x11000;

fn booted_kernel_with_one_process() -> Kernel {
    let mut k = Kernel::boot(0x8000_1234, 0x8020_0000, 8, 0x9000_0000, 1280 * 800 * 4);
    device_init();
    let image = LoadedImage {
        memory_set: MemorySet::from_raw(BASE, vec![0u8; 0x4000]),
        ustack_base: USTACK_BASE,
        entry_point: 0x10080,
    };
    let pid = k.spawn_process(image, 0xffff_f000);
    assert_eq!(pid, 0);
    // The thread the scheduler just enqueued starts running.
    let t = k.scheduler.ready.remove(0);
    k.scheduler.current = Some(t);
    k.intr.enabled = true;
    k
}

#[test]
fn event_get_returns_zero_when_both_queues_are_empty() {
    let mut k = booted_kernel_with_one_process();
    assert_eq!(sys_event_get(&mut k), 0);
}

#[test]
fn event_get_returns_the_packed_keyboard_event() {
    let mut k = booted_kernel_with_one_process();
    assert_eq!(sys_event_get(&mut k), 0);
    let e = RawInputEvent { event_type: 1, code: 30, value: 1 };
    let mut sched_probe = hartos::sched::Scheduler::new();
    k.keyboard.handle_irq(&vec![e], &mut k.intr, &mut sched_probe);
    assert_eq!(sys_event_get(&mut k), (1u64 << 48) | (30u64 << 32) | 1u64);
    assert_eq!(sys_event_get(&mut k), 0);
}

#[test]
fn event_get_prefers_keyboard_over_mouse() {
    let mut k = booted_kernel_with_one_process();
    let kb = RawInputEvent { event_type: 1, code: 2, value: 3 };
    let mouse = RawInputEvent { event_type: 2, code: 0, value: 5 };
    let mut sched_probe = hartos::sched::Scheduler::new();
    k.mouse.handle_irq(&vec![mouse], &mut k.intr, &mut sched_probe);
    k.keyboard.handle_irq(&vec![kb], &mut k.intr, &mut sched_probe);
    assert_eq!(sys_event_get(&mut k), (1u64 << 48) | (2u64 << 32) | 3u64);
    assert_eq!(sys_event_get(&mut k), (2u64 << 48) | 5u64);
}

#[test]
fn key_pressed_is_one_exactly_while_the_serial_buffer_is_empty() {
    let mut k = booted_kernel_with_one_process();
    assert_eq!(sys_key_pressed(&mut k), 1);
    let r = irq_handler(&mut k, UART_IRQ, &vec![b'q'], &vec![]);
    assert_eq!(r, Ok(()));
    assert_eq!(sys_key_pressed(&mut k), 0);
}

#[test]
fn framebuffer_maps_once_and_faults_on_the_double_map() {
    let mut k = booted_kernel_with_one_process();
    assert_eq!(sys_framebuffer(&mut k), Ok(FB_VADDR));
    assert_eq!(FB_VADDR, 0x1000_0000);
    // Without an intervening unmap the second call faults; the single
    // mapping entry stays as it was.
    assert_eq!(sys_framebuffer(&mut k), Err(Fault::FramebufferMapped));
}

#[test]
fn framebuffer_flush_always_succeeds() {
    let mut k = booted_kernel_with_one_process();
    assert_eq!(sys_framebuffer_flush(&mut k), 0);
    assert_eq!(sys_framebuffer_flush(&mut k), 0);
    assert_eq!(k.gpu.flush_requests, 2);
}

#[test]
fn irq_dispatch_rejects_unknown_sources() {
    let mut k = booted_kernel_with_one_process();
    let r = irq_handler(&mut k, 7, &vec![], &vec![]);
    assert_eq!(r, Err(Fault::UnsupportedIrq));
}

#[test]
fn irq_dispatch_routes_the_uart_source_to_the_serial_buffer() {
    let mut k = booted_kernel_with_one_process();
    let r = irq_handler(&mut k, UART_IRQ, &vec![b'h', b'i'], &vec![]);
    assert_eq!(r, Ok(()));
    assert_eq!(sys_key_pressed(&mut k), 0);
}

#[test]
fn irq_dispatch_routes_the_block_source_to_the_token_condvars() {
    let mut k = booted_kernel_with_one_process();
    let waiter = ThreadId { pid: 9, tid: 0 };
    let mut cv = k.block_device.condvars.remove(2);
    let sched_view = hartos::sched::Scheduler { current: Some(waiter), ready: Vec::new() };
    let token = cv.wait_no_sched(&mut k.intr, &sched_view);
    let _ = token;
    k.block_device.condvars.insert(2, cv);
    let r = irq_handler(&mut k, BLOCK_IRQ, &vec![], &vec![2u16]);
    assert_eq!(r, Ok(()));
    assert_eq!(k.scheduler.ready.last(), Some(&waiter));
}

#[test]
fn spawn_and_fork_register_processes_in_the_pid_table() {
    let mut k = booted_kernel_with_one_process();
    let child_pid = k.fork_current(0xffff_e000);
    assert_eq!(child_pid, 1);
    assert_eq!(k.processes.len(), 2);
    assert!(k.processes[1].is_some());
    assert_eq!(k.scheduler.ready, vec![ThreadId { pid: 1, tid: 0 }]);
    // The parent's children list records the child; the child points back.
    let mut parent = k.processes.remove(0).unwrap();
    let parent_inner = parent.inner_exclusive_access(&mut k.intr).unwrap();
    assert_eq!(parent_inner.children, vec![1]);
    parent.inner_release(&mut k.intr, parent_inner);
    k.processes.insert(0, Some(parent));
    let mut child = k.processes.remove(1).unwrap();
    assert_eq!(child.getpid(), 1);
    let child_inner = child.inner_exclusive_access(&mut k.intr).unwrap();
    assert_eq!(child_inner.parent, Some(0));
    child.inner_release(&mut k.intr, child_inner);
    k.processes.insert(1, Some(child));
}

#[test]
fn plic_register_layout() {
    assert_eq!(IntrTargetPriority::supported_number(), 2);
    let plic = PLIC::new(0xC00_0000);
    assert_eq!(
        PLIC::hart_id_with_priority(0, IntrTargetPriority::Machine),
        0
    );
    assert_eq!(
        PLIC::hart_id_with_priority(0, IntrTargetPriority::Supervisor),
        1
    );
    assert_eq!(
        plic.claim_comp_ptr_of_hart_with_priority(0, IntrTargetPriority::Supervisor),
        0xC00_0000 + 0x20_0004 + 0x1000
    );
    assert_eq!(
        plic.claim_comp_ptr_of_hart_with_priority(1, IntrTargetPriority::Machine),
        0xC00_0000 + 0x20_0004 + 0x2000
    );
}
