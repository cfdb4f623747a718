use hartos::cell::{Fault, InterruptSafeCell, IntrState};

#[test]
fn cell_holds_value() {
    let mut cell = InterruptSafeCell::new(7u32);
    let mut intr = IntrState { enabled: true };
    let v = cell.exclusive_access(&mut intr).unwrap();
    assert_eq!(v, 7);
    cell.release(&mut intr, v);
}

#[test]
fn second_borrow_inside_live_guard_faults() {
    let mut cell = InterruptSafeCell::new(1u32);
    let mut intr = IntrState { enabled: true };
    let v = cell.exclusive_access(&mut intr).unwrap();
    let second = cell.exclusive_access(&mut intr);
    assert_eq!(second, Err(Fault::BorrowViolation));
    // The fault leaves the machine state alone: still masked by the live borrow.
    assert!(!intr.enabled);
    cell.release(&mut intr, v);
    // After the release, a borrow succeeds again.
    let v2 = cell.exclusive_access(&mut intr);
    assert_eq!(v2, Ok(1));
}

#[test]
fn borrow_masks_interrupts_and_release_restores_enabled() {
    let mut cell = InterruptSafeCell::new(5u8);
    let mut intr = IntrState { enabled: true };
    let v = cell.exclusive_access(&mut intr).unwrap();
    // No interrupt-driven mutation can be observed inside the borrow:
    // interrupts are masked for its whole lifetime.
    assert!(!intr.enabled);
    cell.release(&mut intr, v);
    // The prior interrupt-enable state is restored exactly.
    assert!(intr.enabled);
}

#[test]
fn release_restore_is_idempotent_for_masked_state() {
    let mut cell = InterruptSafeCell::new(5u8);
    let mut intr = IntrState { enabled: false };
    let v = cell.exclusive_access(&mut intr).unwrap();
    assert!(!intr.enabled);
    cell.release(&mut intr, v);
    // Masked before the borrow means masked after the release.
    assert!(!intr.enabled);
}

#[test]
fn exclusive_session_releases_before_returning() {
    let mut cell = InterruptSafeCell::new(10u32);
    let mut intr = IntrState { enabled: true };
    let r = cell.exclusive_session(&mut intr, |v: u32| (v + 1, v * 2));
    assert_eq!(r, Ok(20));
    // The lock is not held across whatever the caller does next, and the
    // interrupt mask is already restored.
    assert!(intr.enabled);
    let v = cell.exclusive_access(&mut intr);
    assert_eq!(v, Ok(11));
}

#[test]
fn independent_cells_nest_and_restore_in_order() {
    let mut outer = InterruptSafeCell::new(1u8);
    let mut nested = InterruptSafeCell::new(2u8);
    let mut intr = IntrState { enabled: true };
    let a = outer.exclusive_access(&mut intr).unwrap();
    assert!(!intr.enabled);
    let b = nested.exclusive_access(&mut intr).unwrap();
    assert!(!intr.enabled);
    nested.release(&mut intr, b);
    // The nested cell saved the already-masked state.
    assert!(!intr.enabled);
    outer.release(&mut intr, a);
    assert!(intr.enabled);
}
