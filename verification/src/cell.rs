//! The exclusive-access cell at the bottom of every shared kernel structure.
//!
//! On a single hart the only two parties that can race on a piece of state are
//! the foreground thread and an interrupt handler.  A spinlock would deadlock
//! there, so the cell instead masks local interrupts for the whole critical
//! section and restores the prior mask state when the borrow ends.  The
//! machine's interrupt-enable flag is modelled explicitly as [`IntrState`], and
//! a borrow moves the value out of the cell so that a nested borrow of the
//! same cell is visible as a fault rather than undefined behaviour.

use vstd::prelude::*;

verus! {

/// The local interrupt-enable flag of the hart (the `sstatus.SIE` bit).
#[derive(Clone, Copy, PartialEq, Eq, Structural, Debug)]
pub struct IntrState {
    pub enabled: bool,
}

/// The fatal fault classes of the kernel.  None of these is a recoverable
/// error: each one reports a logic or platform defect.
#[derive(Clone, Copy, PartialEq, Eq, Structural, Debug)]
pub enum Fault {
    /// A second exclusive borrow of a cell while one is still live.
    BorrowViolation,
    /// An operation that needs exactly one live thread found another count.
    ThreadCountViolation,
    /// The interrupt controller reported a source id with no device bound to it.
    UnsupportedIrq,
    /// The framebuffer is already mapped into the calling address space.
    FramebufferMapped,
}

/// Exclusive-access cell that masks local interrupts for the duration of a
/// borrow.  At most one borrow is live at any instant; a second borrow is a
/// `BorrowViolation` fault.  Borrowing saves the current interrupt-enable
/// state and disables interrupts; releasing restores the saved state exactly,
/// so independent cells nest.
pub struct InterruptSafeCell<T> {
    /// `None` while the value is borrowed out.
    value: Option<T>,
    /// The interrupt-enable state at the time of the live borrow.
    saved_intr: bool,
}

impl<T> InterruptSafeCell<T> {
    /// A borrow is live: the value is out of the cell.
    pub closed spec fn is_borrowed(&self) -> bool {
        self.value is None
    }

    /// The value held by the cell (meaningful only while not borrowed).
    pub closed spec fn stored(&self) -> T
        recommends
            !self.is_borrowed(),
    {
        self.value->Some_0
    }

    /// The interrupt-enable state saved when the live borrow was taken.
    pub closed spec fn saved_intr_spec(&self) -> bool {
        self.saved_intr
    }

    /// The cell as it stands right after a successful borrow that found the
    /// machine with interrupt-enable state `prior`.
    pub closed spec fn after_borrow(self, prior: bool) -> InterruptSafeCell<T> {
        InterruptSafeCell { value: None, saved_intr: prior }
    }

    /// The cell and the machine state as they stand right after `value` is
    /// released back into a borrowed cell.
    pub closed spec fn after_release(self, value: T) -> (InterruptSafeCell<T>, IntrState) {
        (
            InterruptSafeCell { value: Some(value), saved_intr: self.saved_intr },
            IntrState { enabled: self.saved_intr },
        )
    }

    pub fn new(value: T) -> (cell: Self)
        ensures
            !cell.is_borrowed(),
            cell.stored() == value,
    {
        InterruptSafeCell { value: Some(value), saved_intr: false }
    }

    /// Take the value out, masking interrupts for the critical section.
    ///
    /// A call while a borrow is already live is the fatal `BorrowViolation`
    /// fault and leaves both the cell and the machine untouched.  A successful
    /// call saves the prior interrupt-enable state in the cell and disables
    /// interrupts.
    pub fn exclusive_access(&mut self, intr: &mut IntrState) -> (r: Result<T, Fault>)
        ensures
            r is Err <==> old(self).is_borrowed(),
            old(self).is_borrowed() ==> r == Err::<T, Fault>(Fault::BorrowViolation)
                && *final(self) == *old(self) && *final(intr) == *old(intr),
            !old(self).is_borrowed() ==> {
                &&& r == Ok::<T, Fault>(old(self).stored())
                &&& *final(self) == old(self).after_borrow(old(intr).enabled)
                &&& final(self).is_borrowed()
                &&& final(self).saved_intr_spec() == old(intr).enabled
                &&& !final(intr).enabled
            },
    {
        match self.value.take() {
            None => Err(Fault::BorrowViolation),
            Some(v) => {
                self.saved_intr = intr.enabled;
                intr.enabled = false;
                Ok(v)
            },
        }
    }

    /// Put the value back and restore the interrupt-enable state that was
    /// saved when the borrow was taken.  The restore is exact: if interrupts
    /// were already enabled at borrow time they come back enabled, and if they
    /// were masked they stay masked.
    pub fn release(&mut self, intr: &mut IntrState, value: T)
        requires
            old(self).is_borrowed(),
        ensures
            (*final(self), *final(intr)) == old(self).after_release(value),
            !final(self).is_borrowed(),
            final(self).stored() == value,
            final(intr).enabled == old(self).saved_intr_spec(),
    {
        self.value = Some(value);
        intr.enabled = self.saved_intr;
    }
}

impl<T> InterruptSafeCell<T> {
    /// Run `f` with exclusive access to the value and release before
    /// returning: the borrow is over — and the interrupt mask restored —
    /// before the caller does anything else.  `f` receives the value and
    /// hands back the value to store along with its result.
    pub fn exclusive_session<R, F: FnOnce(T) -> (T, R)>(
        &mut self,
        intr: &mut IntrState,
        f: F,
    ) -> (r: Result<R, Fault>)
        requires
            !old(self).is_borrowed() ==> call_requires(f, (old(self).stored(),)),
        ensures
            r is Err <==> old(self).is_borrowed(),
            old(self).is_borrowed() ==> ({
                &&& r matches Err(fault) && fault == Fault::BorrowViolation
                &&& *final(self) == *old(self)
                &&& *final(intr) == *old(intr)
            }),
            !old(self).is_borrowed() ==> {
                &&& !final(self).is_borrowed()
                &&& *final(intr) == *old(intr)
                &&& r matches Ok(out) && call_ensures(
                    f,
                    (old(self).stored(),),
                    (final(self).stored(), out),
                )
            },
    {
        match self.exclusive_access(intr) {
            Ok(value) => {
                let (value, out) = f(value);
                self.release(intr, value);
                Ok(out)
            },
            Err(fault) => Err(fault),
        }
    }
}

/// Law: at most one live borrow.  A second `exclusive_access` nested inside a
/// live borrow finds the cell borrowed and faults; once the value is released
/// the cell is no longer borrowed, so the next borrow succeeds.  The borrow
/// and release transitions are the ones `exclusive_access` and `release`
/// promise in their contracts.
pub proof fn lemma_exclusive_borrow_protocol<T>(cell: InterruptSafeCell<T>, intr: IntrState, v: T)
    requires
        !cell.is_borrowed(),
    ensures
        cell.after_borrow(intr.enabled).is_borrowed(),
        !cell.after_borrow(intr.enabled).after_release(v).0.is_borrowed(),
        cell.after_borrow(intr.enabled).after_release(v).0.stored() == v,
{
}

/// Law: interrupts are masked for the whole lifetime of a borrow, so no
/// interrupt-driven mutation can be observed inside it, and the release
/// restores the prior interrupt-enable state exactly (in particular the
/// restore is idempotent for an already-enabled state).
pub proof fn lemma_borrow_masks_and_restores_intr<T>(
    cell: InterruptSafeCell<T>,
    intr: IntrState,
    v: T,
)
    requires
        !cell.is_borrowed(),
    ensures
        !(IntrState { enabled: false }).enabled,
        cell.after_borrow(intr.enabled).saved_intr_spec() == intr.enabled,
        cell.after_borrow(intr.enabled).after_release(v).1 == intr,
{
}

} // verus!
