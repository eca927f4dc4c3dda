//! Cooperative cancellation of the operations that run on one handle.
//!
//! Every handle carries a counter. An interrupt handle bumps the counter; an
//! interrupt scope remembers the value the counter had when its operation
//! began. A scope counts as interrupted once the counter no longer has that
//! value, so a signal reaches the operation that was running when it was
//! sent and no operation that begins afterwards.

use crate::error::{ErrorKind, ErrorView};
use std::sync::atomic::AtomicUsize;
use std::sync::atomic::Ordering;
use std::sync::Arc;
use vstd::prelude::*;

verus! {

/// The value of a counter after one interrupt signal: one more, wrapping
/// round at the top of the range.
pub open spec fn counter_after_interrupt(value: usize) -> usize {
    if value == usize::MAX {
        0
    } else {
        (value + 1) as usize
    }
}

/// Whether an operation that began when the counter read `start_value` has
/// been signalled by the time the counter reads `current`.
pub open spec fn interrupted_between(start_value: usize, current: usize) -> bool {
    start_value != current
}

/// Sends interrupt signals to the operations of one handle. It may be used
/// from another thread than the one that runs the operation.
pub struct SqlInterruptHandle {
    interrupt_counter: Arc<AtomicUsize>,
}

impl SqlInterruptHandle {
    /// The counter through which this handle signals.
    pub closed spec fn counter(&self) -> Arc<AtomicUsize> {
        self.interrupt_counter
    }

    /// A handle that signals through `interrupt_counter`.
    pub fn new(interrupt_counter: Arc<AtomicUsize>) -> (r: Self)
        ensures
            r.counter() == interrupt_counter,
    {
        SqlInterruptHandle { interrupt_counter }
    }

    /// Signals every scope that is open on the counter.
    pub fn interrupt(&self) {
        self.interrupt_counter.fetch_add(1, Ordering::SeqCst);
    }
}

/// One logical operation, tagged with the counter value at which it began.
pub struct SqlInterruptScope {
    start_value: usize,
    interrupt_counter: Arc<AtomicUsize>,
}

impl SqlInterruptScope {
    /// The counter value at which this scope began.
    pub closed spec fn start_value(&self) -> usize {
        self.start_value
    }

    /// The counter that this scope watches.
    pub closed spec fn counter(&self) -> Arc<AtomicUsize> {
        self.interrupt_counter
    }

    /// Begins a scope at the value that `interrupt_counter` has now.
    pub fn new(interrupt_counter: Arc<AtomicUsize>) -> (r: Self)
        ensures
            r.counter() == interrupt_counter,
    {
        let start_value = interrupt_counter.load(Ordering::SeqCst);
        SqlInterruptScope { start_value, interrupt_counter }
    }

    /// Begins a scope at a counter value that the caller has read.
    pub fn new_at(interrupt_counter: Arc<AtomicUsize>, start_value: usize) -> (r: Self)
        ensures
            r.start_value() == start_value,
            r.counter() == interrupt_counter,
    {
        SqlInterruptScope { start_value, interrupt_counter }
    }

    /// Whether a signal arrived since this scope began, given the value
    /// `current` that the counter reads now.
    pub fn was_interrupted_at(&self, current: usize) -> (r: bool)
        ensures
            r == interrupted_between(self.start_value(), current),
    {
        self.start_value != current
    }

    /// Fails with `Interrupted` exactly if a signal arrived since this scope
    /// began, given the value `current` that the counter reads now.
    pub fn err_if_interrupted_at(&self, current: usize) -> (r: Result<(), ErrorKind>)
        ensures
            r is Ok <==> !interrupted_between(self.start_value(), current),
            r matches Err(e) ==> e@ == ErrorView::Interrupted,
    {
        if self.was_interrupted_at(current) {
            Err(ErrorKind::Interrupted)
        } else {
            Ok(())
        }
    }

    /// The value that the counter reads now. What it holds is decided by
    /// the threads that hold interrupt handles.
    pub fn counter_value(&self) -> (r: usize) {
        self.interrupt_counter.load(Ordering::SeqCst)
    }

    /// Whether a signal arrived since this scope began. The counter is read
    /// once.
    pub fn was_interrupted(&self) -> (r: bool) {
        let current = self.counter_value();
        self.was_interrupted_at(current)
    }

    /// Fails with `Interrupted` if a signal arrived since this scope began.
    /// The counter is read once.
    pub fn err_if_interrupted(&self) -> (r: Result<(), ErrorKind>)
        ensures
            r matches Err(e) ==> e@ == ErrorView::Interrupted,
    {
        let current = self.counter_value();
        self.err_if_interrupted_at(current)
    }
}

/// The value of a counter after `signals` interrupt signals.
pub open spec fn counter_after(value: usize, signals: nat) -> usize {
    ((value + signals) % (usize::MAX + 1)) as usize
}

/// A signal interrupts the operation that is running and no later one: a
/// scope that began at `value` is interrupted once the counter has taken
/// one signal or more, as long as they are fewer than the counter has
/// values, and a scope that begins after the signals is not.
pub proof fn lemma_interrupt_reaches_current_scope_only(value: usize, signals: nat)
    requires
        0 < signals <= usize::MAX,
    ensures
        counter_after(value, 1) == counter_after_interrupt(value),
        interrupted_between(value, counter_after(value, signals)),
        !interrupted_between(counter_after(value, signals), counter_after(value, signals)),
        !interrupted_between(value, value),
{
    let size = usize::MAX + 1;
    let sum = value + signals;
    if sum < size {
        assert(sum % size == sum) by (nonlinear_arith)
            requires
                0 <= sum < size,
        ;
    } else {
        assert(sum % size == sum - size) by (nonlinear_arith)
            requires
                size <= sum < 2 * size,
        ;
    }
    if value + 1 < size {
        assert((value + 1) % size == value + 1) by (nonlinear_arith)
            requires
                0 <= value + 1 < size,
        ;
    } else {
        assert((value + 1) % size == 0) by (nonlinear_arith)
            requires
                value + 1 == size,
                size > 0,
        ;
    }
}

} // verus!
