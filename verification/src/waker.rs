//! A single-slot cell for the waker of one task.

use std::task::Waker;
use vstd::prelude::*;

verus! {

/// `std::task::Waker`: a handle on a task, of which nothing is seen here.
#[verifier::external_type_specification]
#[verifier::external_body]
pub struct ExWaker(Waker);

/// `Clone::clone` of a `Waker`: another handle on the same task.
#[verifier::external_body]
fn clone_waker(waker: &Waker) -> Waker {
    waker.clone()
}

/// `Waker::wake`: schedules the task and consumes the handle.
#[verifier::external_body]
fn wake_waker(waker: Waker) {
    waker.wake()
}

/// Holds at most one waker. Waking takes the waker out, so a task that wants
/// to be woken again registers again.
pub struct WakerSlot {
    waker: Option<Waker>,
}

impl WakerSlot {
    /// Whether a waker is held.
    pub closed spec fn is_held(&self) -> bool {
        self.waker.is_some()
    }

    /// An empty slot.
    pub fn new() -> (r: WakerSlot)
        ensures
            !r.is_held(),
    {
        WakerSlot { waker: None }
    }

    /// Whether a waker is held.
    pub fn held(&self) -> (r: bool)
        ensures
            r == self.is_held(),
    {
        self.waker.is_some()
    }

    /// Keeps a handle on the task of `waker`, in place of any held before.
    pub fn register(&mut self, waker: &Waker)
        ensures
            final(self).is_held(),
    {
        self.waker = Some(clone_waker(waker));
    }

    /// Wakes the task whose waker is held, if any. Returns whether there was
    /// one. No waker is held afterwards.
    pub fn wake(&mut self) -> (woken: bool)
        ensures
            woken == old(self).is_held(),
            !final(self).is_held(),
    {
        match self.waker.take() {
            Some(w) => {
                wake_waker(w);
                true
            },
            None => false,
        }
    }
}

} // verus!
