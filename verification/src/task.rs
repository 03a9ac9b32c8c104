//! The unit of work: an opaque, type-erased callable, handed from a
//! caller to whichever worker claims it, and invoked exactly once.

use vstd::prelude::*;

verus! {

/// One unit of work: a no-argument, no-return callable with its captured
/// state boxed on the heap, movable across threads, run exactly once.
///
/// A trait-object box is a shape Verus cannot declare, so the box is
/// hidden and the pool trusts exactly two operations on it: boxing a
/// callable closure, and invoking the box once.
#[verifier::external_body]
pub struct Job {
    run: Box<dyn FnOnce() + Send + 'static>,
}

impl Job {
    /// Relies on alloc::boxed::Box::new: moves the closure and its
    /// captured state onto the heap behind a type-erased handle. The
    /// closure must be callable; its precondition is discharged here,
    /// once, before the hand-off to another thread.
    #[verifier::external_body]
    pub(crate) fn new<F: FnOnce() + Send + 'static>(f: F) -> (job: Job)
        requires
            f.requires(()),
    {
        Job { run: Box::new(f) }
    }

    /// Invokes the unit of work, consuming it: the one call the closure
    /// was admitted for. Nothing is promised of its effect — the work is
    /// the caller's, fire and forget.
    #[verifier::external_body]
    pub(crate) fn invoke(self) {
        (self.run)()
    }
}

} // verus!
