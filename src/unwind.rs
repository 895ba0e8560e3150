//! A future wrapper that reports a panic of the wrapped future as a value.
use vstd::prelude::*;

verus! {

/// Wraps a future so that a panic while polling it becomes an `Err` result
/// instead of unwinding through the caller. The polling itself is done by the
/// host's executor.
pub struct CatchUnwind<F> {
    inner: F,
}

impl<F> CatchUnwind<F> {
    pub closed spec fn future(&self) -> F {
        self.inner
    }

    /// Wraps `f`.
    pub fn new(f: F) -> (r: Self)
        ensures
            r.future() == f,
    {
        CatchUnwind { inner: f }
    }

    /// Unwraps the future.
    pub fn into_inner(self) -> (r: F)
        ensures
            r == self.future(),
    {
        self.inner
    }
}

} // verus!
