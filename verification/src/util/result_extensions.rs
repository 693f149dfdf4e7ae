//! The result adapter: chaining a transform onto a successful result without
//! disturbing a failure.

use vstd::prelude::*;

verus! {

/// What the adapter adds to a result.
pub trait ResultExtensions<T, E>: Sized {
    /// The result that this value is.
    open spec fn outcome(self) -> Result<T, E> {
        arbitrary()
    }

    /// Applies `transform` to the value of a success and wraps what it gives
    /// as the new success; hands a failure on as it is.
    ///
    /// Nothing is asked of `transform` on a failure, not even that it can be
    /// called, so it is not called there. The transform may itself start work
    /// that completes later: what it returns is then the pending work, which
    /// the caller drives to its end.
    fn map_async<U, F: FnOnce(T) -> U>(self, transform: F) -> (out: Result<U, E>)
        requires
            self.outcome() matches Ok(value) ==> transform.requires((value,)),
        ensures
            match self.outcome() {
                Ok(value) => out matches Ok(mapped) && transform.ensures((value,), mapped),
                Err(failure) => out == Err::<U, E>(failure),
            },
    ;
}

impl<T, E> ResultExtensions<T, E> for Result<T, E> {
    open spec fn outcome(self) -> Result<T, E> {
        self
    }

    fn map_async<U, F: FnOnce(T) -> U>(self, transform: F) -> (out: Result<U, E>) {
        match self {
            Ok(value) => Ok(transform(value)),
            Err(failure) => Err(failure),
        }
    }
}

} // verus!
