//! Errors of the application.
use vstd::prelude::*;

verus! {

/// Why a request failed. `E` is what a manager says of its own failures.
#[derive(Debug, PartialEq, Eq)]
pub enum AppError<E> {
    /// There is no session with this identifier.
    SessionNotFound(String),
    /// Anything else, as the manager said it.
    Other(E),
}

/// The answer to a request.
pub type AppResult<T, E> = Result<T, AppError<E>>;

} // verus!
