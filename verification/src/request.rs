//! Requests to backend managers.
//!
//! A request names the call that a manager is to perform. Its type says how the
//! manager replies and what the answer to the user interface is for each reply.
use vstd::prelude::*;

use crate::error::{AppError, AppResult};

verus! {

/// A request that a manager may fail: its reply is the answer.
#[derive(Debug, PartialEq)]
pub struct Relay<C> {
    pub call: C,
}

impl<C> Relay<C> {
    /// The answer, once the manager has replied.
    pub fn settle<T, E>(&self, reply: AppResult<T, E>) -> (answer: AppResult<T, E>)
        ensures
            answer == reply,
    {
        reply
    }
}

/// A request that a manager always fulfils: the value of its reply is the answer.
#[derive(Debug, PartialEq)]
pub struct Query<C> {
    pub call: C,
}

impl<C> Query<C> {
    /// The answer, once the manager has replied.
    pub fn settle<T, E>(&self, reply: T) -> (answer: AppResult<T, E>)
        ensures
            answer == Ok::<T, AppError<E>>(reply),
    {
        Ok(reply)
    }
}

/// A request whose outcome does not matter: the answer is success.
#[derive(Debug, PartialEq)]
pub struct Notice<C> {
    pub call: C,
}

impl<C> Notice<C> {
    /// The answer, once the manager has been told.
    pub fn settle<E>(&self) -> (answer: AppResult<(), E>)
        ensures
            answer == Ok::<(), AppError<E>>(()),
    {
        Ok(())
    }
}

} // verus!
