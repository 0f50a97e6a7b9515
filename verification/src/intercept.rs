//! Error interception: the actor's chance to see a failure of its own
//! method before the caller does.

use vstd::prelude::*;
use crate::error::{SactorError, SactorResult};

verus! {

/// What happens to the result of a dispatched call, once the method returns.
pub enum Verdict<T> {
    /// The method failed and an interceptor is declared: show it this error
    /// first.
    Intercept(SactorError),
    /// Nothing to intercept: this is what the caller gets.
    Reply(SactorResult<T>),
}

/// The verdict on a fallible method's result.
pub open spec fn verdict_of<T>(result: SactorResult<T>, interceptor: bool) -> Verdict<T> {
    match result {
        Err(error) if interceptor => Verdict::Intercept(error),
        _ => Verdict::Reply(result),
    }
}

/// Decides, for the result of a fallible method, whether the interceptor
/// runs. It runs exactly when the result is an error and an interceptor is
/// declared; a success never reaches it.
pub fn after_call<T>(result: SactorResult<T>, interceptor: bool) -> (verdict: Verdict<T>)
    ensures
        verdict == verdict_of(result, interceptor),
{
    match result {
        Ok(value) => Verdict::Reply(Ok(value)),
        Err(error) => if interceptor {
            Verdict::Intercept(error)
        } else {
            Verdict::Reply(Err(error))
        },
    }
}

/// What the caller gets after the interceptor has seen the error: still a
/// failure, carrying the error as the interceptor left it.
pub fn after_intercept<T>(error: SactorError) -> (result: SactorResult<T>)
    ensures
        result == Err::<T, SactorError>(error),
{
    Err(error)
}

/// Runs a dispatched call's result past an interceptor that needs no
/// waiting. `hook` receives the error and hands back what it made of it.
pub fn intercept<T, F>(result: SactorResult<T>, hook: F) -> (reply: SactorResult<T>) where
    F: FnOnce(SactorError) -> SactorError,

    requires
        forall|error: SactorError| hook.requires((error,)),
    ensures
        result is Ok ==> reply == result,
        result matches Err(seen) ==> reply matches Err(left) && hook.ensures((seen,), left),
{
    match after_call(result, true) {
        Verdict::Reply(reply) => reply,
        Verdict::Intercept(error) => after_intercept(hook(error)),
    }
}

} // verus!
