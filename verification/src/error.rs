//! Failures that a caller of an actor can observe.

use std::fmt::Write;
use vstd::prelude::*;

verus! {

/// `anyhow::Error`, carried through as an opaque value.
#[verifier::external_type_specification]
#[verifier::external_body]
pub struct ExAnyhowError(anyhow::Error);

/// What a call on a handle returns: the value, or the reason there is none.
pub type SactorResult<T> = Result<T, SactorError>;

/// Why a call produced no value.
#[derive(Debug)]
pub enum SactorError {
    /// The request could not be delivered, or the actor went away before
    /// answering it.
    ActorStopped,
    /// The actor's own method failed.
    Other(anyhow::Error),
}

/// Writes an `anyhow::Error` through its `Display` impl into a fresh
/// string. The text is whatever the wrapped error prints of itself, so
/// nothing is promised of it; an error that fails to print leaves what it
/// wrote so far.
#[verifier::external_body]
fn display_error(err: &anyhow::Error) -> String {
    let mut text = String::new();
    let _ = write!(text, "{}", err);
    text
}

impl SactorError {
    /// The human-readable text of this error: a fixed sentence for a
    /// delivery failure, and the wrapped error's own text otherwise.
    pub fn message(&self) -> (text: String)
        ensures
            self is ActorStopped ==> text@ == "Actor has been stopped"@,
    {
        match self {
            SactorError::ActorStopped => "Actor has been stopped".to_string(),
            SactorError::Other(err) => display_error(err),
        }
    }
}

/// Calls `anyhow::Error::from`, which boxes a standard error together with
/// a backtrace where one can be had.
#[verifier::external_body]
fn box_error<E>(err: E) -> anyhow::Error where E: std::error::Error + Send + Sync + 'static {
    anyhow::Error::from(err)
}

impl SactorError {
    /// Wraps any standard error as a failure of the actor's own method.
    pub fn from<E>(err: E) -> (wrapped: SactorError) where
        E: std::error::Error + Send + Sync + 'static,

        ensures
            wrapped is Other,
    {
        SactorError::Other(box_error(err))
    }
}

} // verus!
