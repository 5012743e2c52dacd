//! The errors a run can end with.

use vstd::prelude::*;

verus! {

/// Why a run produced no output.
#[derive(Debug, PartialEq, Eq)]
pub enum SniprunError {
    /// The compiler reported failure. Carries the diagnostic text that was
    /// captured, which is empty where the executor does not read any.
    CompilationError(String),
    /// The program or interpreter reported failure. Carries its standard error
    /// output as text.
    RuntimeError(String),
}

/// The mathematical content of a [`SniprunError`].
pub ghost enum ErrorView {
    CompilationError(Seq<char>),
    RuntimeError(Seq<char>),
}

impl View for SniprunError {
    type V = ErrorView;

    open spec fn view(&self) -> ErrorView {
        match self {
            SniprunError::CompilationError(text) => ErrorView::CompilationError(text@),
            SniprunError::RuntimeError(text) => ErrorView::RuntimeError(text@),
        }
    }
}

impl Clone for SniprunError {
    /// A copy of the same kind with the same text.
    fn clone(&self) -> (r: Self)
        ensures
            r@ == self@,
    {
        match self {
            SniprunError::CompilationError(text) => SniprunError::CompilationError(text.clone()),
            SniprunError::RuntimeError(text) => SniprunError::RuntimeError(text.clone()),
        }
    }
}

impl SniprunError {
    /// The text that the error carries.
    pub fn message(&self) -> (r: String)
        ensures
            self@ matches ErrorView::CompilationError(text) ==> r@ == text,
            self@ matches ErrorView::RuntimeError(text) ==> r@ == text,
    {
        match self {
            SniprunError::CompilationError(text) => text.clone(),
            SniprunError::RuntimeError(text) => text.clone(),
        }
    }
}

/// The mathematical content of a run's result: the captured text, or the error.
pub open spec fn outcome_view(outcome: Result<String, SniprunError>) -> Result<Seq<char>, ErrorView> {
    match outcome {
        Ok(text) => Ok(text@),
        Err(error) => Err(error@),
    }
}

/// The mathematical content of a stage's result: done, or the error.
pub open spec fn status_view(status: Result<(), SniprunError>) -> Result<(), ErrorView> {
    match status {
        Ok(()) => Ok(()),
        Err(error) => Err(error@),
    }
}

/// A copy of a run's result.
pub fn clone_outcome(outcome: &Result<String, SniprunError>) -> (r: Result<String, SniprunError>)
    ensures
        outcome_view(r) == outcome_view(*outcome),
{
    match outcome {
        Ok(text) => Ok(text.clone()),
        Err(error) => Err(error.clone()),
    }
}

} // verus!
