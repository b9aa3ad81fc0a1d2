//! What can go wrong when a system process runs.
use vstd::prelude::*;

use crate::par::{copy_pars, pars_view, Par, ParView};

verus! {

#[derive(Debug, PartialEq, Eq)]
pub enum InterpreterError {
    /// A contract was called in a way that it does not accept. Names the
    /// contract, and may say what it expects.
    IllegalArgumentError(String),
    SwiplError(String),
    ReduceError(String),
    BugFoundError(String),
    UserAbortError,
    /// A service failed, so there is nothing that a replay could repeat.
    NonDeterministicProcessFailure {
        cause: Box<InterpreterError>,
        output_not_produced: Vec<Par>,
    },
    /// A service answered, and its answer could not be sent.
    ProduceFailureWithOutput {
        cause: Box<InterpreterError>,
        output_not_produced: Vec<Par>,
    },
    /// An error of the runtime or of a service, by its text.
    Host(String),
}

#[verifier::ext_equal]
pub enum ErrorView {
    IllegalArgumentError(Seq<char>),
    SwiplError(Seq<char>),
    ReduceError(Seq<char>),
    BugFoundError(Seq<char>),
    UserAbortError,
    NonDeterministicProcessFailure {
        cause: Box<ErrorView>,
        output_not_produced: Seq<ParView>,
    },
    ProduceFailureWithOutput { cause: Box<ErrorView>, output_not_produced: Seq<ParView> },
    Host(Seq<char>),
}

impl View for InterpreterError {
    type V = ErrorView;

    open spec fn view(&self) -> ErrorView
        decreases self,
    {
        match self {
            InterpreterError::IllegalArgumentError(s) => ErrorView::IllegalArgumentError(s@),
            InterpreterError::SwiplError(s) => ErrorView::SwiplError(s@),
            InterpreterError::ReduceError(s) => ErrorView::ReduceError(s@),
            InterpreterError::BugFoundError(s) => ErrorView::BugFoundError(s@),
            InterpreterError::UserAbortError => ErrorView::UserAbortError,
            InterpreterError::NonDeterministicProcessFailure { cause, output_not_produced } => {
                ErrorView::NonDeterministicProcessFailure {
                    cause: Box::new((**cause).view()),
                    output_not_produced: pars_view(output_not_produced@),
                }
            },
            InterpreterError::ProduceFailureWithOutput { cause, output_not_produced } => {
                ErrorView::ProduceFailureWithOutput {
                    cause: Box::new((**cause).view()),
                    output_not_produced: pars_view(output_not_produced@),
                }
            },
            InterpreterError::Host(s) => ErrorView::Host(s@),
        }
    }
}

impl Clone for InterpreterError {
    fn clone(&self) -> (r: InterpreterError)
        ensures
            r@ == self@,
        decreases self,
    {
        match self {
            InterpreterError::IllegalArgumentError(s) => InterpreterError::IllegalArgumentError(
                s.clone(),
            ),
            InterpreterError::SwiplError(s) => InterpreterError::SwiplError(s.clone()),
            InterpreterError::ReduceError(s) => InterpreterError::ReduceError(s.clone()),
            InterpreterError::BugFoundError(s) => InterpreterError::BugFoundError(s.clone()),
            InterpreterError::UserAbortError => InterpreterError::UserAbortError,
            InterpreterError::NonDeterministicProcessFailure { cause, output_not_produced } => {
                InterpreterError::NonDeterministicProcessFailure {
                    cause: Box::new((&**cause).clone()),
                    output_not_produced: copy_pars(output_not_produced),
                }
            },
            InterpreterError::ProduceFailureWithOutput { cause, output_not_produced } => {
                InterpreterError::ProduceFailureWithOutput {
                    cause: Box::new((&**cause).clone()),
                    output_not_produced: copy_pars(output_not_produced),
                }
            },
            InterpreterError::Host(s) => InterpreterError::Host(s.clone()),
        }
    }
}

pub open spec fn illegal_argument(name: Seq<char>) -> ErrorView {
    ErrorView::IllegalArgumentError(name)
}

/// A service failed, and nothing was sent.
pub open spec fn service_failure(cause: ErrorView) -> ErrorView {
    ErrorView::NonDeterministicProcessFailure {
        cause: Box::new(cause),
        output_not_produced: Seq::empty(),
    }
}

/// A service's answer could not be sent.
pub open spec fn unsent(cause: ErrorView, output: Seq<ParView>) -> ErrorView {
    ErrorView::ProduceFailureWithOutput { cause: Box::new(cause), output_not_produced: output }
}

pub fn illegal_argument_error(name: &str) -> (r: InterpreterError)
    ensures
        r@ == illegal_argument(name@),
{
    InterpreterError::IllegalArgumentError(name.to_owned())
}

pub(crate) fn swipl_error(text: &str) -> (r: InterpreterError)
    ensures
        r@ == ErrorView::SwiplError(text@),
{
    InterpreterError::SwiplError(text.to_owned())
}

/// Marks the failure of a service, with nothing sent.
pub(crate) fn service_failed(cause: InterpreterError) -> (r: InterpreterError)
    ensures
        r@ == service_failure(cause@),
{
    let r = InterpreterError::NonDeterministicProcessFailure {
        cause: Box::new(cause),
        output_not_produced: Vec::new(),
    };
    assert(pars_view(Seq::<Par>::empty()) =~= Seq::<ParView>::empty());
    r
}

/// Marks output that could not be sent.
pub(crate) fn not_sent(cause: InterpreterError, output: Vec<Par>) -> (r: InterpreterError)
    ensures
        r@ == unsent(cause@, pars_view(output@)),
{
    InterpreterError::ProduceFailureWithOutput {
        cause: Box::new(cause),
        output_not_produced: output,
    }
}

} // verus!
