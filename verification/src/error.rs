//! Errors of a run.

use vstd::prelude::*;
use vstd::string::*;

verus! {

/// What went wrong. Every kind but `UnsupportedOperation` ends the run.
#[derive(Clone, Copy, Debug, PartialEq, Eq, Structural)]
pub enum ErrorKind {
    /// An action lacks a field that its operation requires, or a document
    /// does not have the form of what is read from it.
    MalformedAction,
    /// A variable is read that the store does not bind.
    UnboundVariable,
    /// An operand of a binary operation is not a number.
    TypeMismatch,
    /// The divisor of `/` or `%` is zero.
    DivideByZero,
    /// The operator of a binary operation is none of `+ - * / %`.
    UnknownOperator,
    /// A function is called that the function table does not hold.
    UnknownFunction,
    /// A bound of a `For` is not an integer.
    NonIntegerBound,
    /// A `While` ran its body as often as a loop may.
    LoopLimitExceeded,
    /// Nested descents reached the guard's limit.
    RecursionLimitExceeded,
    /// A host does not support a leaf operation. A run goes on after it.
    UnsupportedOperation,
    /// A knowledge base has nothing for an instruction.
    UnknownInstruction,
}

/// An error, what it is about, and where it arose.
#[derive(Debug)]
pub struct ExecError {
    /// What went wrong.
    pub kind: ErrorKind,
    /// What the error is about: a variable, a function or an operator by its
    /// name, an action by its operation and its target, as in `While(loop)`.
    pub subject: String,
    /// The action within which the error arose, by its operation and its
    /// target, where it arose within one.
    pub action: Option<String>,
}

/// The mathematical value of an [`ExecError`].
pub struct ErrorModel {
    pub kind: ErrorKind,
    pub subject: Seq<char>,
    pub action: Option<Seq<char>>,
}

/// The error as it arose within the action that `label` names: an error that
/// names its action keeps it.
pub open spec fn located(e: ErrorModel, label: Seq<char>) -> ErrorModel {
    match e.action {
        Some(_) => e,
        None => ErrorModel { action: Some(label), ..e },
    }
}

impl View for ExecError {
    type V = ErrorModel;

    open spec fn view(&self) -> ErrorModel {
        ErrorModel {
            kind: self.kind,
            subject: self.subject@,
            action: match self.action {
                Some(label) => Some(label@),
                None => None,
            },
        }
    }
}

impl ExecError {
    /// The error of kind `kind` about `subject`.
    pub fn new(kind: ErrorKind, subject: &str) -> (r: ExecError)
        ensures
            r@ == (ErrorModel { kind, subject: subject@, action: None }),
    {
        ExecError { kind, subject: String::from_str(subject), action: None }
    }

    /// The error of kind `kind` about a subject that is at hand.
    pub fn about(kind: ErrorKind, subject: String) -> (r: ExecError)
        ensures
            r@ == (ErrorModel { kind, subject: subject@, action: None }),
    {
        ExecError { kind, subject, action: None }
    }

    /// The error as it arose within the action that `label` names: an error
    /// that names its action keeps it.
    pub fn within(self, label: String) -> (r: ExecError)
        ensures
            r@ == located(self@, label@),
    {
        match self.action {
            Some(_) => self,
            None => ExecError { kind: self.kind, subject: self.subject, action: Some(label) },
        }
    }

    /// Whether the error ends the run.
    pub fn is_fatal(&self) -> (r: bool)
        ensures
            r == (self.kind != ErrorKind::UnsupportedOperation),
    {
        !matches!(self.kind, ErrorKind::UnsupportedOperation)
    }
}

impl Clone for ExecError {
    fn clone(&self) -> (r: ExecError)
        ensures
            r@ == self@,
    {
        ExecError {
            kind: self.kind,
            subject: self.subject.clone(),
            action: match &self.action {
                Some(label) => Some(label.clone()),
                None => None,
            },
        }
    }
}

} // verus!
