//! Failures, and the exit status of each class of them.

use vstd::prelude::*;

verus! {

/// Reads `exitcode::DATAERR`, the status for malformed input: the constant is 65.
#[verifier::external_body]
fn data_error_code() -> (code: u8)
    ensures
        code == 65,
{
    exitcode::DATAERR as u8
}

/// Reads `exitcode::UNAVAILABLE`, the status for a service that is not there: the
/// constant is 69.
#[verifier::external_body]
fn unavailable_code() -> (code: u8)
    ensures
        code == 69,
{
    exitcode::UNAVAILABLE as u8
}

/// Reads `exitcode::SOFTWARE`, the status for an internal error: the constant is 70.
#[verifier::external_body]
fn software_code() -> (code: u8)
    ensures
        code == 70,
{
    exitcode::SOFTWARE as u8
}

/// Reads `exitcode::CANTCREAT`, the status for an output that could not be
/// created: the constant is 73.
#[verifier::external_body]
fn cannot_create_code() -> (code: u8)
    ensures
        code == 73,
{
    exitcode::CANTCREAT as u8
}

/// Reads `exitcode::IOERR`, the status for a failed input or output operation:
/// the constant is 74.
#[verifier::external_body]
fn io_error_code() -> (code: u8)
    ensures
        code == 74,
{
    exitcode::IOERR as u8
}

/// The classes of failure, each with an exit status of its own.
#[derive(Debug, Clone, Copy, PartialEq, Eq, Structural)]
pub enum FailureClass {
    /// A required tool is not installed.
    Unavailable,
    /// A process could not be run, or the interpreter manager reported failure.
    Io,
    /// The input is malformed or a precondition of the step does not hold; git
    /// or cmake reported failure.
    Data,
    /// A directory or a file could not be created.
    CannotCreate,
    /// The tools contradict each other: an internal error.
    Software,
}

impl FailureClass {
    /// The exit status of the class.
    pub open spec fn spec_code(self) -> u8 {
        match self {
            FailureClass::Unavailable => 69,
            FailureClass::Io => 74,
            FailureClass::Data => 65,
            FailureClass::CannotCreate => 73,
            FailureClass::Software => 70,
        }
    }

    /// The exit status of the class.
    pub fn code(self) -> (code: u8)
        ensures
            code == self.spec_code(),
    {
        match self {
            FailureClass::Unavailable => unavailable_code(),
            FailureClass::Io => io_error_code(),
            FailureClass::Data => data_error_code(),
            FailureClass::CannotCreate => cannot_create_code(),
            FailureClass::Software => software_code(),
        }
    }
}

/// No two classes share an exit status, and none has the status of success.
pub proof fn lemma_codes_distinct(a: FailureClass, b: FailureClass)
    ensures
        a.spec_code() == b.spec_code() ==> a == b,
        a.spec_code() != 0,
{
}

/// A failure: a message for the user and the exit status of the process.
#[derive(Debug, Clone, PartialEq, Eq)]
pub struct RuntimeError {
    pub message: String,
    pub exit_code: u8,
}

/// What a [`RuntimeError`] holds, as plain values.
pub struct RuntimeErrorView {
    pub message: Seq<char>,
    pub exit_code: u8,
}

impl View for RuntimeError {
    type V = RuntimeErrorView;

    open spec fn view(&self) -> RuntimeErrorView {
        RuntimeErrorView { message: self.message@, exit_code: self.exit_code }
    }
}

/// The failure of class `class` with message `message`.
pub open spec fn failure(class: FailureClass, message: Seq<char>) -> RuntimeErrorView {
    RuntimeErrorView { message, exit_code: class.spec_code() }
}

impl RuntimeError {
    pub fn new(message: String, exit_code: u8) -> (error: RuntimeError)
        ensures
            error@ == (RuntimeErrorView { message: message@, exit_code }),
    {
        RuntimeError { message, exit_code }
    }

    /// The failure of class `class` with message `message`.
    pub fn of(class: FailureClass, message: String) -> (error: RuntimeError)
        ensures
            error@ == failure(class, message@),
    {
        RuntimeError { message, exit_code: class.code() }
    }

    /// The message of the failure.
    pub fn to_string(&self) -> (text: String)
        ensures
            text@ == self.message@,
    {
        self.message.clone()
    }
}

/// The result of a step that may fail.
pub type Result<T> = std::result::Result<T, RuntimeError>;

} // verus!
