//! The tools that an installation runs, and how they are found.

use crate::error::{failure, FailureClass, RuntimeError, RuntimeErrorView};
use crate::process::{bare, Invocation, ProcessOutcome, Program, ProgramView};
use std::path::PathBuf;
use vstd::prelude::*;

pub mod cmake;
pub mod git;
pub mod ninja;
pub mod uv;
pub mod version;
pub mod version_order;

verus! {

/// `which::Error`, the reason why a search found nothing. It is handed on as it
/// comes; nothing is said of what it holds.
#[verifier::external_type_specification]
#[verifier::external_body]
pub struct ExWhichError(which::Error);

/// Calls `which::which`, which looks for an executable named `name` in the
/// directories of the search path. What it finds depends on the machine, so
/// nothing is promised of the result.
#[verifier::external_body]
pub(crate) fn which_program(name: &str) -> (found: Result<PathBuf, which::Error>) {
    which::which(name)
}

/// What a tool is needed for.
#[derive(Debug, Clone, Copy, PartialEq, Eq, Structural)]
pub enum Capability {
    VersionControl,
    BuildGenerator,
    BuildExecutor,
    InterpreterManager,
}

impl Capability {
    /// The name under which the tool of this capability is looked for.
    pub open spec fn spec_program_name(self) -> Seq<char> {
        match self {
            Capability::VersionControl => "git"@,
            Capability::BuildGenerator => "cmake"@,
            Capability::BuildExecutor => "ninja"@,
            Capability::InterpreterManager => "uv"@,
        }
    }

    /// The name under which the tool of this capability is looked for.
    pub fn program_name(self) -> (name: &'static str)
        ensures
            name@ == self.spec_program_name(),
    {
        match self {
            Capability::VersionControl => "git",
            Capability::BuildGenerator => "cmake",
            Capability::BuildExecutor => "ninja",
            Capability::InterpreterManager => "uv",
        }
    }
}

/// A tool that the installation runs as a process.
pub trait ExternalTool: Sized {
    /// The executable of the tool.
    spec fn program(&self) -> PathBuf;

    /// What the tool is needed for.
    spec fn spec_capability() -> Capability;

    /// The tool whose executable is `path`.
    fn new(path: PathBuf) -> (tool: Self)
        ensures
            tool.program() == path,
    ;

    /// What the tool is needed for.
    fn capability() -> (capability: Capability)
        ensures
            capability == Self::spec_capability(),
    ;

    /// The executable of the tool.
    fn path(&self) -> (path: &PathBuf)
        ensures
            *path == self.program(),
    ;

    /// The tool for what a search gave: the tool at the path that was found, or
    /// the search's own error.
    fn located(found: Result<PathBuf, which::Error>) -> (tool: Result<Self, which::Error>)
        ensures
            match found {
                Ok(path) => tool matches Ok(t) && t.program() == path,
                Err(e) => tool matches Err(f) && f == e,
            },
    {
        match found {
            Ok(path) => Ok(Self::new(path)),
            Err(e) => Err(e),
        }
    }

    /// The tool as the search path of this process has it under the name of its
    /// capability. Whether it is found depends on the machine.
    fn global() -> (found: Result<Self, which::Error>) {
        Self::located(which_program(Self::capability().program_name()))
    }

    /// The invocation that probes the tool: its executable alone, output captured.
    fn probe(&self) -> (inv: Invocation)
        ensures
            inv@ == bare(ProgramView::At(self.program()), true),
    {
        Invocation::new(Program::At(self.path().clone()), true)
    }

    /// Whether the probe found the tool: it did when the process could be run,
    /// whatever status it then reported.
    fn is_available(&self, probed: &ProcessOutcome) -> (available: bool)
        ensures
            available == (probed@ is Exited),
    {
        match probed {
            ProcessOutcome::Exited { .. } => true,
            ProcessOutcome::Failed { .. } => false,
        }
    }
}

/// The failure that says that the tool of a capability is not installed, and how
/// to get it.
pub open spec fn not_installed(capability: Capability) -> RuntimeErrorView {
    failure(
        FailureClass::Unavailable,
        match capability {
            Capability::VersionControl => "Git is not installed. Please install it using your system's package manager."@,
            Capability::BuildGenerator => "CMake is not installed. Please install it using your system's package manager."@,
            Capability::BuildExecutor => "Ninja is not installed. Please install it using your system's package manager."@,
            Capability::InterpreterManager => "uv is not installed. Please install it using `pip install uv`."@,
        },
    )
}

fn not_installed_error(capability: Capability) -> (error: RuntimeError)
    ensures
        error@ == not_installed(capability),
{
    let message = match capability {
        Capability::VersionControl => "Git is not installed. Please install it using your system's package manager.",
        Capability::BuildGenerator => "CMake is not installed. Please install it using your system's package manager.",
        Capability::BuildExecutor => "Ninja is not installed. Please install it using your system's package manager.",
        Capability::InterpreterManager => "uv is not installed. Please install it using `pip install uv`.",
    };
    RuntimeError::of(FailureClass::Unavailable, message.to_owned())
}

/// What a result that holds a tool or a failure stands for.
pub open spec fn lookup_view<T>(found: Result<T, RuntimeError>) -> Result<T, RuntimeErrorView> {
    match found {
        Ok(tool) => Ok(tool),
        Err(e) => Err(e@),
    }
}

/// What a search for a tool means for the installation: the tool where it was
/// found; where it was not, whatever the reason, the failure that says that it is
/// not installed.
pub open spec fn required<T: ExternalTool>(found: Result<T, which::Error>) -> Result<
    T,
    RuntimeErrorView,
> {
    match found {
        Ok(tool) => Ok(tool),
        Err(_) => Err(not_installed(T::spec_capability())),
    }
}

/// Turns what a search for a tool gave into the tool or the failure: see
/// [`required`].
pub fn require<T: ExternalTool>(found: Result<T, which::Error>) -> (r: Result<T, RuntimeError>)
    ensures
        lookup_view(r) == required(found),
{
    match found {
        Ok(tool) => Ok(tool),
        Err(_) => Err(not_installed_error(T::capability())),
    }
}

} // verus!
