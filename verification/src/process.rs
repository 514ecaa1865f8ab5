//! Invocations of processes and their outcomes, as plain values. Starting a
//! process and waiting for it is left to the caller.

use crate::error::{failure, FailureClass, RuntimeError, RuntimeErrorView};
use crate::text::string_views;
use std::path::PathBuf;
use vstd::prelude::*;
use vstd::string::StringExecFns;

verus! {

/// `std::path::PathBuf`, the path of an executable as a search found it. It is
/// handed on as it comes; nothing is said of what it holds.
#[verifier::external_type_specification]
#[verifier::external_body]
pub struct ExPathBuf(PathBuf);

/// `PathBuf::clone`: the copy equals the path that was copied.
pub assume_specification[ <PathBuf as Clone>::clone ](path: &PathBuf) -> (copy: PathBuf)
    ensures
        copy == *path,
;

/// The program of an invocation.
#[derive(Debug, PartialEq, Eq)]
pub enum Program {
    /// The executable at this path.
    At(PathBuf),
    /// The executable that the system finds under this name when the process is
    /// started: in the search path, or at the path that the name is where it holds
    /// a separator.
    Named(String),
}

/// What a [`Program`] holds, as plain values.
pub enum ProgramView {
    At(PathBuf),
    Named(Seq<char>),
}

impl View for Program {
    type V = ProgramView;

    open spec fn view(&self) -> ProgramView {
        match *self {
            Program::At(path) => ProgramView::At(path),
            Program::Named(name) => ProgramView::Named(name@),
        }
    }
}

/// A process to run: the program, its arguments, and the surroundings it gets.
///
/// `env` is added to the environment that the process inherits. With
/// `capture_output` the caller collects what the process writes; without it the
/// process writes where the caller writes.
#[derive(Debug, PartialEq, Eq)]
pub struct Invocation {
    pub program: Program,
    pub args: Vec<String>,
    pub env: Vec<(String, String)>,
    pub current_dir: Option<String>,
    pub capture_output: bool,
}

/// What an [`Invocation`] holds, as plain values.
pub struct InvocationView {
    pub program: ProgramView,
    pub args: Seq<Seq<char>>,
    pub env: Seq<(Seq<char>, Seq<char>)>,
    pub current_dir: Option<Seq<char>>,
    pub capture_output: bool,
}

/// What each pair of a sequence of pairs of strings holds.
pub open spec fn pair_views(pairs: Seq<(String, String)>) -> Seq<(Seq<char>, Seq<char>)> {
    pairs.map_values(|p: (String, String)| (p.0@, p.1@))
}

/// What an optional string holds.
pub open spec fn optional_view(s: Option<String>) -> Option<Seq<char>> {
    match s {
        Some(s) => Some(s@),
        None => None,
    }
}

/// What an optional string slice holds.
pub open spec fn optional_str_view(s: Option<&str>) -> Option<Seq<char>> {
    match s {
        Some(s) => Some(s@),
        None => None,
    }
}

impl View for Invocation {
    type V = InvocationView;

    open spec fn view(&self) -> InvocationView {
        InvocationView {
            program: self.program@,
            args: string_views(self.args@),
            env: pair_views(self.env@),
            current_dir: optional_view(self.current_dir),
            capture_output: self.capture_output,
        }
    }
}

/// The invocation of `program` with no argument, in the caller's surroundings.
pub open spec fn bare(program: ProgramView, capture_output: bool) -> InvocationView {
    InvocationView {
        program,
        args: Seq::empty(),
        env: Seq::empty(),
        current_dir: None,
        capture_output,
    }
}

impl InvocationView {
    /// This invocation with one argument more.
    pub open spec fn arg(self, arg: Seq<char>) -> InvocationView {
        InvocationView { args: self.args.push(arg), ..self }
    }

    /// This invocation with the arguments `more` behind its own.
    pub open spec fn args(self, more: Seq<Seq<char>>) -> InvocationView {
        InvocationView { args: self.args + more, ..self }
    }

    /// This invocation with one variable more in its environment.
    pub open spec fn env(self, name: Seq<char>, value: Seq<char>) -> InvocationView {
        InvocationView { env: self.env.push((name, value)), ..self }
    }

    /// This invocation, run in the directory `dir`.
    pub open spec fn current_dir(self, dir: Seq<char>) -> InvocationView {
        InvocationView { current_dir: Some(dir), ..self }
    }
}

impl Invocation {
    /// The invocation of `program` with no argument, in the caller's surroundings.
    pub fn new(program: Program, capture_output: bool) -> (inv: Invocation)
        ensures
            inv@ == bare(program@, capture_output),
    {
        let inv = Invocation {
            program,
            args: Vec::new(),
            env: Vec::new(),
            current_dir: None,
            capture_output,
        };
        assert(inv@.args =~= Seq::empty());
        assert(inv@.env =~= Seq::empty());
        inv
    }

    /// Adds an argument behind those that are there.
    pub fn arg(&mut self, arg: &str)
        ensures
            final(self)@ == old(self)@.arg(arg@),
    {
        self.args.push(String::from_str(arg));
        assert(self@.args =~= old(self)@.args.push(arg@));
    }

    /// Adds arguments behind those that are there, in their order.
    pub fn args(&mut self, more: &[String])
        ensures
            final(self)@ == old(self)@.args(string_views(more@)),
    {
        let mut i: usize = 0;
        while i < more.len()
            invariant
                i <= more.len(),
                self@ == old(self)@.args(string_views(more@.take(i as int))),
            decreases more.len() - i,
        {
            let ghost before = self@;
            self.args.push(more[i].clone());
            proof {
                assert(self@.args =~= before.args.push(more@[i as int]@));
                assert(self@.args =~= old(self)@.args + string_views(more@.take(i + 1)));
            }
            i += 1;
        }
        assert(more@.take(more.len() as int) =~= more@);
    }

    /// Adds a variable to the environment of the process.
    pub fn env(&mut self, name: &str, value: &str)
        ensures
            final(self)@ == old(self)@.env(name@, value@),
    {
        self.env.push((String::from_str(name), String::from_str(value)));
        assert(self@.env =~= old(self)@.env.push((name@, value@)));
    }

    /// Sets the directory in which the process runs.
    pub fn current_dir(&mut self, dir: &str)
        ensures
            final(self)@ == old(self)@.current_dir(dir@),
    {
        self.current_dir = Some(String::from_str(dir));
    }
}

/// How an invocation ended.
#[derive(Debug, PartialEq, Eq)]
pub enum ProcessOutcome {
    /// The process could not be started or waited for; `message` is the reason
    /// that the system gave.
    Failed { message: String },
    /// The process ran to its end. `status` is its exit status in words; `stdout`
    /// and `stderr` are what it wrote, empty where the output was not captured.
    Exited { success: bool, status: String, stdout: String, stderr: String },
}

/// What a [`ProcessOutcome`] holds, as plain values.
pub enum ProcessOutcomeView {
    Failed { message: Seq<char> },
    Exited { success: bool, status: Seq<char>, stdout: Seq<char>, stderr: Seq<char> },
}

impl View for ProcessOutcome {
    type V = ProcessOutcomeView;

    open spec fn view(&self) -> ProcessOutcomeView {
        match *self {
            ProcessOutcome::Failed { message } => ProcessOutcomeView::Failed {
                message: message@,
            },
            ProcessOutcome::Exited { success, status, stdout, stderr } => {
                ProcessOutcomeView::Exited {
                    success,
                    status: status@,
                    stdout: stdout@,
                    stderr: stderr@,
                }
            },
        }
    }
}

/// Which part of an outcome the message of a failure quotes.
#[derive(Debug, Clone, Copy, PartialEq, Eq, Structural)]
pub enum Quote {
    /// What the process wrote to its error stream.
    Stderr,
    /// The exit status of the process.
    Status,
    /// The exit status of the process; on the next line what it wrote to its
    /// output stream, then what it wrote to its error stream.
    StatusAndOutput,
}

/// What a result that holds nothing or a failure stands for.
pub open spec fn unit_result_view(r: Result<(), RuntimeError>) -> Result<(), RuntimeErrorView> {
    match r {
        Ok(()) => Ok(()),
        Err(e) => Err(e@),
    }
}

impl ProcessOutcomeView {
    /// Whether the process ran and reported success.
    pub open spec fn succeeded(self) -> bool {
        self matches ProcessOutcomeView::Exited { success, .. } && success
    }

    /// Nothing where the process ran and reported success. Where it could not be
    /// run, an input/output failure with the system's reason. Where it reported
    /// failure, a failure of class `class` whose message is `prefix` followed by
    /// the part of the outcome that `quote` names.
    pub open spec fn require_success(
        self,
        prefix: Seq<char>,
        quote: Quote,
        class: FailureClass,
    ) -> Result<(), RuntimeErrorView> {
        match self {
            ProcessOutcomeView::Failed { message } => Err(failure(FailureClass::Io, message)),
            ProcessOutcomeView::Exited { success, status, stdout, stderr } => {
                if success {
                    Ok(())
                } else {
                    Err(
                        failure(
                            class,
                            prefix + (match quote {
                                Quote::Stderr => stderr,
                                Quote::Status => status,
                                Quote::StatusAndOutput => status + seq!['\n'] + stdout + stderr,
                            }),
                        ),
                    )
                }
            },
        }
    }
}

impl ProcessOutcome {
    /// Whether the process ran and reported success.
    pub fn succeeded(&self) -> (b: bool)
        ensures
            b == self@.succeeded(),
    {
        match self {
            ProcessOutcome::Failed { .. } => false,
            ProcessOutcome::Exited { success, .. } => *success,
        }
    }

    /// Turns the outcome into the result of the step: see
    /// [`ProcessOutcomeView::require_success`].
    pub fn require_success(&self, prefix: &str, quote: Quote, class: FailureClass) -> (r: Result<
        (),
        RuntimeError,
    >)
        ensures
            unit_result_view(r) == self@.require_success(prefix@, quote, class),
    {
        match self {
            ProcessOutcome::Failed { message } => Err(
                RuntimeError::of(FailureClass::Io, message.clone()),
            ),
            ProcessOutcome::Exited { success, status, stdout, stderr } => {
                if *success {
                    Ok(())
                } else {
                    let mut text = String::from_str(prefix);
                    match quote {
                        Quote::Stderr => text.append(stderr.as_str()),
                        Quote::Status => text.append(status.as_str()),
                        Quote::StatusAndOutput => {
                            proof {
                                reveal_strlit("\n");
                            }
                            text.append(status.as_str());
                            text.append("\n");
                            text.append(stdout.as_str());
                            text.append(stderr.as_str());
                            assert(text@ =~= prefix@ + (status@ + seq!['\n'] + stdout@ + stderr@));
                        },
                    }
                    Err(RuntimeError::of(class, text))
                }
            },
        }
    }
}

} // verus!
