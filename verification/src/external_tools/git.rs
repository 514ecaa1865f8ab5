//! The version-control tool: cloning, updating in place, and submodules.

use crate::error::{FailureClass, RuntimeError, RuntimeErrorView};
use crate::external_tools::{Capability, ExternalTool};
use crate::process::{
    bare, optional_str_view, unit_result_view, Invocation, InvocationView, ProcessOutcome,
    ProcessOutcomeView, Program, ProgramView, Quote,
};
use std::path::PathBuf;
use vstd::prelude::*;

verus! {

/// The version-control tool.
#[derive(Debug, PartialEq, Eq)]
pub struct Git {
    path: PathBuf,
}

impl ExternalTool for Git {
    closed spec fn program(&self) -> PathBuf {
        self.path
    }

    open spec fn spec_capability() -> Capability {
        Capability::VersionControl
    }

    fn new(path: PathBuf) -> (tool: Self) {
        Git { path }
    }

    fn capability() -> (capability: Capability) {
        let capability = Capability::VersionControl;
        assert(capability == Self::spec_capability());
        capability
    }

    fn path(&self) -> (path: &PathBuf) {
        &self.path
    }
}

impl Git {
    /// An invocation with the variables that keep git from asking for credentials,
    /// so that a missing credential fails at once.
    pub open spec fn configured(inv: InvocationView) -> InvocationView {
        inv.env("GIT_TERMINAL_PROMPT"@, "0"@).env("GIT_CREDENTIAL_HELPER"@, ""@).env(
            "GIT_TERMINAL_AUTHONLY"@,
            "0"@,
        )
    }

    fn configure_git_command(&self, cmd: &mut Invocation)
        ensures
            final(cmd)@ == Self::configured(old(cmd)@),
    {
        cmd.env("GIT_TERMINAL_PROMPT", "0");
        cmd.env("GIT_CREDENTIAL_HELPER", "");
        cmd.env("GIT_TERMINAL_AUTHONLY", "0");
    }

    /// `git clone [-b <branch>] <repo_url> <repo_path>`.
    pub open spec fn spec_clone(
        &self,
        repo_path: Seq<char>,
        repo_url: Seq<char>,
        branch: Option<Seq<char>>,
    ) -> InvocationView {
        let start = Self::configured(bare(ProgramView::At(self.program()), true)).arg("clone"@);
        let selected = match branch {
            Some(branch) => start.arg("-b"@).arg(branch),
            None => start,
        };
        selected.arg(repo_url).arg(repo_path)
    }

    /// The invocation that clones `repo_url` into `repo_path`, at `branch` where one
    /// is given.
    pub fn clone(&self, repo_path: &str, repo_url: &str, branch: Option<&str>) -> (inv: Invocation)
        ensures
            inv@ == self.spec_clone(repo_path@, repo_url@, optional_str_view(branch)),
    {
        let mut cmd = Invocation::new(Program::At(self.path.clone()), true);
        self.configure_git_command(&mut cmd);
        cmd.arg("clone");
        if let Some(branch) = branch {
            cmd.arg("-b");
            cmd.arg(branch);
        }
        cmd.arg(repo_url);
        cmd.arg(repo_path);
        cmd
    }

    /// `git pull`, run in `repo_path`.
    pub open spec fn spec_pull(&self, repo_path: Seq<char>) -> InvocationView {
        Self::configured(bare(ProgramView::At(self.program()), true).current_dir(repo_path)).arg(
            "pull"@,
        )
    }

    /// The invocation that updates the working copy in `repo_path` in place.
    pub fn pull(&self, repo_path: &str) -> (inv: Invocation)
        ensures
            inv@ == self.spec_pull(repo_path@),
    {
        let mut cmd = Invocation::new(Program::At(self.path.clone()), true);
        cmd.current_dir(repo_path);
        self.configure_git_command(&mut cmd);
        cmd.arg("pull");
        cmd
    }

    /// `git submodule update --init --recursive --remote`, run in `repo_path`.
    pub open spec fn spec_update_submodules(&self, repo_path: Seq<char>) -> InvocationView {
        Self::configured(bare(ProgramView::At(self.program()), true).current_dir(repo_path)).arg(
            "submodule"@,
        ).arg("update"@).arg("--init"@).arg("--recursive"@).arg("--remote"@)
    }

    /// The invocation that initialises and updates every submodule of the working
    /// copy in `repo_path`, nested ones too, to what each tracks.
    pub fn update_submodules(&self, repo_path: &str) -> (inv: Invocation)
        ensures
            inv@ == self.spec_update_submodules(repo_path@),
    {
        let mut cmd = Invocation::new(Program::At(self.path.clone()), true);
        cmd.current_dir(repo_path);
        self.configure_git_command(&mut cmd);
        cmd.arg("submodule");
        cmd.arg("update");
        cmd.arg("--init");
        cmd.arg("--recursive");
        cmd.arg("--remote");
        cmd
    }

    /// The variables that keep git from asking for credentials.
    pub open spec fn no_prompt() -> Seq<(Seq<char>, Seq<char>)> {
        seq![
            ("GIT_TERMINAL_PROMPT"@, "0"@),
            ("GIT_CREDENTIAL_HELPER"@, ""@),
            ("GIT_TERMINAL_AUTHONLY"@, "0"@),
        ]
    }

    /// Every invocation of git runs without a prompt: its environment holds the
    /// variables that keep git from asking, and no others.
    pub proof fn lemma_never_prompts(
        &self,
        repo_path: Seq<char>,
        repo_url: Seq<char>,
        branch: Option<Seq<char>>,
    )
        ensures
            self.spec_clone(repo_path, repo_url, branch).env == Self::no_prompt(),
            self.spec_pull(repo_path).env == Self::no_prompt(),
            self.spec_update_submodules(repo_path).env == Self::no_prompt(),
    {
    }

    /// What a clone gave: a data failure that quotes git's own words where git
    /// reported failure.
    pub open spec fn spec_clone_result(outcome: ProcessOutcomeView) -> Result<
        (),
        RuntimeErrorView,
    > {
        outcome.require_success("git clone failed: "@, Quote::Stderr, FailureClass::Data)
    }

    /// The result of a clone: see [`Git::spec_clone_result`].
    pub fn clone_result(outcome: &ProcessOutcome) -> (r: Result<(), RuntimeError>)
        ensures
            unit_result_view(r) == Self::spec_clone_result(outcome@),
    {
        outcome.require_success("git clone failed: ", Quote::Stderr, FailureClass::Data)
    }

    /// What a pull gave: a data failure that quotes git's own words where git
    /// reported failure.
    pub open spec fn spec_pull_result(outcome: ProcessOutcomeView) -> Result<(), RuntimeErrorView> {
        outcome.require_success("git pull failed: "@, Quote::Stderr, FailureClass::Data)
    }

    /// The result of a pull: see [`Git::spec_pull_result`].
    pub fn pull_result(outcome: &ProcessOutcome) -> (r: Result<(), RuntimeError>)
        ensures
            unit_result_view(r) == Self::spec_pull_result(outcome@),
    {
        outcome.require_success("git pull failed: ", Quote::Stderr, FailureClass::Data)
    }

    /// What a submodule update gave: a data failure that quotes git's own words
    /// where git reported failure.
    pub open spec fn spec_update_submodules_result(outcome: ProcessOutcomeView) -> Result<
        (),
        RuntimeErrorView,
    > {
        outcome.require_success("git submodule update failed: "@, Quote::Stderr, FailureClass::Data)
    }

    /// The result of a submodule update: see
    /// [`Git::spec_update_submodules_result`].
    pub fn update_submodules_result(outcome: &ProcessOutcome) -> (r: Result<(), RuntimeError>)
        ensures
            unit_result_view(r) == Self::spec_update_submodules_result(outcome@),
    {
        outcome.require_success("git submodule update failed: ", Quote::Stderr, FailureClass::Data)
    }
}

} // verus!
