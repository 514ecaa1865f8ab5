//! The installation as a state machine.
//!
//! The machine waits at a [`Stage`]. An [`Event`] from outside makes it take a
//! step: it moves to the next stage and says what comes [`Next`]. It performs
//! nothing itself. [`transition`] is the whole of its behaviour; the proof
//! functions of this module state what holds of every run.

use crate::commands::install::{
    build_dir, install_dir, recommended_python_version, resolved_request, source_dir,
    spec_recommended_python_version, venv_dir, InstallCommand, InstallationRequest,
    InstallationRequestView, InstanceDirectory,
};
use crate::config::{Config, Profile, ProfileView};
use crate::error::{failure, FailureClass, RuntimeError, RuntimeErrorView};
use crate::external_tools::cmake::CMake;
use crate::external_tools::git::Git;
use crate::external_tools::ninja::Ninja;
use crate::external_tools::uv::{
    lemma_resolved_interpreter_serves, listing_result, resolved_venv, serves, Uv,
    VirtualEnvironment, VirtualEnvironmentView,
};
use crate::external_tools::version::format_version;
use crate::external_tools::{lookup_view, Capability};
use crate::process::{Invocation, InvocationView, ProcessOutcome, ProcessOutcomeView};
use crate::text::{append_decimal, decimal_text, joined, string_views};
use vstd::prelude::*;
use vstd::string::StringExecFns;

verus! {

/// What an installation works from: the request, the instance directory, and the
/// generator of the build files.
#[derive(Debug)]
pub struct Plan {
    pub request: InstallationRequest,
    pub instance: InstanceDirectory,
    pub generator: String,
}

/// What a [`Plan`] holds, as plain values.
pub struct PlanView {
    pub request: InstallationRequestView,
    pub root: Seq<char>,
    pub generator: Seq<char>,
}

impl View for Plan {
    type V = PlanView;

    open spec fn view(&self) -> PlanView {
        PlanView { request: self.request@, root: self.instance.root@, generator: self.generator@ }
    }
}

/// The generator of the build files where the profile names none.
pub open spec fn default_generator() -> Seq<char> {
    "Ninja"@
}

/// The plan of the installation that `args` asks for, for the profile `profile`
/// that the configuration has under `profile_name`.
pub open spec fn planned(
    args: InstallCommand,
    config: Config,
    profile_name: Seq<char>,
    profile: ProfileView,
) -> PlanView {
    PlanView {
        request: resolved_request(args, profile),
        root: joined(config.paths.llama_dir@, profile_name),
        generator: match profile.cmake_generator {
            Some(generator) => generator,
            None => default_generator(),
        },
    }
}

impl Plan {
    /// Plans the installation that `args` asks for: see [`planned`].
    pub fn new(
        args: &InstallCommand,
        config: &Config,
        profile_name: &str,
        profile: &Profile,
    ) -> (plan: Plan)
        ensures
            plan@ == planned(*args, *config, profile_name@, profile@),
    {
        let generator = match &profile.cmake_generator {
            Some(generator) => generator.clone(),
            None => "Ninja".to_owned(),
        };
        Plan {
            request: InstallationRequest::resolve(args, profile),
            instance: InstanceDirectory::for_profile(config, profile_name),
            generator,
        }
    }
}

/// How far an installation has come.
#[derive(Debug, Clone, Copy, PartialEq, Eq, Structural)]
pub enum InstallState {
    Uninitialized,
    SourceSynced,
    PrerequisitesVerified,
    BuildConfigured,
    Built,
    Installed,
    /// The Python environment exists. An installation that makes one passes this
    /// state in the step that ends it.
    PythonConfigured,
    Ready,
}

impl InstallState {
    /// The place of the state in the order of an installation.
    pub open spec fn rank(self) -> nat {
        match self {
            InstallState::Uninitialized => 0,
            InstallState::SourceSynced => 1,
            InstallState::PrerequisitesVerified => 2,
            InstallState::BuildConfigured => 3,
            InstallState::Built => 4,
            InstallState::Installed => 5,
            InstallState::PythonConfigured => 6,
            InstallState::Ready => 7,
        }
    }
}

/// What the installation is waiting for, with the tools that the steps to come
/// will run.
#[derive(Debug, PartialEq)]
pub enum Stage {
    /// Whether the instance directory and the sources exist.
    Probing,
    /// The version-control tool.
    LocatingGit { source_exists: bool },
    /// The instance directory.
    CreatingInstance { git: Git, source_exists: bool },
    /// The end of the clone.
    Cloning { git: Git },
    /// The end of the update in place.
    Pulling { git: Git },
    /// The end of the submodule update.
    UpdatingSubmodules,
    /// The build generator.
    LocatingCMake,
    /// The build executor.
    LocatingNinja { cmake: CMake },
    /// The interpreter manager.
    LocatingUv { cmake: CMake },
    /// The end of the installation of the interpreter.
    InstallingPython { cmake: CMake, uv: Uv },
    /// The end of the configuration. `python` is the interpreter manager where a
    /// Python environment is to be made.
    Generating { cmake: CMake, python: Option<Uv> },
    /// The end of the compilation.
    Building { cmake: CMake, python: Option<Uv> },
    /// The end of the staging.
    Installing { python: Option<Uv> },
    /// The end of the creation of the environment.
    CreatingVenv { uv: Uv },
    /// The listing of the interpreters.
    ListingInterpreters,
    /// Nothing: the installation ended well, in `state`.
    Finished { state: InstallState },
    /// Nothing: the installation failed when it had come to `state`.
    Failed { state: InstallState },
}

impl Stage {
    /// How far the installation has come when it waits at this stage.
    pub open spec fn state(self) -> InstallState {
        match self {
            Stage::Probing => InstallState::Uninitialized,
            Stage::LocatingGit { .. } => InstallState::Uninitialized,
            Stage::CreatingInstance { .. } => InstallState::Uninitialized,
            Stage::Cloning { .. } => InstallState::Uninitialized,
            Stage::Pulling { .. } => InstallState::Uninitialized,
            Stage::UpdatingSubmodules => InstallState::Uninitialized,
            Stage::LocatingCMake => InstallState::SourceSynced,
            Stage::LocatingNinja { .. } => InstallState::SourceSynced,
            Stage::LocatingUv { .. } => InstallState::SourceSynced,
            Stage::InstallingPython { .. } => InstallState::SourceSynced,
            Stage::Generating { .. } => InstallState::PrerequisitesVerified,
            Stage::Building { .. } => InstallState::BuildConfigured,
            Stage::Installing { .. } => InstallState::Built,
            Stage::CreatingVenv { .. } => InstallState::Installed,
            Stage::ListingInterpreters => InstallState::Installed,
            Stage::Finished { state } => state,
            Stage::Failed { state } => state,
        }
    }

    /// Whether the installation has ended at this stage, well or not.
    pub open spec fn is_final(self) -> bool {
        self is Finished || self is Failed
    }

    /// The number of the stage in the order in which an installation passes the
    /// stages. The two ends come last.
    pub open spec fn position(self) -> nat {
        match self {
            Stage::Probing => 0,
            Stage::LocatingGit { .. } => 1,
            Stage::CreatingInstance { .. } => 2,
            Stage::Cloning { .. } => 3,
            Stage::Pulling { .. } => 3,
            Stage::UpdatingSubmodules => 4,
            Stage::LocatingCMake => 5,
            Stage::LocatingNinja { .. } => 6,
            Stage::LocatingUv { .. } => 7,
            Stage::InstallingPython { .. } => 8,
            Stage::Generating { .. } => 9,
            Stage::Building { .. } => 10,
            Stage::Installing { .. } => 11,
            Stage::CreatingVenv { .. } => 12,
            Stage::ListingInterpreters => 13,
            Stage::Finished { .. } => 14,
            Stage::Failed { .. } => 14,
        }
    }

    /// How far the installation has come when it waits at this stage.
    pub fn reached(&self) -> (state: InstallState)
        ensures
            state == self.state(),
    {
        match self {
            Stage::Probing => InstallState::Uninitialized,
            Stage::LocatingGit { .. } => InstallState::Uninitialized,
            Stage::CreatingInstance { .. } => InstallState::Uninitialized,
            Stage::Cloning { .. } => InstallState::Uninitialized,
            Stage::Pulling { .. } => InstallState::Uninitialized,
            Stage::UpdatingSubmodules => InstallState::Uninitialized,
            Stage::LocatingCMake => InstallState::SourceSynced,
            Stage::LocatingNinja { .. } => InstallState::SourceSynced,
            Stage::LocatingUv { .. } => InstallState::SourceSynced,
            Stage::InstallingPython { .. } => InstallState::SourceSynced,
            Stage::Generating { .. } => InstallState::PrerequisitesVerified,
            Stage::Building { .. } => InstallState::BuildConfigured,
            Stage::Installing { .. } => InstallState::Built,
            Stage::CreatingVenv { .. } => InstallState::Installed,
            Stage::ListingInterpreters => InstallState::Installed,
            Stage::Finished { state } => *state,
            Stage::Failed { state } => *state,
        }
    }
}

/// What happened outside since the last action.
#[derive(Debug)]
pub enum Event {
    /// The instance directory and the sources were looked for.
    InstanceProbed { instance_exists: bool, source_exists: bool },
    /// The version-control tool was looked for.
    Git(Result<Git, RuntimeError>),
    /// The build generator was looked for.
    CMake(Result<CMake, RuntimeError>),
    /// The build executor was looked for.
    Ninja(Result<Ninja, RuntimeError>),
    /// The interpreter manager was looked for.
    Uv(Result<Uv, RuntimeError>),
    /// The directory was created, or could not be, for the reason given.
    DirectoryCreated(Result<(), String>),
    /// The process has ended, or could not be run.
    Exited(ProcessOutcome),
}

/// What an [`Event`] holds, as plain values.
pub enum EventView {
    InstanceProbed { instance_exists: bool, source_exists: bool },
    Git(Result<Git, RuntimeErrorView>),
    CMake(Result<CMake, RuntimeErrorView>),
    Ninja(Result<Ninja, RuntimeErrorView>),
    Uv(Result<Uv, RuntimeErrorView>),
    DirectoryCreated(Result<(), Seq<char>>),
    Exited(ProcessOutcomeView),
}

impl View for Event {
    type V = EventView;

    open spec fn view(&self) -> EventView {
        match *self {
            Event::InstanceProbed { instance_exists, source_exists } => EventView::InstanceProbed {
                instance_exists,
                source_exists,
            },
            Event::Git(found) => EventView::Git(lookup_view(found)),
            Event::CMake(found) => EventView::CMake(lookup_view(found)),
            Event::Ninja(found) => EventView::Ninja(lookup_view(found)),
            Event::Uv(found) => EventView::Uv(lookup_view(found)),
            Event::DirectoryCreated(created) => EventView::DirectoryCreated(
                match created {
                    Ok(()) => Ok(()),
                    Err(reason) => Err(reason@),
                },
            ),
            Event::Exited(outcome) => EventView::Exited(outcome@),
        }
    }
}

/// Something to be done outside.
#[derive(Debug, PartialEq)]
pub enum Action {
    /// Find out whether the directories `instance` and `source` exist. Changes
    /// nothing.
    ProbeInstance { instance: String, source: String },
    /// Look for the tool of a capability. Changes nothing.
    Locate(Capability),
    /// Create the directory and those above it; it is no error if it exists.
    CreateDirectory(String),
    /// Run the tool of `capability` as `invocation` says, and wait for its end.
    Run { capability: Capability, invocation: Invocation },
}

/// What an [`Action`] holds, as plain values.
pub enum ActionView {
    ProbeInstance { instance: Seq<char>, source: Seq<char> },
    Locate(Capability),
    CreateDirectory(Seq<char>),
    Run { capability: Capability, invocation: InvocationView },
}

impl View for Action {
    type V = ActionView;

    open spec fn view(&self) -> ActionView {
        match *self {
            Action::ProbeInstance { instance, source } => ActionView::ProbeInstance {
                instance: instance@,
                source: source@,
            },
            Action::Locate(capability) => ActionView::Locate(capability),
            Action::CreateDirectory(path) => ActionView::CreateDirectory(path@),
            Action::Run { capability, invocation } => ActionView::Run {
                capability,
                invocation: invocation@,
            },
        }
    }
}

impl ActionView {
    /// Whether the action may change what is on disk.
    pub open spec fn mutates(self) -> bool {
        self is CreateDirectory || self is Run
    }

    /// Whether the action looks for or runs the tool of `capability`.
    pub open spec fn involves(self, capability: Capability) -> bool {
        match self {
            ActionView::Locate(c) => c == capability,
            ActionView::Run { capability: c, .. } => c == capability,
            _ => false,
        }
    }
}

/// What comes next in an installation.
#[derive(Debug, PartialEq)]
pub enum Next {
    /// The action is to be performed, and what happened is to be reported.
    Perform(Action),
    /// Nothing more: the installation ended well. `venv` is the environment that
    /// it made, if it made one.
    Finish { venv: Option<VirtualEnvironment> },
    /// Nothing more: the installation failed.
    Fail(RuntimeError),
}

/// What a [`Next`] holds, as plain values.
pub enum NextView {
    Perform(ActionView),
    Finish { venv: Option<VirtualEnvironmentView> },
    Fail(RuntimeErrorView),
}

impl View for Next {
    type V = NextView;

    open spec fn view(&self) -> NextView {
        match *self {
            Next::Perform(action) => NextView::Perform(action@),
            Next::Finish { venv } => NextView::Finish {
                venv: match venv {
                    Some(venv) => Some(venv@),
                    None => None,
                },
            },
            Next::Fail(error) => NextView::Fail(error@),
        }
    }
}

impl NextView {
    /// Whether what comes next may change what is on disk.
    pub open spec fn mutates(self) -> bool {
        self matches NextView::Perform(action) && action.mutates()
    }

    /// Whether what comes next looks for or runs the tool of `capability`.
    pub open spec fn involves(self, capability: Capability) -> bool {
        self matches NextView::Perform(action) && action.involves(capability)
    }

    /// Whether the installation has ended.
    pub open spec fn is_end(self) -> bool {
        self is Finish || self is Fail
    }
}

/// The configuration that cmake builds and stages.
pub open spec fn build_config() -> Seq<char> {
    "Release"@
}

/// The arguments that make the build use `parallelism` jobs.
pub open spec fn parallel_args(parallelism: Option<usize>) -> Seq<Seq<char>> {
    match parallelism {
        Some(jobs) => seq!["--parallel"@, decimal_text(jobs as nat)],
        None => Seq::empty(),
    }
}

/// The failure of an installation that may only update, where nothing is installed.
pub open spec fn nothing_to_update(root: Seq<char>) -> RuntimeErrorView {
    failure(FailureClass::Data, "Nothing to update: there is no installation at "@ + root)
}

/// The failure that an event causes that the stage does not wait for.
pub open spec fn out_of_turn() -> RuntimeErrorView {
    failure(FailureClass::Software, "The installation got an event that it did not wait for"@)
}

/// The failure `cause` with `prefix` before its message, to say which step
/// failed. The exit status stays the one that the cause carries.
pub open spec fn wrapped(prefix: Seq<char>, cause: RuntimeErrorView) -> RuntimeErrorView {
    RuntimeErrorView { message: prefix + cause.message, exit_code: cause.exit_code }
}

/// The end of an installation that fails at `stage` with `error`: nothing that
/// was reached is taken back.
pub open spec fn stop(stage: Stage, error: RuntimeErrorView) -> (Stage, NextView) {
    (Stage::Failed { state: stage.state() }, NextView::Fail(error))
}

/// The step to the stage `next`, which waits for what looking for the tool of
/// `capability` gives.
pub open spec fn await_tool(next: Stage, capability: Capability) -> (Stage, NextView) {
    (next, NextView::Perform(ActionView::Locate(capability)))
}

/// The end of an installation that ends well in `state`.
pub open spec fn finish(state: InstallState, venv: Option<VirtualEnvironmentView>) -> (
    Stage,
    NextView,
) {
    (Stage::Finished { state }, NextView::Finish { venv })
}

/// The step to the stage `next`, which waits for the end of `invocation`.
pub open spec fn await_end(next: Stage, capability: Capability, invocation: InvocationView) -> (
    Stage,
    NextView,
) {
    (next, NextView::Perform(ActionView::Run { capability, invocation }))
}

/// The configuration of the build, and the stage that waits for its end.
pub open spec fn configure(plan: PlanView, cmake: CMake, python: Option<Uv>) -> (
    Stage,
    NextView,
) {
    await_end(
        Stage::Generating { cmake, python },
        Capability::BuildGenerator,
        cmake.spec_generate(
            source_dir(plan.root),
            build_dir(plan.root),
            plan.generator,
            Some(install_dir(plan.root)),
            plan.request.extra_generator_args,
        ),
    )
}

/// The first action of an installation, with the stage that waits for its result.
pub open spec fn first_step(plan: PlanView) -> (Stage, ActionView) {
    (
        Stage::Probing,
        ActionView::ProbeInstance { instance: plan.root, source: source_dir(plan.root) },
    )
}

/// What an installation does when `event` arrives while it waits at `stage`: the
/// stage at which it waits next, and the action to take.
///
/// The steps follow each other in one order. The first failure ends the
/// installation, as does an event that the stage does not wait for; after its end
/// the installation takes no action but to report that.
pub open spec fn transition(plan: PlanView, stage: Stage, event: EventView) -> (Stage, NextView) {
    match (stage, event) {
        (Stage::Probing, EventView::InstanceProbed { instance_exists, source_exists }) => {
            if plan.request.update_only && !instance_exists {
                stop(stage, nothing_to_update(plan.root))
            } else {
                await_tool(Stage::LocatingGit { source_exists }, Capability::VersionControl)
            }
        },
        (Stage::LocatingGit { source_exists }, EventView::Git(found)) => match found {
            Err(e) => stop(stage, e),
            Ok(git) => (
                Stage::CreatingInstance { git, source_exists },
                NextView::Perform(ActionView::CreateDirectory(plan.root)),
            ),
        },
        (Stage::CreatingInstance { git, source_exists }, EventView::DirectoryCreated(created)) => {
            match created {
                Err(reason) => stop(
                    stage,
                    failure(
                        FailureClass::CannotCreate,
                        "Failed to create instance directory: "@ + reason,
                    ),
                ),
                Ok(()) => if source_exists {
                    await_end(
                        Stage::Pulling { git },
                        Capability::VersionControl,
                        git.spec_pull(source_dir(plan.root)),
                    )
                } else {
                    await_end(
                        Stage::Cloning { git },
                        Capability::VersionControl,
                        git.spec_clone(
                            source_dir(plan.root),
                            plan.request.repo_url,
                            Some(plan.request.branch),
                        ),
                    )
                },
            }
        },
        (Stage::Cloning { git }, EventView::Exited(outcome)) => {
            match Git::spec_clone_result(outcome) {
                Err(e) => stop(stage, wrapped("Failed to clone repository: "@, e)),
                Ok(()) => await_end(
                    Stage::UpdatingSubmodules,
                    Capability::VersionControl,
                    git.spec_update_submodules(source_dir(plan.root)),
                ),
            }
        },
        (Stage::Pulling { git }, EventView::Exited(outcome)) => {
            match Git::spec_pull_result(outcome) {
                Err(e) => stop(stage, wrapped("Failed to pull repository: "@, e)),
                Ok(()) => await_end(
                    Stage::UpdatingSubmodules,
                    Capability::VersionControl,
                    git.spec_update_submodules(source_dir(plan.root)),
                ),
            }
        },
        (Stage::UpdatingSubmodules, EventView::Exited(outcome)) => {
            match Git::spec_update_submodules_result(outcome) {
                Err(e) => stop(stage, wrapped("Failed to update submodules: "@, e)),
                Ok(()) => if plan.request.pull_only {
                    finish(InstallState::SourceSynced, None)
                } else {
                    await_tool(Stage::LocatingCMake, Capability::BuildGenerator)
                },
            }
        },
        (Stage::LocatingCMake, EventView::CMake(found)) => match found {
            Err(e) => stop(stage, e),
            Ok(cmake) => await_tool(Stage::LocatingNinja { cmake }, Capability::BuildExecutor),
        },
        (Stage::LocatingNinja { cmake }, EventView::Ninja(found)) => match found {
            Err(e) => stop(stage, e),
            Ok(_) => if plan.request.ignore_python {
                configure(plan, cmake, None)
            } else {
                await_tool(Stage::LocatingUv { cmake }, Capability::InterpreterManager)
            },
        },
        (Stage::LocatingUv { cmake }, EventView::Uv(found)) => match found {
            Err(e) => stop(stage, e),
            Ok(uv) => await_end(
                Stage::InstallingPython { cmake, uv },
                Capability::InterpreterManager,
                uv.spec_python(
                    "install"@,
                    Some(format_version(spec_recommended_python_version())),
                    true,
                ),
            ),
        },
        (Stage::InstallingPython { cmake, uv }, EventView::Exited(outcome)) => {
            match Uv::spec_install_result(outcome) {
                Err(e) => stop(stage, wrapped("Could not install Python - "@, e)),
                Ok(()) => configure(plan, cmake, Some(uv)),
            }
        },
        (Stage::Generating { cmake, python }, EventView::Exited(outcome)) => {
            match CMake::spec_phase_result("generate"@, outcome) {
                Err(e) => stop(stage, e),
                Ok(()) => await_end(
                    Stage::Building { cmake, python },
                    Capability::BuildGenerator,
                    cmake.spec_drive(
                        "--build"@,
                        build_dir(plan.root),
                        build_config(),
                        parallel_args(plan.request.parallelism),
                    ),
                ),
            }
        },
        (Stage::Building { cmake, python }, EventView::Exited(outcome)) => {
            match CMake::spec_phase_result("build"@, outcome) {
                Err(e) => stop(stage, e),
                Ok(()) => await_end(
                    Stage::Installing { python },
                    Capability::BuildGenerator,
                    cmake.spec_drive(
                        "--install"@,
                        build_dir(plan.root),
                        build_config(),
                        Seq::empty(),
                    ),
                ),
            }
        },
        (Stage::Installing { python }, EventView::Exited(outcome)) => {
            match CMake::spec_phase_result("install"@, outcome) {
                Err(e) => stop(stage, e),
                Ok(()) => match python {
                    Some(uv) => await_end(
                        Stage::CreatingVenv { uv },
                        Capability::InterpreterManager,
                        uv.spec_create_venv(venv_dir(plan.root), spec_recommended_python_version()),
                    ),
                    None => finish(InstallState::Ready, None),
                },
            }
        },
        (Stage::CreatingVenv { uv }, EventView::Exited(outcome)) => {
            match Uv::spec_create_venv_result(outcome) {
                Err(e) => stop(stage, e),
                Ok(()) => await_end(
                    Stage::ListingInterpreters,
                    Capability::InterpreterManager,
                    uv.spec_python("list"@, None, true),
                ),
            }
        },
        (Stage::ListingInterpreters, EventView::Exited(outcome)) => {
            match listing_result(outcome) {
                Err(e) => stop(stage, e),
                Ok(instances) => match resolved_venv(
                    venv_dir(plan.root),
                    spec_recommended_python_version(),
                    instances,
                ) {
                    Err(e) => stop(stage, e),
                    Ok(venv) => finish(InstallState::Ready, Some(venv)),
                },
            }
        },
        (Stage::Finished { state }, _) => (stage, NextView::Fail(out_of_turn())),
        _ => stop(stage, out_of_turn()),
    }
}

/// What a sequence of events leads to, from `stage` on: the stage at which the
/// installation waits in the end, and what came next after each event.
pub open spec fn unfold(plan: PlanView, stage: Stage, events: Seq<EventView>) -> (
    Stage,
    Seq<NextView>,
)
    decreases events.len(),
{
    if events.len() == 0 {
        (stage, Seq::empty())
    } else {
        let (before, taken) = unfold(plan, stage, events.drop_last());
        let (after, next) = transition(plan, before, events.last());
        (after, taken.push(next))
    }
}

/// Whether an installation at `stage` has not come further than to its sources.
pub open spec fn within_sources(stage: Stage) -> bool {
    stage.position() <= Stage::UpdatingSubmodules.position() || (stage.is_final()
        && stage.state().rank() <= InstallState::SourceSynced.rank())
}

/// A step that does not fail leads to a later stage and to a state that is no
/// earlier. A step that fails leaves the state as it was, and reports the failure.
/// An installation ends with the report of its end and in no other way.
pub proof fn lemma_step_advances(plan: PlanView, stage: Stage, event: EventView)
    requires
        !stage.is_final(),
    ensures
        ({
            let (after, next) = transition(plan, stage, event);
            &&& after is Failed <==> next is Fail
            &&& after is Finished <==> next is Finish
            &&& after is Failed ==> after.state() == stage.state()
            &&& !(after is Failed) ==> stage.position() < after.position() && stage.state().rank()
                <= after.state().rank()
        }),
{
}

/// After its end, well or not, an installation stays where it is whatever
/// arrives: it asks for no action, and only reports that nothing was waited for.
pub proof fn lemma_end_is_final(plan: PlanView, stage: Stage, events: Seq<EventView>)
    requires
        stage.is_final(),
    ensures
        unfold(plan, stage, events).0 == stage,
        unfold(plan, stage, events).1.len() == events.len(),
        forall|i: int|
            0 <= i < events.len() ==> (#[trigger] unfold(plan, stage, events).1[i])
                == NextView::Fail(out_of_turn()),
    decreases events.len(),
{
    if events.len() > 0 {
        lemma_end_is_final(plan, stage, events.drop_last());
    }
}

/// An installation that may only update, and finds no instance directory, fails
/// at once. Its first action only looks, the failure says that there is nothing
/// to update, and neither then nor later does it ask for an action that changes
/// anything.
pub proof fn lemma_update_needs_installation(
    plan: PlanView,
    source_exists: bool,
    later: Seq<EventView>,
)
    requires
        plan.request.update_only,
    ensures
        ({
            let (probing, first) = first_step(plan);
            let (failed, report) = transition(
                plan,
                probing,
                EventView::InstanceProbed { instance_exists: false, source_exists },
            );
            let (end, taken) = unfold(plan, failed, later);
            &&& !first.mutates()
            &&& failed == Stage::Failed { state: InstallState::Uninitialized }
            &&& report == NextView::Fail(nothing_to_update(plan.root))
            &&& end == failed
            &&& forall|i: int| 0 <= i < taken.len() ==> !(#[trigger] taken[i]).mutates()
        }),
{
    lemma_end_is_final(plan, Stage::Failed { state: InstallState::Uninitialized }, later);
}

/// An installation that is asked for the sources only never comes further than
/// to them, whatever arrives: it neither looks for nor runs the build generator or
/// the build executor, and where it ends well it ends with the sources in place.
pub proof fn lemma_pull_only_stays_within_sources(plan: PlanView, events: Seq<EventView>)
    requires
        plan.request.pull_only,
    ensures
        ({
            let (end, taken) = unfold(plan, first_step(plan).0, events);
            &&& within_sources(end)
            &&& end is Finished ==> end.state() == InstallState::SourceSynced
            &&& forall|i: int|
                0 <= i < taken.len() ==> !(#[trigger] taken[i]).involves(
                    Capability::BuildGenerator,
                ) && !taken[i].involves(Capability::BuildExecutor)
        }),
    decreases events.len(),
{
    if events.len() > 0 {
        lemma_pull_only_stays_within_sources(plan, events.drop_last());
    }
}

/// Once the submodules are up to date, an installation that is asked for the
/// sources only ends well, with the sources in place.
pub proof fn lemma_pull_only_ends_with_sources(plan: PlanView, outcome: ProcessOutcomeView)
    requires
        plan.request.pull_only,
        outcome.succeeded(),
    ensures
        transition(plan, Stage::UpdatingSubmodules, EventView::Exited(outcome)) == finish(
            InstallState::SourceSynced,
            None,
        ),
{
}

impl EventView {
    /// Whether the event is the end of a process that ran and reported success.
    pub open spec fn is_good_end(self) -> bool {
        self matches EventView::Exited(outcome) && outcome.succeeded()
    }
}

/// The phases of the build follow each other: the compilation is started only by
/// the good end of the configuration, and the staging only by the good end of the
/// compilation. The configuration in turn is started only once every tool that
/// is needed was found, and the search for the tools only by the good end of the
/// submodule update.
pub proof fn lemma_phases_in_order(plan: PlanView, stage: Stage, event: EventView)
    ensures
        ({
            let after = transition(plan, stage, event).0;
            &&& after is Installing ==> stage is Building && event.is_good_end()
            &&& after is Building ==> stage is Generating && event.is_good_end()
            &&& after is Generating ==> (stage is LocatingNinja && event is Ninja
                && plan.request.ignore_python) || (stage is InstallingPython
                && event.is_good_end())
            &&& after is LocatingCMake ==> stage is UpdatingSubmodules && event.is_good_end()
            &&& after is UpdatingSubmodules ==> (stage is Cloning || stage is Pulling)
                && event.is_good_end()
        }),
{
}

/// The state of an installation never goes back, whatever arrives.
pub proof fn lemma_state_never_goes_back(
    plan: PlanView,
    stage: Stage,
    events: Seq<EventView>,
    upto: int,
)
    requires
        0 <= upto <= events.len(),
    ensures
        unfold(plan, stage, events.take(upto)).0.state().rank() <= unfold(
            plan,
            stage,
            events,
        ).0.state().rank(),
    decreases events.len(),
{
    if upto == events.len() {
        assert(events.take(upto) =~= events);
    } else {
        lemma_state_never_goes_back(plan, stage, events.drop_last(), upto);
        assert(events.drop_last().take(upto) =~= events.take(upto));
    }
}

/// An installation that is asked for the sources only, finds git, can create its
/// directory and sees git succeed twice, ends well after five events, with the
/// sources in place. If it may only update, it needs an instance directory for
/// this.
pub proof fn lemma_pull_only_run(
    plan: PlanView,
    instance_exists: bool,
    source_exists: bool,
    git: Git,
    synced: ProcessOutcomeView,
    updated: ProcessOutcomeView,
)
    requires
        plan.request.pull_only,
        plan.request.update_only ==> instance_exists,
        synced.succeeded(),
        updated.succeeded(),
    ensures
        ({
            let events = seq![
                EventView::InstanceProbed { instance_exists, source_exists },
                EventView::Git(Ok(git)),
                EventView::DirectoryCreated(Ok(())),
                EventView::Exited(synced),
                EventView::Exited(updated),
            ];
            let (end, taken) = unfold(plan, first_step(plan).0, events);
            &&& end == Stage::Finished { state: InstallState::SourceSynced }
            &&& taken.len() == 5
            &&& taken[4] == NextView::Finish { venv: None }
            &&& forall|i: int| 0 <= i < 4 ==> (#[trigger] taken[i]) is Perform
        }),
{
    let e1 = seq![EventView::InstanceProbed { instance_exists, source_exists }];
    let e2 = e1.push(EventView::Git(Ok(git)));
    let e3 = e2.push(EventView::DirectoryCreated(Ok(())));
    let e4 = e3.push(EventView::Exited(synced));
    let e5 = e4.push(EventView::Exited(updated));
    let start = first_step(plan).0;
    assert(unfold(plan, start, Seq::<EventView>::empty()).0 == start);
    assert(e1.drop_last() =~= Seq::<EventView>::empty());
    assert(unfold(plan, start, e1).0 == Stage::LocatingGit { source_exists });
    assert(e2.drop_last() =~= e1);
    assert(unfold(plan, start, e2).0 == Stage::CreatingInstance { git, source_exists });
    assert(e3.drop_last() =~= e2);
    assert(unfold(plan, start, e3).0 == if source_exists {
        Stage::Pulling { git }
    } else {
        Stage::Cloning { git }
    });
    assert(e4.drop_last() =~= e3);
    assert(unfold(plan, start, e4).0 == Stage::UpdatingSubmodules);
    assert(e5.drop_last() =~= e4);
    assert(e5 =~= seq![
        EventView::InstanceProbed { instance_exists, source_exists },
        EventView::Git(Ok(git)),
        EventView::DirectoryCreated(Ok(())),
        EventView::Exited(synced),
        EventView::Exited(updated),
    ]);
}

impl Stage {
    /// The tool for whose end the installation waits at this stage, if it waits
    /// for the end of a process.
    pub open spec fn awaited_tool(self) -> Option<Capability> {
        match self {
            Stage::Cloning { .. } => Some(Capability::VersionControl),
            Stage::Pulling { .. } => Some(Capability::VersionControl),
            Stage::UpdatingSubmodules => Some(Capability::VersionControl),
            Stage::InstallingPython { .. } => Some(Capability::InterpreterManager),
            Stage::Generating { .. } => Some(Capability::BuildGenerator),
            Stage::Building { .. } => Some(Capability::BuildGenerator),
            Stage::Installing { .. } => Some(Capability::BuildGenerator),
            Stage::CreatingVenv { .. } => Some(Capability::InterpreterManager),
            Stage::ListingInterpreters => Some(Capability::InterpreterManager),
            _ => None,
        }
    }
}

/// The class of the failure of a tool: an input/output failure where the tool
/// could not be run; where it ran and reported failure, an input/output failure
/// for the interpreter manager and a data failure for the other tools.
pub open spec fn tool_failure_class(tool: Capability, outcome: ProcessOutcomeView) -> FailureClass {
    if outcome is Failed || tool == Capability::InterpreterManager {
        FailureClass::Io
    } else {
        FailureClass::Data
    }
}

/// The failure of a tool ends the installation, and reaches the end with the exit
/// status of the tool's own failure, whichever step it was.
pub proof fn lemma_tool_failure_keeps_its_status(
    plan: PlanView,
    stage: Stage,
    outcome: ProcessOutcomeView,
)
    requires
        stage.awaited_tool() is Some,
        !outcome.succeeded(),
    ensures
        ({
            let (after, next) = transition(plan, stage, EventView::Exited(outcome));
            &&& after == Stage::Failed { state: stage.state() }
            &&& next is Fail
            &&& next->Fail_0.exit_code == tool_failure_class(
                stage.awaited_tool()->0,
                outcome,
            ).spec_code()
        }),
{
}

/// Whether the sources are cloned or updated in place depends on nothing but
/// whether they exist: where they do, the installation pulls and never clones, so
/// that a second installation leaves what the first one fetched in its place.
pub proof fn lemma_existing_sources_are_updated(plan: PlanView, git: Git, source_exists: bool)
    ensures
        transition(
            plan,
            Stage::CreatingInstance { git, source_exists },
            EventView::DirectoryCreated(Ok(())),
        ) == (if source_exists {
            await_end(
                Stage::Pulling { git },
                Capability::VersionControl,
                git.spec_pull(source_dir(plan.root)),
            )
        } else {
            await_end(
                Stage::Cloning { git },
                Capability::VersionControl,
                git.spec_clone(
                    source_dir(plan.root),
                    plan.request.repo_url,
                    Some(plan.request.branch),
                ),
            )
        }),
{
}

/// The environment that an installation ends with lies in the instance
/// directory, and its interpreter is installed and matches the recommended
/// version under the wildcard rule.
pub proof fn lemma_environment_serves(plan: PlanView, stage: Stage, event: EventView)
    ensures
        transition(plan, stage, event).1 matches NextView::Finish { venv: Some(venv) } ==> {
            &&& venv.path == venv_dir(plan.root)
            &&& serves(venv.python_instance, spec_recommended_python_version())
        },
{
    if let (Stage::ListingInterpreters, EventView::Exited(outcome)) = (stage, event) {
        if let Ok(instances) = listing_result(outcome) {
            lemma_resolved_interpreter_serves(
                venv_dir(plan.root),
                spec_recommended_python_version(),
                instances,
            );
        }
    }
}

/// Does the actions of an installation through a callback, and keeps for the
/// proofs what was asked of the callback and what it answered. The callback is
/// called in no other way than through [`Performer::perform`].
pub struct Performer<F: Fn(Action) -> Event> {
    callback: F,
    asked: Ghost<Seq<Action>>,
    answered: Ghost<Seq<Event>>,
}

impl<F: Fn(Action) -> Event> Performer<F> {
    /// The callback that does the actions.
    pub closed spec fn callback(self) -> F {
        self.callback
    }

    /// The actions that the callback was called with, in their order.
    pub closed spec fn actions(self) -> Seq<Action> {
        self.asked@
    }

    /// What the callback answered, call by call.
    pub closed spec fn events(self) -> Seq<Event> {
        self.answered@
    }

    /// Whether this performer is `before` after some more calls: the callback is
    /// the same, and what `before` has done is the start of what this one has done.
    pub open spec fn extends(self, before: Self) -> bool {
        &&& self.callback() == before.callback()
        &&& before.actions().len() <= self.actions().len()
        &&& before.events().len() <= self.events().len()
        &&& self.actions().take(before.actions().len() as int) == before.actions()
        &&& self.events().take(before.events().len() as int) == before.events()
    }

    /// The actions that were done since `before`.
    pub open spec fn actions_since(self, before: Self) -> Seq<Action> {
        self.actions().skip(before.actions().len() as int)
    }

    /// What the callback answered since `before`.
    pub open spec fn events_since(self, before: Self) -> Seq<Event> {
        self.events().skip(before.events().len() as int)
    }

    /// A performer that has done nothing yet.
    pub fn new(callback: F) -> (performer: Self)
        ensures
            performer.callback() == callback,
            performer.actions() == Seq::<Action>::empty(),
            performer.events() == Seq::<Event>::empty(),
    {
        Performer { callback, asked: Ghost(Seq::empty()), answered: Ghost(Seq::empty()) }
    }

    /// Does `action` through the callback and gives what the callback answered.
    pub fn perform(&mut self, action: Action) -> (event: Event)
        requires
            call_requires(old(self).callback(), (action,)),
        ensures
            call_ensures(old(self).callback(), (action,), event),
            final(self).callback() == old(self).callback(),
            final(self).actions() == old(self).actions().push(action),
            final(self).events() == old(self).events().push(event),
    {
        let ghost asked = action;
        let event = (self.callback)(action);
        self.asked = Ghost(self.asked@.push(asked));
        self.answered = Ghost(self.answered@.push(event));
        event
    }
}

/// What each of a sequence of events holds.
pub open spec fn event_views(events: Seq<Event>) -> Seq<EventView> {
    events.map_values(|e: Event| e@)
}

/// Whether `actions` and `events` record an installation of `plan` from its start
/// to its end, in which `perform` did what was asked for.
///
/// The first action is the first action of the installation, each later one is
/// what came next after the event before it, and each event is what `perform` gave
/// for the action of the same number. After the last event the installation ended,
/// and not before.
pub open spec fn performed<F: Fn(Action) -> Event>(
    plan: PlanView,
    perform: F,
    actions: Seq<Action>,
    events: Seq<Event>,
) -> bool {
    let taken = unfold(plan, first_step(plan).0, event_views(events)).1;
    &&& 1 <= events.len() == actions.len()
    &&& actions[0]@ == first_step(plan).1
    &&& forall|i: int|
        1 <= i < actions.len() ==> taken[i - 1] == NextView::Perform((#[trigger] actions[i])@)
    &&& forall|i: int|
        0 <= i < events.len() ==> call_ensures(perform, (actions[i],), #[trigger] events[i])
    &&& taken.last().is_end()
}

/// What an installation of `plan` came to in which `events` arrived: nothing where
/// it ended well, the failure where it did not.
pub open spec fn result_of(plan: PlanView, events: Seq<Event>) -> Result<(), RuntimeErrorView> {
    match unfold(plan, first_step(plan).0, event_views(events)).1.last() {
        NextView::Fail(error) => Err(error),
        _ => Ok(()),
    }
}

/// Something comes next after each event.
pub proof fn lemma_unfold_len(plan: PlanView, stage: Stage, events: Seq<EventView>)
    ensures
        unfold(plan, stage, events).1.len() == events.len(),
    decreases events.len(),
{
    if events.len() > 0 {
        lemma_unfold_len(plan, stage, events.drop_last());
    }
}

/// What comes next after an event of a sequence is what the step at that event
/// gives, from the stage that the events before it lead to.
pub proof fn lemma_unfold_at(plan: PlanView, stage: Stage, events: Seq<EventView>, at: int)
    requires
        0 <= at < events.len(),
    ensures
        unfold(plan, stage, events).1[at] == transition(
            plan,
            unfold(plan, stage, events.take(at)).0,
            events[at],
        ).1,
    decreases events.len(),
{
    lemma_unfold_len(plan, stage, events.drop_last());
    if at < events.len() - 1 {
        lemma_unfold_at(plan, stage, events.drop_last(), at);
        assert(events.drop_last().take(at) =~= events.take(at));
    }
}

/// An installation that may only update and finds no instance directory asks its
/// performer to look for the directory and for nothing else, and fails because
/// there is nothing to update.
pub proof fn lemma_update_only_run_only_looks<F: Fn(Action) -> Event>(
    plan: PlanView,
    perform: F,
    actions: Seq<Action>,
    events: Seq<Event>,
)
    requires
        performed(plan, perform, actions, events),
        plan.request.update_only,
        events[0]@ matches EventView::InstanceProbed { instance_exists, .. } && !instance_exists,
    ensures
        actions.len() == 1,
        !actions[0]@.mutates(),
        result_of(plan, events) == Err::<(), RuntimeErrorView>(nothing_to_update(plan.root)),
{
    let views = event_views(events);
    let taken = unfold(plan, first_step(plan).0, views).1;
    lemma_unfold_at(plan, first_step(plan).0, views, 0);
    if actions.len() > 1 {
        assert(taken[0] == NextView::Perform(actions[1]@));
    }
}

/// An installation that is asked for the sources only asks its performer neither
/// to look for nor to run the build generator or the build executor.
pub proof fn lemma_pull_only_run_builds_nothing<F: Fn(Action) -> Event>(
    plan: PlanView,
    perform: F,
    actions: Seq<Action>,
    events: Seq<Event>,
)
    requires
        performed(plan, perform, actions, events),
        plan.request.pull_only,
    ensures
        forall|i: int|
            0 <= i < actions.len() ==> !(#[trigger] actions[i])@.involves(
                Capability::BuildGenerator,
            ) && !actions[i]@.involves(Capability::BuildExecutor),
        result_of(plan, events) is Ok ==> unfold(
            plan,
            first_step(plan).0,
            event_views(events),
        ).0 == (Stage::Finished { state: InstallState::SourceSynced }),
{
    lemma_pull_only_stays_within_sources(plan, event_views(events));
    lemma_unfold_len(plan, first_step(plan).0, event_views(events));
}

/// An installation asks for an action at most fourteen times.
pub proof fn lemma_installation_is_bounded(plan: PlanView, events: Seq<EventView>)
    ensures
        ({
            let (end, taken) = unfold(plan, first_step(plan).0, events);
            &&& taken.len() == events.len()
            &&& !end.is_final() ==> end.position() >= events.len()
            &&& forall|i: int| 14 <= i < taken.len() ==> (#[trigger] taken[i]).is_end()
        }),
    decreases events.len(),
{
    if events.len() > 0 {
        lemma_installation_is_bounded(plan, events.drop_last());
    }
}

fn stop_at(state: InstallState, error: RuntimeError) -> (next: (Stage, Next))
    ensures
        next.0 == (Stage::Failed { state }),
        next.1@ == NextView::Fail(error@),
{
    (Stage::Failed { state }, Next::Fail(error))
}

fn out_of_turn_error() -> (error: RuntimeError)
    ensures
        error@ == out_of_turn(),
{
    RuntimeError::of(
        FailureClass::Software,
        "The installation got an event that it did not wait for".to_owned(),
    )
}

fn wrap(prefix: &str, cause: RuntimeError) -> (error: RuntimeError)
    ensures
        error@ == wrapped(prefix@, cause@),
{
    let mut message = prefix.to_owned();
    message.append(cause.message.as_str());
    RuntimeError::new(message, cause.exit_code)
}

fn parallel_arguments(parallelism: Option<usize>) -> (args: Vec<String>)
    ensures
        string_views(args@) == parallel_args(parallelism),
{
    let mut args: Vec<String> = Vec::new();
    if let Some(jobs) = parallelism {
        args.push("--parallel".to_owned());
        let mut count = String::new();
        append_decimal(&mut count, jobs as u64);
        args.push(count);
    }
    assert(string_views(args@) =~= parallel_args(parallelism));
    args
}

fn locate(next: Stage, capability: Capability) -> (step: (Stage, Next))
    ensures
        step.0 == next,
        step.1@ == await_tool(next, capability).1,
{
    (next, Next::Perform(Action::Locate(capability)))
}

fn run_tool(next: Stage, capability: Capability, invocation: Invocation) -> (step: (Stage, Next))
    ensures
        step.0 == next,
        step.1@ == await_end(next, capability, invocation@).1,
{
    (next, Next::Perform(Action::Run { capability, invocation }))
}

fn finish_in(state: InstallState, venv: Option<VirtualEnvironment>) -> (step: (Stage, Next))
    ensures
        step.0 == (Stage::Finished { state }),
        step.1@ == (NextView::Finish {
            venv: match venv {
                Some(venv) => Some(venv@),
                None => None,
            },
        }),
{
    (Stage::Finished { state }, Next::Finish { venv })
}

fn configure_build(plan: &Plan, cmake: CMake, python: Option<Uv>) -> (next: (Stage, Next))
    ensures
        next.0 == configure(plan@, cmake, python).0,
        next.1@ == configure(plan@, cmake, python).1,
{
    let source = plan.instance.source();
    let build = plan.instance.build();
    let install = plan.instance.install();
    let invocation = cmake.generate(
        source.as_str(),
        build.as_str(),
        plan.generator.as_str(),
        Some(install.as_str()),
        Some(plan.request.extra_generator_args.as_slice()),
    );
    run_tool(Stage::Generating { cmake, python }, Capability::BuildGenerator, invocation)
}

fn update_submodules(plan: &Plan, git: Git) -> (next: (Stage, Next))
    ensures
        next.0 == Stage::UpdatingSubmodules,
        next.1@ == await_end(
            Stage::UpdatingSubmodules,
            Capability::VersionControl,
            git.spec_update_submodules(source_dir(plan@.root)),
        ).1,
{
    let source = plan.instance.source();
    let invocation = git.update_submodules(source.as_str());
    run_tool(Stage::UpdatingSubmodules, Capability::VersionControl, invocation)
}

/// The first action of an installation, with the stage that waits for its result.
pub fn start(plan: &Plan) -> (first: (Stage, Action))
    ensures
        first.0 == first_step(plan@).0,
        first.1@ == first_step(plan@).1,
{
    (
        Stage::Probing,
        Action::ProbeInstance {
            instance: plan.instance.root.clone(),
            source: plan.instance.source(),
        },
    )
}

/// Takes one step of the installation: see [`transition`].
pub fn step(plan: &Plan, stage: Stage, event: Event) -> (next: (Stage, Next))
    ensures
        next.0 == transition(plan@, stage, event@).0,
        next.1@ == transition(plan@, stage, event@).1,
{
    let state = stage.reached();
    match stage {
        Stage::Probing => match event {
            Event::InstanceProbed { instance_exists, source_exists } => {
                if plan.request.update_only && !instance_exists {
                    let mut message = "Nothing to update: there is no installation at ".to_owned();
                    message.append(plan.instance.root.as_str());
                    stop_at(state, RuntimeError::of(FailureClass::Data, message))
                } else {
                    locate(Stage::LocatingGit { source_exists }, Capability::VersionControl)
                }
            },
            _ => stop_at(state, out_of_turn_error()),
        },
        Stage::LocatingGit { source_exists } => match event {
            Event::Git(found) => match found {
                Err(e) => stop_at(state, e),
                Ok(git) => (
                    Stage::CreatingInstance { git, source_exists },
                    Next::Perform(Action::CreateDirectory(plan.instance.root.clone())),
                ),
            },
            _ => stop_at(state, out_of_turn_error()),
        },
        Stage::CreatingInstance { git, source_exists } => match event {
            Event::DirectoryCreated(created) => match created {
                Err(reason) => {
                    let mut message = "Failed to create instance directory: ".to_owned();
                    message.append(reason.as_str());
                    stop_at(state, RuntimeError::of(FailureClass::CannotCreate, message))
                },
                Ok(()) => {
                    let source = plan.instance.source();
                    if source_exists {
                        let invocation = git.pull(source.as_str());
                        run_tool(Stage::Pulling { git }, Capability::VersionControl, invocation)
                    } else {
                        let invocation = git.clone(
                            source.as_str(),
                            plan.request.repo_url.as_str(),
                            Some(plan.request.branch.as_str()),
                        );
                        run_tool(Stage::Cloning { git }, Capability::VersionControl, invocation)
                    }
                },
            },
            _ => stop_at(state, out_of_turn_error()),
        },
        Stage::Cloning { git } => match event {
            Event::Exited(outcome) => match Git::clone_result(&outcome) {
                Err(e) => stop_at(state, wrap("Failed to clone repository: ", e)),
                Ok(()) => update_submodules(plan, git),
            },
            _ => stop_at(state, out_of_turn_error()),
        },
        Stage::Pulling { git } => match event {
            Event::Exited(outcome) => match Git::pull_result(&outcome) {
                Err(e) => stop_at(state, wrap("Failed to pull repository: ", e)),
                Ok(()) => update_submodules(plan, git),
            },
            _ => stop_at(state, out_of_turn_error()),
        },
        Stage::UpdatingSubmodules => match event {
            Event::Exited(outcome) => match Git::update_submodules_result(&outcome) {
                Err(e) => stop_at(state, wrap("Failed to update submodules: ", e)),
                Ok(()) => {
                    if plan.request.pull_only {
                        finish_in(InstallState::SourceSynced, None)
                    } else {
                        locate(Stage::LocatingCMake, Capability::BuildGenerator)
                    }
                },
            },
            _ => stop_at(state, out_of_turn_error()),
        },
        Stage::LocatingCMake => match event {
            Event::CMake(found) => match found {
                Err(e) => stop_at(state, e),
                Ok(cmake) => locate(Stage::LocatingNinja { cmake }, Capability::BuildExecutor),
            },
            _ => stop_at(state, out_of_turn_error()),
        },
        Stage::LocatingNinja { cmake } => match event {
            Event::Ninja(found) => match found {
                Err(e) => stop_at(state, e),
                Ok(_) => {
                    if plan.request.ignore_python {
                        configure_build(plan, cmake, None)
                    } else {
                        locate(Stage::LocatingUv { cmake }, Capability::InterpreterManager)
                    }
                },
            },
            _ => stop_at(state, out_of_turn_error()),
        },
        Stage::LocatingUv { cmake } => match event {
            Event::Uv(found) => match found {
                Err(e) => stop_at(state, e),
                Ok(uv) => {
                    let invocation = uv.install_python_version(recommended_python_version());
                    run_tool(
                        Stage::InstallingPython { cmake, uv },
                        Capability::InterpreterManager,
                        invocation,
                    )
                },
            },
            _ => stop_at(state, out_of_turn_error()),
        },
        Stage::InstallingPython { cmake, uv } => match event {
            Event::Exited(outcome) => match Uv::install_result(&outcome) {
                Err(e) => stop_at(state, wrap("Could not install Python - ", e)),
                Ok(()) => configure_build(plan, cmake, Some(uv)),
            },
            _ => stop_at(state, out_of_turn_error()),
        },
        Stage::Generating { cmake, python } => match event {
            Event::Exited(outcome) => match CMake::generate_result(&outcome) {
                Err(e) => stop_at(state, e),
                Ok(()) => {
                    let build = plan.instance.build();
                    let jobs = parallel_arguments(plan.request.parallelism);
                    let invocation = cmake.build(build.as_str(), "Release", Some(jobs.as_slice()));
                    run_tool(
                        Stage::Building { cmake, python },
                        Capability::BuildGenerator,
                        invocation,
                    )
                },
            },
            _ => stop_at(state, out_of_turn_error()),
        },
        Stage::Building { cmake, python } => match event {
            Event::Exited(outcome) => match CMake::build_result(&outcome) {
                Err(e) => stop_at(state, e),
                Ok(()) => {
                    let build = plan.instance.build();
                    let invocation = cmake.install(build.as_str(), "Release", None);
                    run_tool(Stage::Installing { python }, Capability::BuildGenerator, invocation)
                },
            },
            _ => stop_at(state, out_of_turn_error()),
        },
        Stage::Installing { python } => match event {
            Event::Exited(outcome) => match CMake::install_result(&outcome) {
                Err(e) => stop_at(state, e),
                Ok(()) => match python {
                    Some(uv) => {
                        let venv = plan.instance.venv();
                        let invocation = uv.create_venv(
                            venv.as_str(),
                            recommended_python_version(),
                        );
                        run_tool(
                            Stage::CreatingVenv { uv },
                            Capability::InterpreterManager,
                            invocation,
                        )
                    },
                    None => finish_in(InstallState::Ready, None),
                },
            },
            _ => stop_at(state, out_of_turn_error()),
        },
        Stage::CreatingVenv { uv } => match event {
            Event::Exited(outcome) => match Uv::create_venv_result(&outcome) {
                Err(e) => stop_at(state, e),
                Ok(()) => {
                    let invocation = uv.get_python_instances();
                    run_tool(Stage::ListingInterpreters, Capability::InterpreterManager, invocation)
                },
            },
            _ => stop_at(state, out_of_turn_error()),
        },
        Stage::ListingInterpreters => match event {
            Event::Exited(outcome) => match Uv::get_python_instances_result(&outcome) {
                Err(e) => stop_at(state, e),
                Ok(instances) => {
                    let venv = plan.instance.venv();
                    match Uv::resolve_venv(venv.as_str(), recommended_python_version(), instances) {
                        Err(e) => stop_at(state, e),
                        Ok(venv) => finish_in(InstallState::Ready, Some(venv)),
                    }
                },
            },
            _ => stop_at(state, out_of_turn_error()),
        },
        Stage::Finished { state } => (Stage::Finished { state }, Next::Fail(out_of_turn_error())),
        Stage::Failed { state } => stop_at(state, out_of_turn_error()),
    }
}

} // verus!
