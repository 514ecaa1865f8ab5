//! The installation command: what is asked for, where it is installed, which
//! tools it needs, and the run from start to end.

use crate::config::{Config, Profile, ProfileView};
use crate::error::{RuntimeError, RuntimeErrorView};
use crate::external_tools::cmake::CMake;
use crate::external_tools::git::Git;
use crate::external_tools::ninja::Ninja;
use crate::external_tools::uv::Uv;
use crate::external_tools::version::Version;
use crate::external_tools::{not_installed, require, Capability, ExternalTool};
use crate::orchestrator::{
    event_views, first_step, performed, planned, result_of, start, step, unfold, Action, Event,
    Next, NextView, Performer, Plan,
};
use crate::process::unit_result_view;
use crate::text::{append_words, join, joined, string_views, words};
use vstd::prelude::*;

verus! {

/// The interpreter version that an installation provides: the latest 3.13.
pub open spec fn spec_recommended_python_version() -> Version {
    Version { major: 3, minor: Some(13u8), patch: None }
}

/// The interpreter version that an installation provides: the latest 3.13.
#[verifier::when_used_as_spec(spec_recommended_python_version)]
pub fn recommended_python_version() -> (version: Version)
    ensures
        version == spec_recommended_python_version(),
{
    Version { major: 3, minor: Some(13), patch: None }
}

/// The hardware that the build is meant for.
#[derive(Debug, Clone, Copy, PartialEq, Eq, Structural)]
pub enum Architecture {
    Cpu,
    Rocm,
}

/// The arguments of an installation, as the command line gives them.
#[derive(Debug)]
pub struct InstallCommand {
    /// Stop once the sources are in place
    pub pull_only: bool,
    /// Refuse to start where nothing is installed yet
    pub update_only: bool,
    /// Skip Python installation and setup
    pub ignore_python: bool,
    /// Where the sources come from
    pub repo_url: String,
    /// The branch of the sources
    pub branch: String,
    /// Arguments for the build generator, separated by white space
    pub cmake_args: Option<String>,
    /// The hardware that the build is meant for
    pub arch: Architecture,
    /// The number of jobs to build with
    pub parallel: Option<usize>,
}

/// What an installation is asked to do, once the command line and the profile are
/// put together. It does not change while the installation runs.
#[derive(Debug)]
pub struct InstallationRequest {
    pub pull_only: bool,
    pub update_only: bool,
    pub ignore_python: bool,
    pub repo_url: String,
    pub branch: String,
    /// The profile's arguments for the build generator, then the command line's.
    pub extra_generator_args: Vec<String>,
    /// The hardware that was asked for. What is built for it is up to the
    /// generator arguments.
    pub architecture: Architecture,
    pub parallelism: Option<usize>,
}

/// What an [`InstallationRequest`] holds, as plain values.
pub struct InstallationRequestView {
    pub pull_only: bool,
    pub update_only: bool,
    pub ignore_python: bool,
    pub repo_url: Seq<char>,
    pub branch: Seq<char>,
    pub extra_generator_args: Seq<Seq<char>>,
    pub architecture: Architecture,
    pub parallelism: Option<usize>,
}

impl View for InstallationRequest {
    type V = InstallationRequestView;

    open spec fn view(&self) -> InstallationRequestView {
        InstallationRequestView {
            pull_only: self.pull_only,
            update_only: self.update_only,
            ignore_python: self.ignore_python,
            repo_url: self.repo_url@,
            branch: self.branch@,
            extra_generator_args: string_views(self.extra_generator_args@),
            architecture: self.architecture,
            parallelism: self.parallelism,
        }
    }
}

/// The request that a command line and a profile make together.
pub open spec fn resolved_request(
    args: InstallCommand,
    profile: ProfileView,
) -> InstallationRequestView {
    InstallationRequestView {
        pull_only: args.pull_only,
        update_only: args.update_only,
        ignore_python: args.ignore_python,
        repo_url: args.repo_url@,
        branch: args.branch@,
        extra_generator_args: profile.cmake_args + (match args.cmake_args {
            Some(text) => words(text@),
            None => Seq::empty(),
        }),
        architecture: args.arch,
        parallelism: args.parallel,
    }
}

impl InstallationRequest {
    /// Puts the command line and the profile together: see [`resolved_request`].
    pub fn resolve(args: &InstallCommand, profile: &Profile) -> (request: InstallationRequest)
        ensures
            request@ == resolved_request(*args, profile@),
    {
        let mut extra: Vec<String> = Vec::new();
        let mut i: usize = 0;
        while i < profile.cmake_args.len()
            invariant
                i <= profile.cmake_args.len(),
                string_views(extra@) == string_views(profile.cmake_args@.take(i as int)),
            decreases profile.cmake_args.len() - i,
        {
            let ghost before = extra@;
            extra.push(profile.cmake_args[i].clone());
            proof {
                assert(string_views(extra@) =~= string_views(before).push(
                    profile.cmake_args@[i as int]@,
                ));
            }
            i += 1;
        }
        assert(profile.cmake_args@.take(profile.cmake_args.len() as int) =~= profile.cmake_args@);
        match &args.cmake_args {
            Some(text) => append_words(&mut extra, text.as_str()),
            None => {
            },
        }
        InstallationRequest {
            pull_only: args.pull_only,
            update_only: args.update_only,
            ignore_python: args.ignore_python,
            repo_url: args.repo_url.clone(),
            branch: args.branch.clone(),
            extra_generator_args: extra,
            architecture: args.arch,
            parallelism: args.parallel,
        }
    }
}

/// The directory in which one profile's installation lives.
#[derive(Debug)]
pub struct InstanceDirectory {
    pub root: String,
}

/// Where the working copy of the sources lies below the instance directory
/// `root`. That this directory exists is the one sign that sources are there.
pub open spec fn source_dir(root: Seq<char>) -> Seq<char> {
    joined(root, "source"@)
}

/// Where the build files lie below the instance directory `root`.
pub open spec fn build_dir(root: Seq<char>) -> Seq<char> {
    joined(root, "build"@)
}

/// Where the build is staged below the instance directory `root`.
pub open spec fn install_dir(root: Seq<char>) -> Seq<char> {
    joined(root, "install"@)
}

/// Where the Python environment lies below the instance directory `root`.
pub open spec fn venv_dir(root: Seq<char>) -> Seq<char> {
    joined(root, "venv"@)
}

impl InstanceDirectory {
    /// The instance directory of the profile `profile_name`, below the directory
    /// that the configuration keeps the source trees in.
    pub fn for_profile(config: &Config, profile_name: &str) -> (instance: InstanceDirectory)
        ensures
            instance.root@ == joined(config.paths.llama_dir@, profile_name@),
    {
        InstanceDirectory { root: join(config.paths.llama_dir.as_str(), profile_name) }
    }

    pub fn source(&self) -> (path: String)
        ensures
            path@ == source_dir(self.root@),
    {
        join(self.root.as_str(), "source")
    }

    pub fn build(&self) -> (path: String)
        ensures
            path@ == build_dir(self.root@),
    {
        join(self.root.as_str(), "build")
    }

    pub fn install(&self) -> (path: String)
        ensures
            path@ == install_dir(self.root@),
    {
        join(self.root.as_str(), "install")
    }

    pub fn venv(&self) -> (path: String)
        ensures
            path@ == venv_dir(self.root@),
    {
        join(self.root.as_str(), "venv")
    }
}

/// The version-control tool of this machine. Where it is not found, the failure
/// says that git is not installed.
pub fn get_git() -> (r: Result<Git, RuntimeError>)
    ensures
        r matches Err(e) ==> e@ == not_installed(Capability::VersionControl),
{
    require(Git::global())
}

/// The build generator of this machine. Where it is not found, the failure says
/// that CMake is not installed.
pub fn get_cmake() -> (r: Result<CMake, RuntimeError>)
    ensures
        r matches Err(e) ==> e@ == not_installed(Capability::BuildGenerator),
{
    require(CMake::global())
}

/// The build executor of this machine. Where it is not found, the failure says
/// that Ninja is not installed.
pub fn get_ninja() -> (r: Result<Ninja, RuntimeError>)
    ensures
        r matches Err(e) ==> e@ == not_installed(Capability::BuildExecutor),
{
    require(Ninja::global())
}

/// The interpreter manager of this machine. Where it is not found, the failure
/// says that uv is not installed.
pub fn get_uv() -> (r: Result<Uv, RuntimeError>)
    ensures
        r matches Err(e) ==> e@ == not_installed(Capability::InterpreterManager),
{
    require(Uv::global())
}

/// Installs what `args` asks for, for the profile `profile` that the configuration
/// has under `profile_name`. `performer` does what the installation asks for, one
/// action after the other, and reports what happened.
///
/// The installation takes its steps in their order, stops at the first failure,
/// and takes nothing back. What the performer is asked to do is the actions of
/// the installation, each once and in their order, and nothing else; there are at
/// most fourteen.
pub fn run<F: Fn(Action) -> Event>(
    args: InstallCommand,
    config: &Config,
    profile_name: &str,
    profile: &Profile,
    performer: &mut Performer<F>,
) -> (r: Result<(), RuntimeError>)
    requires
        forall|action: Action| call_requires(old(performer).callback(), (action,)),
    ensures
        final(performer).extends(*old(performer)),
        performed(
            planned(args, *config, profile_name@, profile@),
            old(performer).callback(),
            final(performer).actions_since(*old(performer)),
            final(performer).events_since(*old(performer)),
        ),
        unit_result_view(r) == result_of(
            planned(args, *config, profile_name@, profile@),
            final(performer).events_since(*old(performer)),
        ),
{
    let plan = Plan::new(&args, config, profile_name, profile);
    let (first_stage, first_action) = start(&plan);
    let mut stage = first_stage;
    let mut action = first_action;
    let ghost mut actions: Seq<Action> = Seq::empty();
    let ghost mut events: Seq<Event> = Seq::empty();
    loop
        invariant
            forall|action: Action| call_requires(performer.callback(), (action,)),
            performer.callback() == old(performer).callback(),
            performer.actions() == old(performer).actions() + actions,
            performer.events() == old(performer).events() + events,
            plan@ == planned(args, *config, profile_name@, profile@),
            !stage.is_final(),
            events.len() == actions.len(),
            stage == unfold(plan@, first_step(plan@).0, event_views(events)).0,
            unfold(plan@, first_step(plan@).0, event_views(events)).1.len() == events.len(),
            actions.len() == 0 ==> action@ == first_step(plan@).1,
            actions.len() > 0 ==> actions[0]@ == first_step(plan@).1,
            actions.len() > 0 ==> unfold(plan@, first_step(plan@).0, event_views(events)).1.last()
                == NextView::Perform(action@),
            forall|i: int|
                1 <= i < actions.len() ==> unfold(
                    plan@,
                    first_step(plan@).0,
                    event_views(events),
                ).1[i - 1] == NextView::Perform((#[trigger] actions[i])@),
            forall|i: int|
                0 <= i < events.len() ==> call_ensures(
                    performer.callback(),
                    (actions[i],),
                    #[trigger] events[i],
                ),
        decreases 14 - stage.position(),
    {
        let ghost done = action;
        let ghost before = event_views(events);
        let event = performer.perform(action);
        let ghost arrived = event;
        let (next_stage, next) = step(&plan, stage, event);
        proof {
            actions = actions.push(done);
            events = events.push(arrived);
            assert(event_views(events).drop_last() =~= before);
        }
        stage = next_stage;
        match next {
            Next::Perform(following) => {
                action = following;
            },
            Next::Finish { .. } => {
                proof {
                    lemma_history(*old(performer), *performer, actions, events);
                }
                return Ok(());
            },
            Next::Fail(error) => {
                proof {
                    lemma_history(*old(performer), *performer, actions, events);
                }
                return Err(error);
            },
        }
    }
}

/// What was done since `before` is what was added to what `before` had done.
proof fn lemma_history<F: Fn(Action) -> Event>(
    before: Performer<F>,
    after: Performer<F>,
    actions: Seq<Action>,
    events: Seq<Event>,
)
    requires
        after.callback() == before.callback(),
        after.actions() == before.actions() + actions,
        after.events() == before.events() + events,
    ensures
        after.extends(before),
        after.actions_since(before) == actions,
        after.events_since(before) == events,
{
    assert(after.actions().take(before.actions().len() as int) =~= before.actions());
    assert(after.events().take(before.events().len() as int) =~= before.events());
}

} // verus!
