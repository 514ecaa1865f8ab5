//! The interpreter manager: listing, installing and removing interpreters, and
//! making environments.

use crate::error::{failure, FailureClass, RuntimeError, RuntimeErrorView};
use crate::external_tools::version::{format_version, parse_version, Version};
use crate::external_tools::{Capability, ExternalTool};
use crate::process::{
    bare, optional_str_view, optional_view, unit_result_view, Invocation, InvocationView, ProcessOutcome,
    ProcessOutcomeView, Program, ProgramView, Quote,
};
use crate::text::{
    contains, join, joined, lines, split_at_first, split_lines, split_once, str_contains,
    str_views, trim, trimmed,
};
use std::path::PathBuf;
use std::str::FromStr;
use vstd::prelude::*;
use vstd::string::StringExecFns;

verus! {

/// The interpreter manager.
#[derive(Debug, PartialEq, Eq)]
pub struct Uv {
    path: PathBuf,
}

/// An interpreter that the manager knows. It is installed where `path` is present.
#[derive(Debug, PartialEq, Clone)]
pub struct PythonInstance {
    pub id: String,
    pub version: Version,
    pub path: Option<String>,
}

/// What a [`PythonInstance`] holds, as plain values.
pub struct PythonInstanceView {
    pub id: Seq<char>,
    pub version: Version,
    pub path: Option<Seq<char>>,
}

impl View for PythonInstance {
    type V = PythonInstanceView;

    open spec fn view(&self) -> PythonInstanceView {
        PythonInstanceView { id: self.id@, version: self.version, path: optional_view(self.path) }
    }
}

/// An isolated environment and the interpreter that it was made with.
#[derive(Debug, PartialEq)]
pub struct VirtualEnvironment {
    pub path: String,
    pub python_instance: PythonInstance,
}

/// What a [`VirtualEnvironment`] holds, as plain values.
pub struct VirtualEnvironmentView {
    pub path: Seq<char>,
    pub python_instance: PythonInstanceView,
}

impl View for VirtualEnvironment {
    type V = VirtualEnvironmentView;

    open spec fn view(&self) -> VirtualEnvironmentView {
        VirtualEnvironmentView { path: self.path@, python_instance: self.python_instance@ }
    }
}

/// Where the interpreter of one line of the manager's listing is installed: nowhere
/// where the line offers a download; at the path before the arrow where the line
/// names an alias; else at what the line holds, white space at both ends removed.
pub open spec fn installed_path(path_info: Seq<char>) -> Option<Seq<char>> {
    if contains(path_info, "<download available>"@) {
        None
    } else {
        match split_at_first(path_info, " -> "@) {
            Some((first, _)) => Some(trimmed(first)),
            None => Some(trimmed(path_info)),
        }
    }
}

/// The interpreter that one line of the manager's listing describes.
///
/// The line holds an identifier, a space, and where the interpreter is. There is
/// none where the line holds no space, or the identifier holds no version.
pub open spec fn parse_instance(line: Seq<char>) -> Option<PythonInstanceView> {
    match split_at_first(line, " "@) {
        None => None,
        Some((id, path_info)) => match parse_version(id) {
            Err(_) => None,
            Ok(version) => Some(
                PythonInstanceView { id, version, path: installed_path(path_info) },
            ),
        },
    }
}

/// The interpreters that a sequence of lines describes, in the order of the lines;
/// a line that describes none is passed over.
pub open spec fn instances_of(lines: Seq<Seq<char>>) -> Seq<PythonInstanceView>
    decreases lines.len(),
{
    if lines.len() == 0 {
        Seq::empty()
    } else {
        let before = instances_of(lines.drop_last());
        match parse_instance(lines.last()) {
            Some(instance) => before.push(instance),
            None => before,
        }
    }
}

/// The interpreters that the manager's listing describes.
pub open spec fn parse_listing(listing: Seq<char>) -> Seq<PythonInstanceView> {
    instances_of(lines(listing))
}

/// What each of a sequence of interpreters holds.
pub open spec fn instance_views(instances: Seq<PythonInstance>) -> Seq<PythonInstanceView> {
    instances.map_values(|i: PythonInstance| i@)
}

/// Whether an interpreter serves a request for `version`: it is installed, and its
/// version matches under the wildcard rule.
pub open spec fn serves(instance: PythonInstanceView, version: Version) -> bool {
    instance.path is Some && instance.version.spec_matches(version)
}

/// The index of the first interpreter at or after `from` that serves `version`.
pub open spec fn first_serving(
    instances: Seq<PythonInstanceView>,
    version: Version,
    from: int,
) -> Option<int>
    decreases instances.len() - from,
{
    if from < 0 || from >= instances.len() {
        None
    } else if serves(instances[from], version) {
        Some(from)
    } else {
        first_serving(instances, version, from + 1)
    }
}

/// `first_serving` gives an interpreter that serves the version, and none before
/// it in the listing does.
pub proof fn lemma_first_serving(instances: Seq<PythonInstanceView>, version: Version, from: int)
    requires
        0 <= from,
    ensures
        match first_serving(instances, version, from) {
            Some(k) => from <= k < instances.len() && serves(instances[k], version) && forall|
                j: int,
            |
                from <= j < k ==> !serves(#[trigger] instances[j], version),
            None => forall|j: int|
                from <= j < instances.len() ==> !serves(#[trigger] instances[j], version),
        },
    decreases instances.len() - from,
{
    if from < instances.len() && !serves(instances[from], version) {
        lemma_first_serving(instances, version, from + 1);
    }
}

/// What a listing gives: the interpreters that it names, in its order, where the
/// manager reported success; an input/output failure where the manager could not
/// be run, or reported failure, in which case the message quotes the manager's
/// own words.
pub open spec fn listing_result(outcome: ProcessOutcomeView) -> Result<
    Seq<PythonInstanceView>,
    RuntimeErrorView,
> {
    match outcome {
        ProcessOutcomeView::Failed { message } => Err(failure(FailureClass::Io, message)),
        ProcessOutcomeView::Exited { success, status, stdout, stderr } => if success {
            Ok(parse_listing(stdout))
        } else {
            Err(failure(FailureClass::Io, "'uv python list' failed: "@ + stderr))
        },
    }
}

/// The environment at `path` for a request of `version`, given what the manager
/// lists once the environment exists.
///
/// Its interpreter is the first of the listing that is installed and whose
/// version matches `version` under the wildcard rule. Where the listing holds
/// none, the tools contradict each other: an internal failure.
pub open spec fn resolved_venv(
    path: Seq<char>,
    version: Version,
    instances: Seq<PythonInstanceView>,
) -> Result<VirtualEnvironmentView, RuntimeErrorView> {
    match first_serving(instances, version, 0) {
        Some(k) => Ok(VirtualEnvironmentView { path, python_instance: instances[k] }),
        None => Err(
            failure(
                FailureClass::Software,
                "Failed to find Python instance for virtual environment"@,
            ),
        ),
    }
}

/// What a result that holds interpreters or a failure stands for.
pub open spec fn instances_result_view(r: Result<Vec<PythonInstance>, RuntimeError>) -> Result<
    Seq<PythonInstanceView>,
    RuntimeErrorView,
> {
    match r {
        Ok(instances) => Ok(instance_views(instances@)),
        Err(e) => Err(e@),
    }
}

/// What a result that holds an environment or a failure stands for.
pub open spec fn venv_result_view(r: Result<VirtualEnvironment, RuntimeError>) -> Result<
    VirtualEnvironmentView,
    RuntimeErrorView,
> {
    match r {
        Ok(venv) => Ok(venv@),
        Err(e) => Err(e@),
    }
}

fn read_installed_path(path_info: &str) -> (path: Option<String>)
    ensures
        optional_view(path) == installed_path(path_info@),
{
    if str_contains(path_info, "<download available>") {
        None
    } else {
        match split_once(path_info, " -> ") {
            Some((first, _)) => Some(trim(first).to_owned()),
            None => Some(trim(path_info).to_owned()),
        }
    }
}

impl PythonInstance {
    /// Reads one line of the manager's listing: see [`parse_instance`].
    pub fn from_str(s: &str) -> (parsed: Result<PythonInstance, ()>)
        ensures
            match parsed {
                Ok(instance) => parse_instance(s@) == Some(instance@),
                Err(_) => parse_instance(s@) is None,
            },
    {
        match split_once(s, " ") {
            None => Err(()),
            Some((id, path_info)) => {
                match Version::from_str(id) {
                    Err(_) => Err(()),
                    Ok(version) => {
                        let path = read_installed_path(path_info);
                        Ok(PythonInstance { id: id.to_owned(), version, path })
                    },
                }
            },
        }
    }

    /// Whether this interpreter serves a request for `version`.
    pub fn serves(&self, version: &Version) -> (b: bool)
        ensures
            b == serves(self@, *version),
    {
        self.path.is_some() && self.version.matches(version)
    }
}

impl FromStr for PythonInstance {
    type Err = ();

    fn from_str(s: &str) -> (parsed: Result<Self, Self::Err>)
        ensures
            match parsed {
                Ok(instance) => parse_instance(s@) == Some(instance@),
                Err(_) => parse_instance(s@) is None,
            },
    {
        PythonInstance::from_str(s)
    }
}

/// Reads the manager's listing: see [`parse_listing`].
pub fn read_listing(listing: &str) -> (instances: Vec<PythonInstance>)
    ensures
        instance_views(instances@) == parse_listing(listing@),
{
    let all = split_lines(listing);
    let mut instances: Vec<PythonInstance> = Vec::new();
    let mut i: usize = 0;
    while i < all.len()
        invariant
            i <= all.len(),
            str_views(all@) == lines(listing@),
            instance_views(instances@) == instances_of(str_views(all@).take(i as int)),
        decreases all.len() - i,
    {
        proof {
            let upto = str_views(all@).take(i + 1);
            assert(upto.drop_last() =~= str_views(all@).take(i as int));
        }
        match PythonInstance::from_str(all[i]) {
            Ok(instance) => {
                instances.push(instance);
            },
            Err(_) => {},
        }
        i += 1;
    }
    assert(str_views(all@).take(all.len() as int) =~= str_views(all@));
    instances
}

impl ExternalTool for Uv {
    closed spec fn program(&self) -> PathBuf {
        self.path
    }

    open spec fn spec_capability() -> Capability {
        Capability::InterpreterManager
    }

    fn new(path: PathBuf) -> (tool: Self) {
        Uv { path }
    }

    fn capability() -> (capability: Capability) {
        let capability = Capability::InterpreterManager;
        assert(capability == Self::spec_capability());
        capability
    }

    fn path(&self) -> (path: &PathBuf) {
        &self.path
    }
}

impl Uv {
    /// `uv python <action> [<target>]`.
    pub open spec fn spec_python(
        &self,
        action: Seq<char>,
        target: Option<Seq<char>>,
        capture_output: bool,
    ) -> InvocationView {
        let start = bare(ProgramView::At(self.program()), capture_output).arg("python"@).arg(
            action,
        );
        match target {
            Some(target) => start.arg(target),
            None => start,
        }
    }

    fn python(&self, action: &str, target: Option<&str>, capture_output: bool) -> (inv: Invocation)
        ensures
            inv@ == self.spec_python(action@, optional_str_view(target), capture_output),
    {
        let mut command = Invocation::new(Program::At(self.path.clone()), capture_output);
        command.arg("python");
        command.arg(action);
        if let Some(target) = target {
            command.arg(target);
        }
        command
    }

    /// The invocation that lists the interpreters that the manager knows:
    /// `uv python list`, output captured.
    pub fn get_python_instances(&self) -> (inv: Invocation)
        ensures
            inv@ == self.spec_python("list"@, None, true),
    {
        self.python("list", None, true)
    }

    /// The interpreters that a listing names: see [`listing_result`].
    pub fn get_python_instances_result(outcome: &ProcessOutcome) -> (r: Result<
        Vec<PythonInstance>,
        RuntimeError,
    >)
        ensures
            instances_result_view(r) == listing_result(outcome@),
    {
        match outcome {
            ProcessOutcome::Failed { message } => Err(
                RuntimeError::of(FailureClass::Io, message.clone()),
            ),
            ProcessOutcome::Exited { success, status, stdout, stderr } => {
                if *success {
                    Ok(read_listing(stdout.as_str()))
                } else {
                    let mut text = "'uv python list' failed: ".to_owned();
                    text.append(stderr.as_str());
                    Err(RuntimeError::of(FailureClass::Io, text))
                }
            },
        }
    }

    /// The invocation that installs or updates `instance`:
    /// `uv python install <id>`, output captured.
    pub fn install_python_instance(&self, instance: PythonInstance) -> (inv: Invocation)
        ensures
            inv@ == self.spec_python("install"@, Some(instance.id@), true),
    {
        self.python("install", Some(instance.id.as_str()), true)
    }

    /// The invocation that installs or updates the interpreter of `version`; where
    /// components are absent the manager picks the latest that matches:
    /// `uv python install <version>`, output captured.
    pub fn install_python_version(&self, version: Version) -> (inv: Invocation)
        ensures
            inv@ == self.spec_python("install"@, Some(format_version(version)), true),
    {
        let text = version.to_string();
        self.python("install", Some(text.as_str()), true)
    }

    /// The invocation that removes `instance`: `uv python uninstall <id>`, output
    /// captured.
    pub fn uninstall_python_instance(&self, instance: PythonInstance) -> (inv: Invocation)
        ensures
            inv@ == self.spec_python("uninstall"@, Some(instance.id@), true),
    {
        self.python("uninstall", Some(instance.id.as_str()), true)
    }

    /// The invocation that removes the interpreter of `version`:
    /// `uv python uninstall <version>`, output captured.
    pub fn uninstall_python_version(&self, version: Version) -> (inv: Invocation)
        ensures
            inv@ == self.spec_python("uninstall"@, Some(format_version(version)), true),
    {
        let text = version.to_string();
        self.python("uninstall", Some(text.as_str()), true)
    }

    /// What a run of the manager gave: an input/output failure where the manager
    /// could not be run or reported failure. In the latter case the message names
    /// `command`, which is what the manager was asked to do, and quotes what
    /// `quote` says.
    pub open spec fn spec_command_result(
        command: Seq<char>,
        quote: Quote,
        outcome: ProcessOutcomeView,
    ) -> Result<(), RuntimeErrorView> {
        outcome.require_success(
            "'uv "@ + command + "' failed with status: "@,
            quote,
            FailureClass::Io,
        )
    }

    fn command_result(command: &str, quote: Quote, outcome: &ProcessOutcome) -> (r: Result<
        (),
        RuntimeError,
    >)
        ensures
            unit_result_view(r) == Self::spec_command_result(command@, quote, outcome@),
    {
        let mut prefix = "'uv ".to_owned();
        prefix.append(command);
        prefix.append("' failed with status: ");
        outcome.require_success(prefix.as_str(), quote, FailureClass::Io)
    }

    /// What an installation gave: where the manager reported failure, an
    /// input/output failure that carries the exit status and the captured output.
    pub open spec fn spec_install_result(outcome: ProcessOutcomeView) -> Result<
        (),
        RuntimeErrorView,
    > {
        Self::spec_command_result("python install"@, Quote::StatusAndOutput, outcome)
    }

    /// The result of an installation: see [`Uv::spec_install_result`].
    pub fn install_result(outcome: &ProcessOutcome) -> (r: Result<(), RuntimeError>)
        ensures
            unit_result_view(r) == Self::spec_install_result(outcome@),
    {
        Self::command_result("python install", Quote::StatusAndOutput, outcome)
    }

    /// What a removal gave: where the manager reported failure, an input/output
    /// failure that carries the exit status and the captured output.
    pub open spec fn spec_uninstall_result(outcome: ProcessOutcomeView) -> Result<
        (),
        RuntimeErrorView,
    > {
        Self::spec_command_result("python uninstall"@, Quote::StatusAndOutput, outcome)
    }

    /// The result of a removal: see [`Uv::spec_uninstall_result`].
    pub fn uninstall_result(outcome: &ProcessOutcome) -> (r: Result<(), RuntimeError>)
        ensures
            unit_result_view(r) == Self::spec_uninstall_result(outcome@),
    {
        Self::command_result("python uninstall", Quote::StatusAndOutput, outcome)
    }

    /// `uv venv --python <version> <path>`.
    pub open spec fn spec_create_venv(&self, path: Seq<char>, version: Version) -> InvocationView {
        bare(ProgramView::At(self.program()), false).arg("venv"@).arg("--python"@).arg(
            format_version(version),
        ).arg(path)
    }

    /// The invocation that creates an environment at `path` with the interpreter of
    /// `version`.
    pub fn create_venv(&self, path: &str, version: Version) -> (inv: Invocation)
        ensures
            inv@ == self.spec_create_venv(path@, version),
    {
        let text = version.to_string();
        let mut command = Invocation::new(Program::At(self.path.clone()), false);
        command.arg("venv");
        command.arg("--python");
        command.arg(text.as_str());
        command.arg(path);
        command
    }

    /// What creating an environment gave: where the manager reported failure, an
    /// input/output failure that quotes the exit status.
    pub open spec fn spec_create_venv_result(outcome: ProcessOutcomeView) -> Result<
        (),
        RuntimeErrorView,
    > {
        Self::spec_command_result("venv"@, Quote::Status, outcome)
    }

    /// The result of creating an environment: see [`Uv::spec_create_venv_result`].
    pub fn create_venv_result(outcome: &ProcessOutcome) -> (r: Result<(), RuntimeError>)
        ensures
            unit_result_view(r) == Self::spec_create_venv_result(outcome@),
    {
        Self::command_result("venv", Quote::Status, outcome)
    }

    /// The environment at `path`, made for `version`, given the interpreters that
    /// the manager lists once the environment exists: see [`resolved_venv`].
    pub fn resolve_venv(path: &str, version: Version, instances: Vec<PythonInstance>) -> (r: Result<
        VirtualEnvironment,
        RuntimeError,
    >)
        ensures
            venv_result_view(r) == resolved_venv(path@, version, instance_views(instances@)),
    {
        let ghost listed = instances@;
        let ghost all = instance_views(listed);
        let mut rest = instances;
        let mut i: usize = 0;
        while i < rest.len()
            invariant
                i <= rest.len(),
                rest@ == listed,
                listed == instances@,
                all == instance_views(listed),
                first_serving(all, version, 0) == first_serving(all, version, i as int),
            decreases rest.len() - i,
        {
            if rest[i].serves(&version) {
                let python_instance = rest.remove(i);
                return Ok(VirtualEnvironment { path: path.to_owned(), python_instance });
            }
            i += 1;
        }
        Err(
            RuntimeError::of(
                FailureClass::Software,
                "Failed to find Python instance for virtual environment".to_owned(),
            ),
        )
    }
}

/// The interpreter of an environment that was resolved is installed, its version
/// matches the version that was asked for, and it is the first of the listing of
/// which both hold. An environment is resolved whenever the listing holds such an
/// interpreter.
pub proof fn lemma_resolved_interpreter_serves(
    path: Seq<char>,
    version: Version,
    instances: Seq<PythonInstanceView>,
)
    ensures
        match resolved_venv(path, version, instances) {
            Ok(venv) => venv.path == path && venv.python_instance.path is Some
                && venv.python_instance.version.spec_matches(version) && exists|k: int|
                0 <= k < instances.len() && instances[k] == venv.python_instance && forall|j: int|
                    0 <= j < k ==> !serves(#[trigger] instances[j], version),
            Err(_) => forall|j: int|
                0 <= j < instances.len() ==> !serves(#[trigger] instances[j], version),
        },
{
    lemma_first_serving(instances, version, 0);
}

impl VirtualEnvironmentView {
    /// The script that activates the environment: `bin/activate` below its path.
    pub open spec fn activate_script(self) -> Seq<char> {
        joined(joined(self.path, "bin"@), "activate"@)
    }

    /// `bash -c "source <activate script> && exec bash"`, with the caller's input
    /// and output.
    pub open spec fn create_shell(self) -> InvocationView {
        bare(ProgramView::Named("bash"@), false).arg("-c"@).arg(
            "source "@ + self.activate_script() + " && exec bash"@,
        )
    }

    /// The interpreter of the environment: `bin/python` below its path.
    pub open spec fn python(self) -> Seq<char> {
        joined(joined(self.path, "bin"@), "python"@)
    }

    /// `<python of the environment> <script_path>`.
    pub open spec fn run_python_script(self, script_path: Seq<char>) -> InvocationView {
        bare(ProgramView::Named(self.python()), false).arg(script_path)
    }

    /// `uv pip install --python <python of the environment> <packages>`.
    pub open spec fn install_packages(self, packages: Seq<Seq<char>>) -> InvocationView {
        bare(ProgramView::Named("uv"@), false).arg("pip"@).arg("install"@).arg("--python"@).arg(
            self.python(),
        ).args(packages)
    }
}

impl VirtualEnvironment {
    fn python(&self) -> (path: String)
        ensures
            path@ == self@.python(),
    {
        let bin = join(self.path.as_str(), "bin");
        join(bin.as_str(), "python")
    }

    /// The invocation that runs the script at `script_path` with the interpreter
    /// of the environment.
    pub fn run_python_script(&self, script_path: &str) -> (inv: Invocation)
        ensures
            inv@ == self@.run_python_script(script_path@),
    {
        let mut command = Invocation::new(Program::Named(self.python()), false);
        command.arg(script_path);
        command
    }

    /// The invocation that installs `packages` into the environment, through the
    /// interpreter manager that the search path has.
    pub fn install_packages(&self, packages: &[String]) -> (inv: Invocation)
        ensures
            inv@ == self@.install_packages(crate::text::string_views(packages@)),
    {
        let python = self.python();
        let mut command = Invocation::new(Program::Named("uv".to_owned()), false);
        command.arg("pip");
        command.arg("install");
        command.arg("--python");
        command.arg(python.as_str());
        command.args(packages);
        command
    }

    /// What a run inside the environment gave: an input/output failure where the
    /// process could not be run, or reported failure, in which case the message
    /// names `what` was run and quotes the exit status.
    pub open spec fn spec_run_result(what: Seq<char>, outcome: ProcessOutcomeView) -> Result<
        (),
        RuntimeErrorView,
    > {
        outcome.require_success(what + " failed with status: "@, Quote::Status, FailureClass::Io)
    }

    /// The result of a run inside the environment: see
    /// [`VirtualEnvironment::spec_run_result`].
    pub fn run_result(what: &str, outcome: &ProcessOutcome) -> (r: Result<(), RuntimeError>)
        ensures
            unit_result_view(r) == Self::spec_run_result(what@, outcome@),
    {
        let mut prefix = what.to_owned();
        prefix.append(" failed with status: ");
        outcome.require_success(prefix.as_str(), Quote::Status, FailureClass::Io)
    }

    /// The invocation of an interactive shell in which the environment is active.
    ///
    /// The caller starts it, owns the one process that results, and ends that
    /// process on every path that leaves its scope.
    pub fn create_shell(&self) -> (inv: Invocation)
        ensures
            inv@ == self@.create_shell(),
    {
        let bin = join(self.path.as_str(), "bin");
        let activate = join(bin.as_str(), "activate");
        let mut script = "source ".to_owned();
        script.append(activate.as_str());
        script.append(" && exec bash");
        let mut command = Invocation::new(Program::Named("bash".to_owned()), false);
        command.arg("-c");
        command.arg(script.as_str());
        command
    }
}

} // verus!
