//! The build generator: configuring, compiling and staging.

use crate::error::{FailureClass, RuntimeError, RuntimeErrorView};
use crate::external_tools::{Capability, ExternalTool};
use crate::process::{
    bare, optional_str_view, unit_result_view, Invocation, InvocationView, ProcessOutcome,
    ProcessOutcomeView, Program, ProgramView, Quote,
};
use crate::text::string_views;
use std::path::PathBuf;
use vstd::prelude::*;
use vstd::string::StringExecFns;

verus! {

/// The build generator.
#[derive(Debug, PartialEq, Eq)]
pub struct CMake {
    path: PathBuf,
}

impl ExternalTool for CMake {
    closed spec fn program(&self) -> PathBuf {
        self.path
    }

    open spec fn spec_capability() -> Capability {
        Capability::BuildGenerator
    }

    fn new(path: PathBuf) -> (tool: Self) {
        CMake { path }
    }

    fn capability() -> (capability: Capability) {
        let capability = Capability::BuildGenerator;
        assert(capability == Self::spec_capability());
        capability
    }

    fn path(&self) -> (path: &PathBuf) {
        &self.path
    }
}

/// The arguments that a caller adds, or none.
pub open spec fn additional(args: Option<&[String]>) -> Seq<Seq<char>> {
    match args {
        Some(args) => string_views(args@),
        None => Seq::empty(),
    }
}

impl CMake {
    /// `cmake -S <source_dir> -B <build_dir> -G <generator>
    /// [-DCMAKE_INSTALL_PREFIX=<install_dir>] <additional_args>`.
    pub open spec fn spec_generate(
        &self,
        source_dir: Seq<char>,
        build_dir: Seq<char>,
        generator: Seq<char>,
        install_dir: Option<Seq<char>>,
        additional_args: Seq<Seq<char>>,
    ) -> InvocationView {
        let fixed = bare(ProgramView::At(self.program()), false).arg("-S"@).arg(source_dir).arg(
            "-B"@,
        ).arg(build_dir).arg("-G"@).arg(generator);
        let prefixed = match install_dir {
            Some(dir) => fixed.arg("-DCMAKE_INSTALL_PREFIX="@ + dir),
            None => fixed,
        };
        prefixed.args(additional_args)
    }

    /// The invocation that configures `build_dir` for the sources in `source_dir`.
    ///
    /// The additional arguments stand behind all others, so that they can override
    /// them.
    pub fn generate(
        &self,
        source_dir: &str,
        build_dir: &str,
        generator: &str,
        install_dir: Option<&str>,
        additional_args: Option<&[String]>,
    ) -> (inv: Invocation)
        ensures
            inv@ == self.spec_generate(
                source_dir@,
                build_dir@,
                generator@,
                optional_str_view(install_dir),
                additional(additional_args),
            ),
    {
        let mut command = Invocation::new(Program::At(self.path.clone()), false);
        command.arg("-S");
        command.arg(source_dir);
        command.arg("-B");
        command.arg(build_dir);
        command.arg("-G");
        command.arg(generator);
        if let Some(dir) = install_dir {
            let mut prefix = String::from_str("-DCMAKE_INSTALL_PREFIX=");
            prefix.append(dir);
            command.arg(prefix.as_str());
        }
        Self::add(&mut command, additional_args);
        command
    }

    fn add(command: &mut Invocation, additional_args: Option<&[String]>)
        ensures
            final(command)@ == old(command)@.args(additional(additional_args)),
    {
        match additional_args {
            Some(args) => command.args(args),
            None => {
            },
        }
    }

    /// `cmake <mode> <build_dir> --config <config> <additional_args>`.
    pub open spec fn spec_drive(
        &self,
        mode: Seq<char>,
        build_dir: Seq<char>,
        config: Seq<char>,
        additional_args: Seq<Seq<char>>,
    ) -> InvocationView {
        bare(ProgramView::At(self.program()), false).arg(mode).arg(build_dir).arg("--config"@).arg(
            config,
        ).args(additional_args)
    }

    fn drive(
        &self,
        mode: &str,
        build_dir: &str,
        config: &str,
        additional_args: Option<&[String]>,
    ) -> (inv: Invocation)
        ensures
            inv@ == self.spec_drive(mode@, build_dir@, config@, additional(additional_args)),
    {
        let mut command = Invocation::new(Program::At(self.path.clone()), false);
        command.arg(mode);
        command.arg(build_dir);
        command.arg("--config");
        command.arg(config);
        Self::add(&mut command, additional_args);
        command
    }

    /// The invocation that compiles what was configured in `build_dir`:
    /// `cmake --build <build_dir> --config <config> <additional_args>`.
    pub fn build(
        &self,
        build_dir: &str,
        config: &str,
        additional_args: Option<&[String]>,
    ) -> (inv: Invocation)
        ensures
            inv@ == self.spec_drive(
                "--build"@,
                build_dir@,
                config@,
                additional(additional_args),
            ),
    {
        self.drive("--build", build_dir, config, additional_args)
    }

    /// The invocation that stages what was built in `build_dir` to the prefix that
    /// the configuration named:
    /// `cmake --install <build_dir> --config <config> <additional_args>`.
    pub fn install(
        &self,
        build_dir: &str,
        config: &str,
        additional_args: Option<&[String]>,
    ) -> (inv: Invocation)
        ensures
            inv@ == self.spec_drive(
                "--install"@,
                build_dir@,
                config@,
                additional(additional_args),
            ),
    {
        self.drive("--install", build_dir, config, additional_args)
    }

    /// The additional arguments are handed on as they are and stand behind all
    /// others, in each of the three phases.
    pub proof fn lemma_additional_args_come_last(
        &self,
        source_dir: Seq<char>,
        build_dir: Seq<char>,
        generator: Seq<char>,
        install_dir: Option<Seq<char>>,
        mode: Seq<char>,
        config: Seq<char>,
        additional_args: Seq<Seq<char>>,
    )
        ensures
            self.spec_generate(source_dir, build_dir, generator, install_dir, additional_args).args
                == self.spec_generate(
                source_dir,
                build_dir,
                generator,
                install_dir,
                Seq::empty(),
            ).args + additional_args,
            self.spec_drive(mode, build_dir, config, additional_args).args == self.spec_drive(
                mode,
                build_dir,
                config,
                Seq::empty(),
            ).args + additional_args,
    {
    }

    /// What a run of cmake in the phase called `phase` gave: a data failure that
    /// quotes the exit status where cmake reported failure, as it does where the
    /// phase before was not run.
    pub open spec fn spec_phase_result(phase: Seq<char>, outcome: ProcessOutcomeView) -> Result<
        (),
        RuntimeErrorView,
    > {
        outcome.require_success(
            "cmake "@ + phase + " failed with status: "@,
            Quote::Status,
            FailureClass::Data,
        )
    }

    fn phase_result(phase: &str, outcome: &ProcessOutcome) -> (r: Result<(), RuntimeError>)
        ensures
            unit_result_view(r) == Self::spec_phase_result(phase@, outcome@),
    {
        let mut prefix = "cmake ".to_owned();
        prefix.append(phase);
        prefix.append(" failed with status: ");
        outcome.require_success(prefix.as_str(), Quote::Status, FailureClass::Data)
    }

    /// The result of a configuration: see [`CMake::spec_phase_result`].
    pub fn generate_result(outcome: &ProcessOutcome) -> (r: Result<(), RuntimeError>)
        ensures
            unit_result_view(r) == Self::spec_phase_result("generate"@, outcome@),
    {
        Self::phase_result("generate", outcome)
    }

    /// The result of a compilation: see [`CMake::spec_phase_result`].
    pub fn build_result(outcome: &ProcessOutcome) -> (r: Result<(), RuntimeError>)
        ensures
            unit_result_view(r) == Self::spec_phase_result("build"@, outcome@),
    {
        Self::phase_result("build", outcome)
    }

    /// The result of a staging: see [`CMake::spec_phase_result`].
    pub fn install_result(outcome: &ProcessOutcome) -> (r: Result<(), RuntimeError>)
        ensures
            unit_result_view(r) == Self::spec_phase_result("install"@, outcome@),
    {
        Self::phase_result("install", outcome)
    }
}

} // verus!
