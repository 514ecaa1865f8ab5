use llama_mgr::commands::install::{get_cmake, get_git, get_ninja, get_uv};
use llama_mgr::error::RuntimeError;
use llama_mgr::external_tools::cmake::CMake;
use llama_mgr::external_tools::git::Git;
use llama_mgr::external_tools::ninja::Ninja;
use llama_mgr::external_tools::uv::Uv;
use llama_mgr::external_tools::{require, Capability, ExternalTool};
use llama_mgr::process::{Invocation, ProcessOutcome, Program, Quote};
use llama_mgr::error::FailureClass;
use std::path::PathBuf;

fn exited(success: bool, status: &str, stdout: &str, stderr: &str) -> ProcessOutcome {
    ProcessOutcome::Exited {
        success,
        status: status.to_string(),
        stdout: stdout.to_string(),
        stderr: stderr.to_string(),
    }
}

fn not_started(message: &str) -> ProcessOutcome {
    ProcessOutcome::Failed { message: message.to_string() }
}

fn strings(items: &[&str]) -> Vec<String> {
    items.iter().map(|s| s.to_string()).collect()
}

fn no_prompt_env() -> Vec<(String, String)> {
    vec![
        ("GIT_TERMINAL_PROMPT".to_string(), "0".to_string()),
        ("GIT_CREDENTIAL_HELPER".to_string(), "".to_string()),
        ("GIT_TERMINAL_AUTHONLY".to_string(), "0".to_string()),
    ]
}

#[test]
fn test_cmake_new() {
    let path = PathBuf::from("/usr/bin/cmake"); // Doesn't need to exist for this test
    let cmake = CMake::new(path.clone());
    assert_eq!(*cmake.path(), path);
}

#[test]
fn tools_keep_the_path_they_are_made_with() {
    let path = PathBuf::from("/opt/tools/bin/tool");
    assert_eq!(*Git::new(path.clone()).path(), path);
    assert_eq!(*Ninja::new(path.clone()).path(), path);
    assert_eq!(*Uv::new(path.clone()).path(), path);
}

#[test]
fn capabilities_name_their_programs() {
    assert_eq!(Capability::VersionControl.program_name(), "git");
    assert_eq!(Capability::BuildGenerator.program_name(), "cmake");
    assert_eq!(Capability::BuildExecutor.program_name(), "ninja");
    assert_eq!(Capability::InterpreterManager.program_name(), "uv");
    assert_eq!(Git::capability(), Capability::VersionControl);
    assert_eq!(CMake::capability(), Capability::BuildGenerator);
    assert_eq!(Ninja::capability(), Capability::BuildExecutor);
    assert_eq!(Uv::capability(), Capability::InterpreterManager);
}

#[test]
fn located_keeps_what_the_search_gave() {
    let found = Git::located(Ok(PathBuf::from("/usr/bin/git")));
    assert_eq!(found, Ok(Git::new(PathBuf::from("/usr/bin/git"))));
    let missing = Git::located(Err(which::Error::CannotFindBinaryPath));
    assert_eq!(missing, Err(which::Error::CannotFindBinaryPath));
    let missing = Uv::located(Err(which::Error::CannotCanonicalize));
    assert_eq!(missing, Err(which::Error::CannotCanonicalize));
}

#[test]
fn global_finds_what_the_search_path_has() {
    match (Git::global(), which::which("git")) {
        (Ok(tool), Ok(path)) => assert_eq!(*tool.path(), path),
        (Err(e), Err(f)) => assert_eq!(e, f),
        (a, b) => panic!("{:?} but {:?}", a, b),
    }
    match (CMake::global(), which::which("cmake")) {
        (Ok(tool), Ok(path)) => assert_eq!(*tool.path(), path),
        (Err(e), Err(f)) => assert_eq!(e, f),
        (a, b) => panic!("{:?} but {:?}", a, b),
    }
    match (Ninja::global(), which::which("ninja")) {
        (Ok(tool), Ok(path)) => assert_eq!(*tool.path(), path),
        (Err(e), Err(f)) => assert_eq!(e, f),
        (a, b) => panic!("{:?} but {:?}", a, b),
    }
    match (Uv::global(), which::which("uv")) {
        (Ok(tool), Ok(path)) => assert_eq!(*tool.path(), path),
        (Err(e), Err(f)) => assert_eq!(e, f),
        (a, b) => panic!("{:?} but {:?}", a, b),
    }
}

#[test]
fn a_tool_that_is_not_found_is_reported_as_not_installed() {
    let git = require::<Git>(Err(which::Error::CannotFindBinaryPath));
    assert_eq!(
        git,
        Err(RuntimeError::new(
            "Git is not installed. Please install it using your system's package manager."
                .to_string(),
            exitcode::UNAVAILABLE as u8
        ))
    );
    let cmake = require::<CMake>(Err(which::Error::CannotGetCurrentDirAndPathListEmpty));
    assert_eq!(
        cmake,
        Err(RuntimeError::new(
            "CMake is not installed. Please install it using your system's package manager."
                .to_string(),
            69
        ))
    );
    let ninja = require::<Ninja>(Err(which::Error::CannotCanonicalize));
    assert_eq!(
        ninja,
        Err(RuntimeError::new(
            "Ninja is not installed. Please install it using your system's package manager."
                .to_string(),
            69
        ))
    );
    let uv = require::<Uv>(Err(which::Error::CannotFindBinaryPath));
    assert_eq!(
        uv,
        Err(RuntimeError::new(
            "uv is not installed. Please install it using `pip install uv`.".to_string(),
            69
        ))
    );
}

#[test]
fn a_tool_that_is_found_is_handed_on() {
    let uv = require(Ok(Uv::new(PathBuf::from("/home/u/.local/bin/uv"))));
    assert_eq!(uv, Ok(Uv::new(PathBuf::from("/home/u/.local/bin/uv"))));
}

#[test]
fn getters_give_the_tool_or_say_that_it_is_not_installed() {
    match (get_git(), which::which("git")) {
        (Ok(tool), Ok(path)) => assert_eq!(*tool.path(), path),
        (Err(e), Err(_)) => {
            assert_eq!(e.exit_code, 69);
            assert!(e.message.starts_with("Git is not installed."));
        }
        (a, b) => panic!("{:?} but {:?}", a, b),
    }
    match (get_cmake(), which::which("cmake")) {
        (Ok(tool), Ok(path)) => assert_eq!(*tool.path(), path),
        (Err(e), Err(_)) => {
            assert_eq!(e.exit_code, 69);
            assert!(e.message.starts_with("CMake is not installed."));
        }
        (a, b) => panic!("{:?} but {:?}", a, b),
    }
    match (get_ninja(), which::which("ninja")) {
        (Ok(tool), Ok(path)) => assert_eq!(*tool.path(), path),
        (Err(e), Err(_)) => {
            assert_eq!(e.exit_code, 69);
            assert!(e.message.starts_with("Ninja is not installed."));
        }
        (a, b) => panic!("{:?} but {:?}", a, b),
    }
    match (get_uv(), which::which("uv")) {
        (Ok(tool), Ok(path)) => assert_eq!(*tool.path(), path),
        (Err(e), Err(_)) => {
            assert_eq!(e.exit_code, 69);
            assert!(e.message.starts_with("uv is not installed."));
        }
        (a, b) => panic!("{:?} but {:?}", a, b),
    }
}

#[test]
fn probe_runs_the_executable_alone() {
    let ninja = Ninja::new(PathBuf::from("/usr/bin/ninja"));
    let probe = ninja.probe();
    assert_eq!(probe.program, Program::At(PathBuf::from("/usr/bin/ninja")));
    assert!(probe.args.is_empty());
    assert!(probe.env.is_empty());
    assert_eq!(probe.current_dir, None);
    assert!(probe.capture_output);
}

#[test]
fn a_tool_is_available_when_it_could_be_run() {
    let git = Git::new(PathBuf::from("/usr/bin/git"));
    assert!(git.is_available(&exited(true, "exit status: 0", "", "")));
    assert!(git.is_available(&exited(false, "exit status: 1", "", "usage: git")));
    assert!(!git.is_available(&not_started("No such file or directory (os error 2)")));
}

#[test]
fn invocation_collects_what_it_is_given() {
    let mut inv = Invocation::new(Program::Named("bash".to_string()), false);
    inv.arg("-c");
    inv.args(&strings(&["a", "b"]));
    inv.args(&[]);
    inv.env("K", "V");
    inv.current_dir("/tmp");
    assert_eq!(
        inv,
        Invocation {
            program: Program::Named("bash".to_string()),
            args: strings(&["-c", "a", "b"]),
            env: vec![("K".to_string(), "V".to_string())],
            current_dir: Some("/tmp".to_string()),
            capture_output: false,
        }
    );
}

#[test]
fn require_success_tells_the_three_ways_an_invocation_ends() {
    let ok = exited(true, "exit status: 0", "out", "warn");
    assert!(ok.succeeded());
    assert_eq!(ok.require_success("x failed: ", Quote::Stderr, FailureClass::Data), Ok(()));
    let bad = exited(false, "exit status: 2", "out", "broken");
    assert!(!bad.succeeded());
    assert_eq!(
        bad.require_success("x failed: ", Quote::Stderr, FailureClass::Data),
        Err(RuntimeError::new("x failed: broken".to_string(), 65))
    );
    assert_eq!(
        bad.require_success("x failed with status: ", Quote::Status, FailureClass::Io),
        Err(RuntimeError::new("x failed with status: exit status: 2".to_string(), 74))
    );
    let none = not_started("Permission denied (os error 13)");
    assert!(!none.succeeded());
    assert_eq!(
        none.require_success("x failed: ", Quote::Stderr, FailureClass::Data),
        Err(RuntimeError::new("Permission denied (os error 13)".to_string(), 74))
    );
}

#[test]
fn git_clone_without_branch() {
    let git = Git::new(PathBuf::from("/usr/bin/git"));
    let inv = git.clone("/tmp/repo", "https://github.com/SteelPh0enix/dummy_repo.git", None);
    assert_eq!(
        inv,
        Invocation {
            program: Program::At(PathBuf::from("/usr/bin/git")),
            args: strings(&["clone", "https://github.com/SteelPh0enix/dummy_repo.git", "/tmp/repo"]),
            env: no_prompt_env(),
            current_dir: None,
            capture_output: true,
        }
    );
}

#[test]
fn git_clone_with_branch() {
    let git = Git::new(PathBuf::from("/usr/bin/git"));
    let inv = git.clone(
        "/tmp/repo",
        "https://github.com/SteelPh0enix/dummy_repo.git",
        Some("master"),
    );
    assert_eq!(
        inv.args,
        strings(&[
            "clone",
            "-b",
            "master",
            "https://github.com/SteelPh0enix/dummy_repo.git",
            "/tmp/repo"
        ])
    );
    assert_eq!(inv.env, no_prompt_env());
    assert_eq!(inv.current_dir, None);
}

#[test]
fn git_pull_runs_in_the_working_copy() {
    let git = Git::new(PathBuf::from("/usr/bin/git"));
    let inv = git.pull("/tmp/repo");
    assert_eq!(
        inv,
        Invocation {
            program: Program::At(PathBuf::from("/usr/bin/git")),
            args: strings(&["pull"]),
            env: no_prompt_env(),
            current_dir: Some("/tmp/repo".to_string()),
            capture_output: true,
        }
    );
}

#[test]
fn git_update_submodules_is_recursive_and_follows_remotes() {
    let git = Git::new(PathBuf::from("/usr/bin/git"));
    let inv = git.update_submodules("/tmp/repo");
    assert_eq!(
        inv,
        Invocation {
            program: Program::At(PathBuf::from("/usr/bin/git")),
            args: strings(&["submodule", "update", "--init", "--recursive", "--remote"]),
            env: no_prompt_env(),
            current_dir: Some("/tmp/repo".to_string()),
            capture_output: true,
        }
    );
}

#[test]
fn git_clone_failure_quotes_git() {
    let result = Git::clone_result(&exited(
        false,
        "exit status: 128",
        "",
        "fatal: repository 'https://github.com/SteelPh0enix/nonexistent_repo.git/' not found\n",
    ));
    assert!(result.is_err(), "Should fail to clone non-existent repository");
    if let Err(RuntimeError { message, exit_code }) = result {
        assert!(
            message.contains("git clone failed"),
            "Error message should indicate git clone failure"
        );
        assert_eq!(
            message,
            "git clone failed: fatal: repository 'https://github.com/SteelPh0enix/nonexistent_repo.git/' not found\n"
        );
        assert_eq!(exit_code as i32, exitcode::DATAERR);
    }
    assert_eq!(Git::clone_result(&exited(true, "exit status: 0", "", "Cloning into...")), Ok(()));
    assert_eq!(
        Git::clone_result(&not_started("No such file or directory (os error 2)")),
        Err(RuntimeError::new(
            "No such file or directory (os error 2)".to_string(),
            exitcode::IOERR as u8
        ))
    );
}

#[test]
fn git_pull_failure_quotes_git() {
    let result = Git::pull_result(&exited(
        false,
        "exit status: 128",
        "",
        "fatal: not a git repository (or any of the parent directories): .git\n",
    ));
    assert!(result.is_err(), "Should fail to pull from non-git directory");
    if let Err(RuntimeError { message, exit_code }) = result {
        assert!(
            message.contains("git pull failed"),
            "Error message should indicate git pull failure"
        );
        assert_eq!(
            message,
            "git pull failed: fatal: not a git repository (or any of the parent directories): .git\n"
        );
        assert_eq!(exit_code, 65);
    }
    assert_eq!(Git::pull_result(&exited(true, "exit status: 0", "Already up to date.", "")), Ok(()));
}

#[test]
fn git_submodule_failure_quotes_git() {
    assert_eq!(
        Git::update_submodules_result(&exited(false, "exit status: 1", "", "fatal: boom")),
        Err(RuntimeError::new("git submodule update failed: fatal: boom".to_string(), 65))
    );
    assert_eq!(Git::update_submodules_result(&exited(true, "exit status: 0", "", "")), Ok(()));
    assert_eq!(
        Git::update_submodules_result(&not_started("gone")),
        Err(RuntimeError::new("gone".to_string(), 74))
    );
}

#[test]
fn cmake_generate_puts_additional_arguments_last() {
    let cmake = CMake::new(PathBuf::from("/usr/bin/cmake"));
    let extra = strings(&["-DCMAKE_TEST_VAR=HelloFromTest", "-DCMAKE_INSTALL_PREFIX=/override"]);
    let inv = cmake.generate("/w/src", "/w/build", "Ninja", Some("/w/install"), Some(&extra));
    assert_eq!(
        inv,
        Invocation {
            program: Program::At(PathBuf::from("/usr/bin/cmake")),
            args: strings(&[
                "-S",
                "/w/src",
                "-B",
                "/w/build",
                "-G",
                "Ninja",
                "-DCMAKE_INSTALL_PREFIX=/w/install",
                "-DCMAKE_TEST_VAR=HelloFromTest",
                "-DCMAKE_INSTALL_PREFIX=/override",
            ]),
            env: vec![],
            current_dir: None,
            capture_output: false,
        }
    );
}

#[test]
fn cmake_generate_without_prefix_and_additional_arguments() {
    let cmake = CMake::new(PathBuf::from("/usr/bin/cmake"));
    let inv = cmake.generate("/w/src", "/w/build", "Ninja", None, None);
    assert_eq!(inv.args, strings(&["-S", "/w/src", "-B", "/w/build", "-G", "Ninja"]));
    let inv = cmake.generate("src", "build", "Unix Makefiles", None, Some(&[]));
    assert_eq!(inv.args, strings(&["-S", "src", "-B", "build", "-G", "Unix Makefiles"]));
}

#[test]
fn cmake_build_and_install_name_directory_and_configuration() {
    let cmake = CMake::new(PathBuf::from("/usr/bin/cmake"));
    let inv = cmake.build("/w/build", "Debug", Some(&strings(&["--", "-j2"])));
    assert_eq!(inv.args, strings(&["--build", "/w/build", "--config", "Debug", "--", "-j2"]));
    assert_eq!(inv.program, Program::At(PathBuf::from("/usr/bin/cmake")));
    assert!(!inv.capture_output);
    let inv = cmake.build("/w/build", "Debug", None);
    assert_eq!(inv.args, strings(&["--build", "/w/build", "--config", "Debug"]));
    let inv = cmake.install("/w/build", "Debug", None);
    assert_eq!(inv.args, strings(&["--install", "/w/build", "--config", "Debug"]));
    let inv = cmake.install("/w/build", "Release", Some(&strings(&["--strip"])));
    assert_eq!(inv.args, strings(&["--install", "/w/build", "--config", "Release", "--strip"]));
}

#[test]
fn cmake_failures_are_data_failures_that_quote_the_status() {
    let bad = exited(false, "exit status: 1", "", "");
    assert_eq!(
        CMake::generate_result(&bad),
        Err(RuntimeError::new(
            "cmake generate failed with status: exit status: 1".to_string(),
            exitcode::DATAERR as u8
        ))
    );
    assert_eq!(
        CMake::build_result(&bad),
        Err(RuntimeError::new("cmake build failed with status: exit status: 1".to_string(), 65))
    );
    assert_eq!(
        CMake::install_result(&bad),
        Err(RuntimeError::new("cmake install failed with status: exit status: 1".to_string(), 65))
    );
    let ok = exited(true, "exit status: 0", "", "");
    assert_eq!(CMake::generate_result(&ok), Ok(()));
    assert_eq!(CMake::build_result(&ok), Ok(()));
    assert_eq!(CMake::install_result(&ok), Ok(()));
    assert_eq!(
        CMake::build_result(&not_started("No such file or directory (os error 2)")),
        Err(RuntimeError::new("No such file or directory (os error 2)".to_string(), 74))
    );
}

const DUMMY_REPO: &str = "https://github.com/SteelPh0enix/dummy_repo.git";

#[test]
fn test_clone_repository() {
    let git = Git::new(PathBuf::from("/usr/bin/git"));
    let repo_path = "/tmp/dummy_repo";

    // Clone the dummy repository
    let invocation = git.clone(repo_path, "https://github.com/SteelPh0enix/dummy_repo.git", None);
    assert_eq!(
        invocation,
        Invocation {
            program: Program::At(PathBuf::from("/usr/bin/git")),
            args: strings(&["clone", "https://github.com/SteelPh0enix/dummy_repo.git", repo_path]),
            env: no_prompt_env(),
            current_dir: None,
            capture_output: true,
        }
    );

    let result = Git::clone_result(&exited(
        true,
        "exit status: 0",
        "",
        "Cloning into '/tmp/dummy_repo'...\n",
    ));
    assert!(result.is_ok(), "Failed to clone repository: {:?}", result);
}

#[test]
fn test_clone_repository_with_branch() {
    let git = Git::new(PathBuf::from("/usr/bin/git"));
    let repo_path = "/tmp/dummy_repo";

    // Clone with a specific branch (master should exist)
    let invocation = git.clone(
        repo_path,
        "https://github.com/SteelPh0enix/dummy_repo.git",
        Some("master"),
    );
    assert_eq!(
        invocation.args,
        strings(&[
            "clone",
            "-b",
            "master",
            "https://github.com/SteelPh0enix/dummy_repo.git",
            repo_path
        ])
    );
    assert_eq!(invocation.env, no_prompt_env());

    let result = Git::clone_result(&exited(true, "exit status: 0", "", ""));
    assert!(
        result.is_ok(),
        "Failed to clone repository with branch: {:?}",
        result
    );
}

#[test]
fn test_pull_repository() {
    let git = Git::new(PathBuf::from("/usr/bin/git"));
    let repo_path = "/tmp/dummy_repo";

    // First clone the repository
    let clone_result = Git::clone_result(&exited(true, "exit status: 0", "", ""));
    assert!(
        clone_result.is_ok(),
        "Failed to clone repository for pull test"
    );
    assert_eq!(git.clone(repo_path, DUMMY_REPO, None).args[1], DUMMY_REPO);

    // Test pull
    let invocation = git.pull(repo_path);
    assert_eq!(invocation.args, strings(&["pull"]));
    assert_eq!(invocation.current_dir, Some(repo_path.to_string()));
    assert_eq!(invocation.env, no_prompt_env());
    let pull_result = Git::pull_result(&exited(true, "exit status: 0", "Already up to date.\n", ""));
    assert!(
        pull_result.is_ok(),
        "Failed to pull repository: {:?}",
        pull_result
    );
}

#[test]
fn test_update_submodules() {
    let git = Git::new(PathBuf::from("/usr/bin/git"));
    let repo_path = "/tmp/dummy_repo";

    // First clone the repository
    let clone_result = Git::clone_result(&exited(true, "exit status: 0", "", ""));
    assert!(
        clone_result.is_ok(),
        "Failed to clone repository for submodule test"
    );

    // Test submodule update
    let invocation = git.update_submodules(repo_path);
    assert_eq!(
        invocation.args,
        strings(&["submodule", "update", "--init", "--recursive", "--remote"])
    );
    assert_eq!(invocation.current_dir, Some(repo_path.to_string()));
    let submodule_result = Git::update_submodules_result(&exited(
        true,
        "exit status: 0",
        "Submodule path 'submodule/llama-mgr': checked out\n",
        "",
    ));
    assert!(
        submodule_result.is_ok(),
        "Failed to update submodules: {:?}",
        submodule_result
    );
}

#[test]
fn test_clone_nonexistent_repository() {
    let git = Git::new(PathBuf::from("/usr/bin/git"));
    let repo_path = "/tmp/nonexistent_repo";

    // Try to clone a non-existent repository
    let invocation = git.clone(
        repo_path,
        "https://github.com/SteelPh0enix/nonexistent_repo.git",
        None,
    );
    assert_eq!(
        invocation.args,
        strings(&["clone", "https://github.com/SteelPh0enix/nonexistent_repo.git", repo_path])
    );
    let result = Git::clone_result(&exited(
        false,
        "exit status: 128",
        "",
        "remote: Repository not found.\nfatal: repository 'https://github.com/SteelPh0enix/nonexistent_repo.git/' not found\n",
    ));

    // This should fail
    assert!(
        result.is_err(),
        "Should fail to clone non-existent repository"
    );
    if let Err(RuntimeError { message, .. }) = result {
        assert!(
            message.contains("git clone failed"),
            "Error message should indicate git clone failure"
        );
    }
}

#[test]
fn test_generate_with_additional_args() {
    let cmake = CMake::new(PathBuf::from("/usr/bin/cmake"));
    let (source_dir, build_dir) = ("/tmp/project/src", "/tmp/project/build");

    let invocation = cmake.generate(
        source_dir,
        build_dir,
        "Ninja",
        None,
        Some(&strings(&["-DCMAKE_TEST_VAR=HelloFromTest"])),
    );
    assert_eq!(
        invocation.args,
        strings(&[
            "-S",
            source_dir,
            "-B",
            build_dir,
            "-G",
            "Ninja",
            "-DCMAKE_TEST_VAR=HelloFromTest"
        ])
    );

    let result = CMake::generate_result(&exited(true, "exit status: 0", "", ""));
    assert!(result.is_ok());
}

#[test]
fn test_build_with_additional_args() {
    let cmake = CMake::new(PathBuf::from("/usr/bin/cmake"));
    let (source_dir, build_dir) = ("/tmp/project/src", "/tmp/project/build");

    // First generate the build system
    let generated = cmake.generate(source_dir, build_dir, "Ninja", None, None);
    assert_eq!(generated.args, strings(&["-S", source_dir, "-B", build_dir, "-G", "Ninja"]));
    CMake::generate_result(&exited(true, "exit status: 0", "", "")).unwrap();

    // Then build with additional args
    let invocation = cmake.build(
        build_dir,
        "Debug",
        Some(&strings(&["--", "-j2"])), // Limit to 2 parallel jobs
    );
    assert_eq!(
        invocation.args,
        strings(&["--build", build_dir, "--config", "Debug", "--", "-j2"])
    );

    let result = CMake::build_result(&exited(true, "exit status: 0", "", ""));
    assert!(result.is_ok());
}

#[test]
fn require_success_can_quote_status_and_output() {
    let bad = exited(false, "exit status: 2", "partly done\n", "error: no\n");
    assert_eq!(
        bad.require_success("x failed with status: ", Quote::StatusAndOutput, FailureClass::Io),
        Err(RuntimeError::new(
            "x failed with status: exit status: 2\npartly done\nerror: no\n".to_string(),
            74
        ))
    );
}
