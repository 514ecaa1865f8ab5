use llama_mgr::commands::convert::ConvertCommand;
use llama_mgr::commands::daemon::DaemonCommand;
use llama_mgr::commands::quantize::QuantizeCommand;
use llama_mgr::commands::server::ServerCommand;
use llama_mgr::commands::set_instance::SetInstanceCommand;
use llama_mgr::commands::uninstall::UninstallCommand;
use llama_mgr::commands::{convert, daemon, quantize, server, uninstall};
use llama_mgr::config::{
    Config, ConfigFileFault, ConfigSection, PathsSection, Profile, Profiles,
};
use llama_mgr::error::RuntimeError;

fn profile(args: &[&str], generator: Option<&str>) -> Profile {
    Profile {
        cmake_args: args.iter().map(|s| s.to_string()).collect(),
        cmake_generator: generator.map(|g| g.to_string()),
    }
}

#[test]
fn default_config_has_the_two_stock_profiles() {
    let config = Config::default();
    assert_eq!(config.config.default_profile, "vulkan");
    assert_eq!(config.paths.llama_dir, "./llama");
    assert_eq!(config.paths.models_dir, "./models");
    let mut names = config.profiles.names();
    names.sort();
    assert_eq!(names, vec!["cpu", "vulkan"]);
    assert_eq!(
        config.profiles.get("cpu"),
        Some(&profile(&["-DGGML_CPU=ON", "-DGGML_LTO=ON"], None))
    );
    assert_eq!(
        config.profiles.get("vulkan"),
        Some(&profile(&["-DGGML_VULKAN=ON", "-DGGML_LTO=ON"], None))
    );
}

#[test]
fn get_profile_by_name_or_default() {
    let config = Config::default();
    assert_eq!(
        config.get_profile(Some("cpu")),
        Some(&profile(&["-DGGML_CPU=ON", "-DGGML_LTO=ON"], None))
    );
    assert_eq!(
        config.get_profile(None),
        Some(&profile(&["-DGGML_VULKAN=ON", "-DGGML_LTO=ON"], None))
    );
    assert_eq!(config.get_profile(Some("rocm")), None);
    assert_eq!(config.get_profile(Some("")), None);
    assert_eq!(config.get_profile(Some("CPU")), None);
}

#[test]
fn get_profile_without_a_default_in_the_table() {
    let mut profiles = Profiles::new();
    profiles.insert("only".to_string(), profile(&["-DX=1"], Some("Ninja")));
    let config = Config {
        config: ConfigSection { default_profile: "missing".to_string() },
        paths: PathsSection { llama_dir: "/l".to_string(), models_dir: "/m".to_string() },
        profiles,
    };
    assert_eq!(config.get_profile(None), None);
    assert_eq!(config.get_profile(Some("only")), Some(&profile(&["-DX=1"], Some("Ninja"))));
}

#[test]
fn insert_replaces_the_profile_of_the_same_name() {
    let mut profiles = Profiles::new();
    assert_eq!(profiles.get("a"), None);
    assert!(profiles.names().is_empty());
    profiles.insert("a".to_string(), profile(&["1"], None));
    profiles.insert("b".to_string(), profile(&["2"], None));
    profiles.insert("a".to_string(), profile(&["3"], Some("Ninja")));
    assert_eq!(profiles.get("a"), Some(&profile(&["3"], Some("Ninja"))));
    assert_eq!(profiles.get("b"), Some(&profile(&["2"], None)));
    assert_eq!(profiles.get("c"), None);
    assert_eq!(profiles.names(), vec!["a", "b"]);
}

#[test]
fn commands_outside_the_installation_are_accepted() {
    let config = Config::default();
    let chosen = profile(&[], None);
    assert!(convert::run(
        ConvertCommand { input: "in".to_string(), output: "out".to_string() },
        &config,
        &chosen
    )
    .is_ok());
    assert!(daemon::run(
        DaemonCommand { port: 51536, address: "127.0.0.1".to_string() },
        &config,
        &chosen
    )
    .is_ok());
    assert!(quantize::run(
        QuantizeCommand {
            input: "in".to_string(),
            output: "out".to_string(),
            quant: "Q4_K_M".to_string()
        },
        &config,
        &chosen
    )
    .is_ok());
    assert!(server::run(
        ServerCommand {
            model: None,
            port: 8080,
            address: "127.0.0.1".to_string(),
            ctx_size: None,
            gpu_layers: Some(99)
        },
        &config,
        &chosen
    )
    .is_ok());
    assert!(uninstall::run(UninstallCommand { force: true }, &config, &chosen).is_ok());
    let chosen_instance = SetInstanceCommand { instance_name: "cpu".to_string() };
    assert_eq!(chosen_instance.instance_name, "cpu");
}

#[test]
fn require_profile_gives_the_profile_or_says_that_it_is_missing() {
    let config = Config::default();
    assert_eq!(
        config.require_profile("cpu"),
        Ok(&profile(&["-DGGML_CPU=ON", "-DGGML_LTO=ON"], None))
    );
    assert_eq!(
        config.require_profile("rocm"),
        Err(RuntimeError::new(
            "Profile 'rocm' not found in configuration".to_string(),
            exitcode::UNAVAILABLE as u8
        ))
    );
    assert_eq!(
        config.require_profile(""),
        Err(RuntimeError::new("Profile '' not found in configuration".to_string(), 69))
    );
}

#[test]
fn config_file_faults_have_their_messages_and_statuses() {
    assert_eq!(
        ConfigFileFault::AlreadyExists.failure("\"/home/u/.llama-mgr/config.toml\""),
        RuntimeError::new(
            "Config file already exists at: \"/home/u/.llama-mgr/config.toml\"".to_string(),
            exitcode::CANTCREAT as u8
        )
    );
    assert_eq!(
        ConfigFileFault::DirectoryNotCreated.failure("Permission denied (os error 13)"),
        RuntimeError::new(
            "Failed to create config directory: Permission denied (os error 13)".to_string(),
            exitcode::CANTCREAT as u8
        )
    );
    assert_eq!(
        ConfigFileFault::NotSerialized.failure("unsupported"),
        RuntimeError::new(
            "Failed to serialize default config: unsupported".to_string(),
            exitcode::SOFTWARE as u8
        )
    );
    assert_eq!(
        ConfigFileFault::NotWritten.failure("No space left on device (os error 28)"),
        RuntimeError::new(
            "Failed to write config file: No space left on device (os error 28)".to_string(),
            exitcode::IOERR as u8
        )
    );
}
