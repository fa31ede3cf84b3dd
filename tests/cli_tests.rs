use octofhir_codegen::cli::{Cli, CommandResult, Commands, DiscoveryResult};
use octofhir_codegen::config::{CodegenConfig, GeneratorConfig, TypeScriptConfig};

fn cli(verbose: u8, config: Option<&str>) -> Cli {
    Cli {
        config: config.map(|c| c.to_string()),
        verbose,
        no_color: false,
        format: None,
        command: Commands::Validate { detailed: false },
    }
}

#[test]
fn test_command_result_success() {
    let result = CommandResult::success();
    assert_eq!(result.exit_code, 0);
    assert!(result.message.is_none());
}

#[test]
fn test_command_result_error() {
    let result = CommandResult::error("Something went wrong");
    assert_eq!(result.exit_code, 1);
    assert_eq!(result.message, Some("Something went wrong".to_string()));
}

#[test]
fn command_results_with_messages_and_codes() {
    let ok = CommandResult::success_with_message("done");
    assert_eq!((ok.exit_code, ok.message), (0, Some("done".to_string())));
    let err = CommandResult::error_with_code(3, "bad");
    assert_eq!((err.exit_code, err.message), (3, Some("bad".to_string())));
}

#[test]
fn log_levels_follow_verbosity() {
    assert_eq!(cli(0, None).log_level(), "info");
    assert_eq!(cli(1, None).log_level(), "debug");
    assert_eq!(cli(3, None).log_level(), "trace");
}

#[test]
fn config_path_falls_back_to_default() {
    assert_eq!(cli(0, None).config_path_or_default(), "codegen.toml");
    assert_eq!(cli(0, None).config_path(), None);
    assert_eq!(cli(0, Some("custom.toml")).config_path_or_default(), "custom.toml");
}

#[test]
fn test_discovery_result_is_found() {
    let found = DiscoveryResult::Found("/tmp/config.toml".to_string());
    assert!(found.is_found());
    let not_found = DiscoveryResult::NotFound;
    assert!(!not_found.is_found());
}

#[test]
fn test_discovery_result_path() {
    let path = "/tmp/config.toml".to_string();
    let found = DiscoveryResult::Found(path.clone());
    assert_eq!(found.path(), Some(path.as_str()));
    let not_found = DiscoveryResult::NotFound;
    assert_eq!(not_found.path(), None);
}

#[test]
fn test_discovery_result_ok_or_else() {
    let path = "/tmp/config.toml".to_string();
    let found = DiscoveryResult::Found(path.clone());
    assert_eq!(found.ok_or_else(|| "error").unwrap(), path);
    let not_found = DiscoveryResult::NotFound;
    assert_eq!(not_found.ok_or_else(|| "error").unwrap_err(), "error");
}

#[test]
fn discovery_unwrap_gives_the_path() {
    assert_eq!(DiscoveryResult::Found("a.toml".to_string()).unwrap(), "a.toml");
}

#[test]
fn mod_test_default_config() {
    let config = CodegenConfig::default();
    assert_eq!(config.fhir_version, "R4");
    assert_eq!(config.output_dir, "./generated");
    assert!(config.typescript_config().is_none());
}

#[test]
fn test_typescript_config_defaults() {
    let config = TypeScriptConfig::default();
    assert!(config.enabled);
    assert_eq!(config.module_name, "fhir-r4");
    assert!(!config.generate_classes);
    assert!(config.generate_extensions);
    assert!(config.strict_mode);
}

#[test]
fn generator_settings_are_found_by_name() {
    let mut config = CodegenConfig::default();
    let mut ts = TypeScriptConfig::default();
    ts.module_name = "my-fhir".to_string();
    config.generators.insert("typescript".to_string(), GeneratorConfig::TypeScript(ts));
    assert_eq!(config.typescript_config().unwrap().module_name, "my-fhir");
    assert!(config.rust_config().is_none());
}
