use octofhir_codegen::cli_config::{CodegenConfig, JavaGeneratorConfig, TypeScriptGeneratorConfig};

#[test]
fn config_test_default_config() {
    let config = CodegenConfig::default();
    assert_eq!(config.project.name, "fhir-sdk");
    assert_eq!(config.fhir.version, "R4");
    assert_eq!(config.output.directory, "./generated");
    assert_eq!(config.logging.level, "info");
}

#[test]
fn test_validation_success() {
    let mut config = CodegenConfig::default();
    config.generators.typescript = Some(TypeScriptGeneratorConfig::default());
    let warnings = config.validate().unwrap();
    assert!(warnings.is_empty());
}

#[test]
fn test_validation_invalid_fhir_version() {
    let mut config = CodegenConfig::default();
    config.fhir.version = "R3".to_string();
    let result = config.validate();
    assert!(result.is_err());
    assert!(result.unwrap_err().contains("Invalid FHIR version"));
}

#[test]
fn test_validation_no_generators() {
    let config = CodegenConfig::default();
    let warnings = config.validate().unwrap();
    assert!(!warnings.is_empty());
    assert!(warnings[0].contains("No generators are enabled"));
}

#[test]
fn test_validation_invalid_log_level() {
    let mut config = CodegenConfig::default();
    config.logging.level = "invalid".to_string();
    let result = config.validate();
    assert!(result.is_err());
    assert!(result.unwrap_err().contains("Invalid log level"));
}

#[test]
fn validation_accepts_log_level_in_any_case_and_checks_format() {
    let mut config = CodegenConfig::default_with_typescript();
    config.logging.level = "DEBUG".to_string();
    assert!(config.validate().is_ok());
    config.logging.format = "xml".to_string();
    assert_eq!(
        config.validate().unwrap_err(),
        "Invalid log format: 'xml'. Must be one of: pretty, json, compact"
    );
}

#[test]
fn test_merge_configs() {
    let mut base = CodegenConfig::default();
    base.fhir.packages = vec!["hl7.fhir.r4.core@4.0.1".to_string()];
    let mut override_config = CodegenConfig::default();
    override_config.fhir.version = "R5".to_string();
    override_config.fhir.packages = vec!["hl7.fhir.r5.core@5.0.0".to_string()];
    base.merge(override_config);
    assert_eq!(base.fhir.version, "R5");
    assert_eq!(base.fhir.packages.len(), 2);
}

#[test]
fn test_include_resources() {
    let mut config = CodegenConfig::default_with_typescript();
    config.fhir.packages = vec!["hl7.fhir.r4.core@4.0.1".to_string()];
    config.fhir.include_resources =
        vec!["Patient".to_string(), "Observation".to_string(), "Condition".to_string()];
    let warnings = config.validate().unwrap();
    assert!(warnings.is_empty());
}

#[test]
fn test_include_and_exclude_resources_warning() {
    let mut config = CodegenConfig::default_with_typescript();
    config.fhir.packages = vec!["hl7.fhir.r4.core@4.0.1".to_string()];
    config.fhir.include_resources = vec!["Patient".to_string(), "Observation".to_string()];
    config.fhir.exclude_resources = vec!["Binary".to_string()];
    let warnings = config.validate().unwrap();
    assert!(!warnings.is_empty());
    assert!(warnings[0].contains("include_resources and exclude_resources"));
}

#[test]
fn warnings_come_in_order() {
    let mut config = CodegenConfig::default();
    config.fhir.packages = vec!["no-version".to_string(), "".to_string()];
    let mut ts = TypeScriptGeneratorConfig::default();
    ts.target_version = "1.2.3.4".to_string();
    config.generators.typescript = Some(ts);
    let mut java = JavaGeneratorConfig::default();
    java.enabled = true;
    config.generators.java = Some(java);
    let warnings = config.validate().unwrap();
    assert_eq!(
        warnings,
        vec![
            "Package 'no-version' may be missing version. Expected format: 'package@version'".to_string(),
            "TypeScript target_version: Invalid version format: '1.2.3.4'. Expected semantic versioning (e.g., '1.0.0' or '5.3')".to_string(),
            "Java generator enabled but package_name is not set".to_string(),
        ]
    );
}

#[test]
fn semantic_versions_have_at_most_three_parts() {
    assert!(CodegenConfig::validate_semver("5.3").is_ok());
    assert!(CodegenConfig::validate_semver("1.0.0").is_ok());
    assert!(CodegenConfig::validate_semver("1.0.0.0").is_err());
}

#[test]
fn templates_enable_the_named_generator() {
    let ts = CodegenConfig::template_for("TypeScript").unwrap();
    assert_eq!(ts.project.name, "fhir-TypeScript-sdk");
    assert_eq!(ts.generators.typescript.as_ref().unwrap().module_name, Some("fhir-r4".to_string()));
    assert!(ts.generators.rust.is_none());
    let all = CodegenConfig::template_for("all").unwrap();
    assert!(all.generators.rust.as_ref().unwrap().enabled);
    assert_eq!(all.generators.java.as_ref().unwrap().package_name, Some("com.example.fhir.r4".to_string()));
    assert_eq!(
        CodegenConfig::template_for("cobol").err().unwrap(),
        "Unknown language template: 'cobol'. Available templates: typescript, rust, python, java, multi"
    );
}

#[test]
fn commented_toml_of_the_typescript_template() {
    let config = CodegenConfig::template_for("typescript").unwrap();
    let text = config.to_commented_toml().unwrap();
    assert!(text.starts_with("# OctoFHIR Codegen Configuration\n"));
    assert!(text.contains("[project]\nname = \"fhir-typescript-sdk\"\nversion = \"0.1.0\"\ndescription = \"FHIR typescript SDK generated by OctoFHIR Codegen\"\n"));
    assert!(text.contains("packages = [\n  \"hl7.fhir.r4.core@4.0.1\",\n]\n"));
    assert!(text.contains("[output]\ndirectory = \"./generated\"\nclean = true\ncreate_if_missing = true\noverwrite = true\n\n"));
    assert!(text.contains("[generators.typescript]\nenabled = true\nmodule_name = \"fhir-r4\"\n"));
    assert!(!text.contains("[generators.rust]"));
    assert!(text.ends_with("[logging]\nlevel = \"info\"\nformat = \"pretty\"\ncolor = true\n# file = \"codegen.log\"\n"));
}
