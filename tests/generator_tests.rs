use octofhir_codegen::backend::TypeScriptBackend;
use octofhir_codegen::base_class_generator::BaseClassGenerator;
use octofhir_codegen::casing::capitalize;
use octofhir_codegen::class_generator::ClassGenerator;
use octofhir_codegen::documentation_generator::DocumentationGenerator;
use octofhir_codegen::extension_generator::{ExtensionDefinition, ExtensionGenerator, ExtensionValueType};
use octofhir_codegen::generator::{GeneratorCapabilities, IdentifierContext, Language};
use octofhir_codegen::ir::{CardinalityRange, Documentation, PropertyType};

#[test]
fn test_language_display() {
    assert_eq!(Language::TypeScript.to_string(), "TypeScript");
    assert_eq!(Language::Rust.to_string(), "Rust");
    assert_eq!(Language::Python.to_string(), "Python");
}

#[test]
fn test_language_from_str() {
    assert_eq!("typescript".parse::<Language>().unwrap(), Language::TypeScript);
    assert_eq!("ts".parse::<Language>().unwrap(), Language::TypeScript);
    assert_eq!("rust".parse::<Language>().unwrap(), Language::Rust);
    assert_eq!("rs".parse::<Language>().unwrap(), Language::Rust);
    assert!("unknown".parse::<Language>().is_err());
}

#[test]
fn language_names_ignore_case() {
    assert_eq!(Language::parse_name("TypeScript").unwrap(), Language::TypeScript);
    assert_eq!(Language::parse_name("GOLANG").unwrap(), Language::Go);
    match Language::parse_name("Cobol") {
        Err(e) => assert_eq!(e.to_string(), "Generator error: Unknown language: Cobol"),
        Ok(_) => panic!("expected an error"),
    }
}

#[test]
fn test_generator_capabilities_default() {
    let caps = GeneratorCapabilities::default();
    assert!(!caps.validation);
    assert!(!caps.helpers);
    assert!(!caps.tests);
}

#[test]
fn test_map_primitive_types() {
    assert_eq!(TypeScriptBackend::map_primitive_type("boolean"), "boolean");
    assert_eq!(TypeScriptBackend::map_primitive_type("integer"), "number");
    assert_eq!(TypeScriptBackend::map_primitive_type("string"), "string");
    assert_eq!(TypeScriptBackend::map_primitive_type("dateTime"), "string");
}

#[test]
fn test_format_identifier() {
    let backend = TypeScriptBackend::new();
    assert_eq!(backend.format_identifier("patient_name", IdentifierContext::TypeName), "PatientName");
    assert_eq!(backend.format_identifier("patient_name", IdentifierContext::FieldName), "patientName");
    assert_eq!(backend.format_identifier("max_length", IdentifierContext::ConstantName), "MAX_LENGTH");
}

#[test]
fn test_generate_interface() {
    let backend = TypeScriptBackend::new();
    let props = vec![
        ("id".to_string(), "string".to_string(), true),
        ("active".to_string(), "boolean".to_string(), true),
    ];
    let output = backend.generate_interface("Patient", Some("DomainResource"), &props, None);
    assert!(output.contains("export interface Patient extends DomainResource"));
    assert!(output.contains("id?: string;"));
    assert!(output.contains("active?: boolean;"));
}

#[test]
fn interface_and_alias_text_is_exact() {
    let backend = TypeScriptBackend::with_version("5.0".to_string());
    let props = vec![("code".to_string(), "string".to_string(), false)];
    let doc = Documentation {
        short: "A code".to_string(),
        definition: String::new(),
        comments: None,
        requirements: None,
        usage_notes: Vec::new(),
        url: Some("http://x".to_string()),
    };
    assert_eq!(
        backend.generate_interface("Coding", None, &props, Some(&doc)),
        "/**\n * A code\n *\n * @see http://x\n */\nexport interface Coding {\n  code: string;\n}\n"
    );
    assert_eq!(backend.generate_type_alias("Id", "string", None), "export type Id = string;\n");
}

#[test]
fn map_type_covers_every_shape() {
    let backend = TypeScriptBackend::new();
    let refs = PropertyType::Reference { target_types: vec!["Patient".to_string(), "Group".to_string()] };
    assert_eq!(backend.map_type(&refs), "Reference<\"Patient\" | \"Group\">");
    let one = PropertyType::Reference { target_types: vec!["Patient".to_string()] };
    assert_eq!(backend.map_type(&one), "Reference<\"Patient\">");
    let any = PropertyType::Reference { target_types: vec![] };
    assert_eq!(backend.map_type(&any), "Reference");
    let choice = PropertyType::Choice { types: vec!["boolean".to_string(), "Period".to_string()] };
    assert_eq!(backend.map_type(&choice), "boolean | Period");
    let backbone = PropertyType::BackboneElement { properties: vec![] };
    assert_eq!(backend.map_type(&backbone), "BackboneElement");
    assert_eq!(backend.generate_imports(&vec![]).len(), 0);
    assert_eq!(
        backend.generate_imports(&vec!["A".to_string(), "B".to_string()]),
        vec!["import { A, B } from './types';".to_string()]
    );
    assert_eq!(TypeScriptBackend::sanitize_identifier("us-core.patient name"), "us_core_patient_name");
}

#[test]
fn backend_wrap_keeps_lines_within_width() {
    let lines = TypeScriptBackend::wrap_text("aaa bbb ccc", 7);
    assert_eq!(lines, vec!["aaa bbb".to_string(), "ccc".to_string()]);
    assert!(TypeScriptBackend::wrap_text("   ", 10).is_empty());
}

#[test]
fn test_generate_resource_base_class() {
    let code = BaseClassGenerator::generate_resource_base_class().unwrap();
    assert!(code.contains("export abstract class Resource"));
    assert!(code.contains("resourceType: string"));
    assert!(code.contains("private _id?: string"));
    assert!(code.contains("protected constructor(resourceType: string)"));
    assert!(code.contains("abstract toJSON(): any"));
}

#[test]
fn test_generate_domain_resource_base_class() {
    let code = BaseClassGenerator::generate_domain_resource_base_class().unwrap();
    assert!(code.contains("export abstract class DomainResource extends Resource"));
    assert!(code.contains("private _text?: Narrative"));
    assert!(code.contains("private _extension?: Extension[]"));
    assert!(code.contains("addExtension"));
    assert!(code.contains("getExtensionByUrl"));
}

#[test]
fn test_generate_element_base_class() {
    let code = BaseClassGenerator::generate_element_base_class().unwrap();
    assert!(code.contains("export abstract class Element"));
    assert!(code.contains("private _id?: string"));
    assert!(code.contains("private _extension?: Extension[]"));
}

#[test]
fn test_generate_backbone_element_base_class() {
    let code = BaseClassGenerator::generate_backbone_element_base_class().unwrap();
    assert!(code.contains("export abstract class BackboneElement extends Element"));
    assert!(code.contains("private _modifierExtension?: Extension[]"));
}

#[test]
fn test_generate_all_base_classes() {
    let code = BaseClassGenerator::generate_all_base_classes().unwrap();
    assert!(code.contains("export abstract class Resource"));
    assert!(code.contains("export abstract class DomainResource extends Resource"));
    assert!(code.contains("export abstract class Element"));
    assert!(code.contains("export abstract class BackboneElement extends Element"));
}

#[test]
fn base_class_generator_test_capitalize() {
    assert_eq!(capitalize("text"), "Text");
    assert_eq!(capitalize(""), "");
}

#[test]
fn class_generator_test_capitalize() {
    assert_eq!(ClassGenerator::capitalize("name"), "Name");
    assert_eq!(ClassGenerator::capitalize("birthDate"), "BirthDate");
    assert_eq!(ClassGenerator::capitalize(""), "");
}

#[test]
fn test_is_optional() {
    let optional = CardinalityRange { min: 0, max: Some(1) };
    assert!(ClassGenerator::is_optional(&optional));
    let required = CardinalityRange { min: 1, max: Some(1) };
    assert!(!ClassGenerator::is_optional(&required));
}

#[test]
fn class_generator_small_helpers() {
    assert_eq!(ClassGenerator::generate_jsdoc("Hi"), "/**\n * Hi\n */");
    assert!(ClassGenerator::is_primitive_type("uuid"));
    assert!(!ClassGenerator::is_primitive_type("xhtml"));
}

#[test]
fn documentation_generator_test_wrap_text() {
    let text = "This is a very long text that should be wrapped to multiple lines when it exceeds the maximum width";
    let lines = DocumentationGenerator::wrap_text(text, 30);
    assert!(lines.len() > 1);
    for line in &lines {
        assert!(line.len() <= 30 || line.split_whitespace().count() == 1);
    }
}

#[test]
fn documentation_wrap_of_empty_text_is_one_empty_line() {
    assert_eq!(DocumentationGenerator::wrap_text("", 30), vec![String::new()]);
}

#[test]
fn documentation_generator_test_generate_simple_doc() {
    let lines = DocumentationGenerator::generate_simple_doc("Test description");
    assert_eq!(lines.len(), 3);
    assert_eq!(lines[0], "/**");
    assert_eq!(lines[1], " * Test description");
    assert_eq!(lines[2], " */");
}

#[test]
fn documentation_lines_for_choice_validation_and_helpers() {
    let lines = DocumentationGenerator::generate_choice_doc("value", &vec!["string".to_string(), "date_time".to_string()]);
    assert_eq!(lines[1], " * Choice element: value");
    assert_eq!(lines[5], " * - valueString");
    assert_eq!(lines[6], " * - valueDateTime");
    assert_eq!(lines.len(), 8);
    let v = DocumentationGenerator::generate_validation_doc("Patient");
    assert_eq!(v[1], " * Validate a Patient resource");
    assert_eq!(v.len(), 11);
    let h = DocumentationGenerator::generate_helper_doc("Gets it", &[("a", "first")], "the value");
    assert_eq!(h, vec!["/**", " * Gets it", " *", " * @param a - first", " * @returns the value", " */"]);
}

#[test]
fn type_doc_lists_every_section() {
    let doc = Documentation {
        short: "Short".to_string(),
        definition: "Long definition".to_string(),
        comments: Some("A comment".to_string()),
        requirements: Some("Needed".to_string()),
        usage_notes: vec!["Note one".to_string()],
        url: Some("http://u".to_string()),
    };
    let lines = DocumentationGenerator::generate_type_doc(&doc);
    assert_eq!(
        lines,
        vec![
            "/**", " * Short", " *", " * Long definition", " *", " * A comment", " *",
            " * **Requirements:**", " * Needed", " *", " * **Usage Notes:**", " * - Note one", " *",
            " * @see {@link http://u | FHIR Specification}", " */"
        ]
    );
}

#[test]
fn test_extension_definition_from_url() {
    let ext = ExtensionDefinition::from_url("http://hl7.org/fhir/StructureDefinition/patient-birthTime");
    assert_eq!(ext.name, "birthTime");
    assert_eq!(ext.url, "http://hl7.org/fhir/StructureDefinition/patient-birthTime");
    assert_eq!(ext.description, "birthTime extension");
}

#[test]
fn test_get_typescript_type() {
    let mut ext = ExtensionDefinition::from_url("test");
    ext.value_type = ExtensionValueType::Primitive("boolean".to_string());
    assert_eq!(ext.get_typescript_type(), "boolean");
    ext.value_type = ExtensionValueType::Primitive("integer".to_string());
    assert_eq!(ext.get_typescript_type(), "number");
    ext.value_type = ExtensionValueType::Primitive("dateTime".to_string());
    assert_eq!(ext.get_typescript_type(), "string");
    ext.value_type = ExtensionValueType::Complex("Coding".to_string());
    assert_eq!(ext.get_typescript_type(), "Coding");
    ext.value_type = ExtensionValueType::Choice(vec!["string".to_string(), "Coding".to_string()]);
    assert_eq!(ext.get_typescript_type(), "string | Coding");
}

#[test]
fn test_get_value_field_name() {
    let mut ext = ExtensionDefinition::from_url("test");
    ext.value_type = ExtensionValueType::Primitive("string".to_string());
    assert_eq!(ext.get_value_field_name(), "valueString");
    ext.value_type = ExtensionValueType::Primitive("dateTime".to_string());
    assert_eq!(ext.get_value_field_name(), "valueDateTime");
    ext.value_type = ExtensionValueType::Complex("Coding".to_string());
    assert_eq!(ext.get_value_field_name(), "valueCoding");
}

fn birth_time() -> ExtensionDefinition {
    ExtensionDefinition {
        url: "http://hl7.org/fhir/StructureDefinition/patient-birthTime".to_string(),
        name: "birthTime".to_string(),
        value_type: ExtensionValueType::Primitive("dateTime".to_string()),
        target_types: vec!["Patient".to_string()],
        description: "Birth time".to_string(),
        is_array: false,
    }
}

#[test]
fn test_generate_add_method() {
    let code = ExtensionGenerator::generate_add_method(&birth_time()).unwrap();
    assert!(code.contains("addBirthTimeExtension"));
    assert!(code.contains("value: string"));
    assert!(code.contains("valueDateTime: value"));
}

#[test]
fn test_generate_get_method() {
    let code = ExtensionGenerator::generate_get_method(&birth_time()).unwrap();
    assert!(code.contains("getBirthTimeExtension"));
    assert!(code.contains("string | undefined"));
}

#[test]
fn test_generate_has_method() {
    let code = ExtensionGenerator::generate_has_method(&birth_time()).unwrap();
    assert!(code.contains("hasBirthTimeExtension"));
    assert!(code.contains("boolean"));
}

#[test]
fn test_generate_remove_method() {
    let code = ExtensionGenerator::generate_remove_method(&birth_time()).unwrap();
    assert!(code.contains("removeBirthTimeExtension"));
    assert!(code.contains("this"));
}

#[test]
fn repeating_extension_get_method_returns_an_array() {
    let mut ext = birth_time();
    ext.is_array = true;
    let code = ExtensionGenerator::generate_get_method(&ext).unwrap();
    assert!(code.contains("getBirthTimeExtension(): string[] {"));
    let all = ExtensionGenerator::generate_all_methods(&ext).unwrap();
    assert!(all.starts_with("  /**\n   * Add birthTime extension\n"));
    assert!(all.contains("removeBirthTimeExtension"));
}

#[test]
fn extension_generator_test_capitalize() {
    assert_eq!(capitalize("birthTime"), "BirthTime");
    assert_eq!(capitalize("name"), "Name");
    assert_eq!(capitalize(""), "");
}

#[test]
fn test_generator_config_default() {
    let config = octofhir_codegen::generator::GeneratorConfig::default();
    assert_eq!(config.output_dir, "./generated");
    assert!(config.emit_validation);
    assert!(config.emit_helpers);
    assert!(!config.emit_tests);
}

#[test]
fn test_generator_config_custom_options() {
    let mut config = octofhir_codegen::generator::GeneratorConfig::default();
    config.set_custom("indent".to_string(), octofhir_codegen::json::Json::UInt(2));
    config.set_custom("semicolons".to_string(), octofhir_codegen::json::Json::Bool(true));
    assert!(matches!(config.get_custom("indent"), Some(octofhir_codegen::json::Json::UInt(2))));
    assert!(matches!(config.get_custom("semicolons"), Some(octofhir_codegen::json::Json::Bool(true))));
    assert!(config.get_custom("missing").is_none());
}

#[test]
fn test_generated_code_stats() {
    let files = vec![
        octofhir_codegen::generator::GeneratedFile::new(
            "patient.ts".to_string(),
            "export interface Patient {}".to_string(),
            octofhir_codegen::generator::FileType::Resource,
        ),
        octofhir_codegen::generator::GeneratedFile::new(
            "index.ts".to_string(),
            "export * from './patient';".to_string(),
            octofhir_codegen::generator::FileType::Index,
        ),
    ];
    let manifest = octofhir_codegen::generator::GenerationManifest {
        generated_at: "2025-01-01T00:00:00Z".to_string(),
        generator: octofhir_codegen::generator::GeneratorMetadata {
            name: "test".to_string(),
            version: "1.0.0".to_string(),
            language: Language::TypeScript,
            description: "Test generator".to_string(),
            author: "Test".to_string(),
            capabilities: GeneratorCapabilities::default(),
        },
        config: octofhir_codegen::generator::GeneratorConfig::default(),
        statistics: octofhir_codegen::generator::GenerationStatistics::default(),
        warnings: Vec::new(),
    };
    let generated = octofhir_codegen::generator::GeneratedCode::new(files, manifest);
    assert_eq!(generated.file_count(), 2);
    assert!(generated.total_size() > 0);
    assert_eq!(generated.total_size(), 27 + 26);
}

#[test]
fn lowercase_names_are_recognised() {
    assert_eq!(Language::from_lowercase("golang"), Some(Language::Go));
    assert_eq!(Language::from_lowercase("TypeScript"), None);
    assert!(octofhir_codegen::cli_config::is_log_level_name("warn"));
    assert!(!octofhir_codegen::cli_config::is_log_level_name("WARN"));
    assert!(octofhir_codegen::cli_config::is_log_format_name("compact"));
    assert_eq!(octofhir_codegen::cli_config::template_kind_of("all"), Some(4));
    assert_eq!(octofhir_codegen::cli_config::template_kind_of("cobol"), None);
    assert_eq!(octofhir_codegen::generate::overridden_generator("rust"), Some(Language::Rust));
    assert_eq!(octofhir_codegen::generate::overridden_generator("python"), None);
}
