use octofhir_codegen::backend::TypeScriptBackend;
use octofhir_codegen::generator::{IdentifierContext, LanguageBackend};
use octofhir_codegen::ir::{Documentation, PropertyType};

fn documentation(short: &str, definition: &str, comments: Option<&str>, url: Option<&str>) -> Documentation {
    Documentation {
        short: short.to_string(),
        definition: definition.to_string(),
        comments: comments.map(|c| c.to_string()),
        requirements: None,
        usage_notes: Vec::new(),
        url: url.map(|u| u.to_string()),
    }
}

#[test]
fn test_complex_interface_generation() {
    let backend = TypeScriptBackend::new();
    let doc = documentation(
        "Patient demographics and information",
        "Demographics and other administrative information about an individual or animal receiving care or other health-related services.",
        None,
        Some("http://hl7.org/fhir/StructureDefinition/Patient"),
    );
    let props = vec![
        ("resourceType".to_string(), "\"Patient\"".to_string(), false),
        ("id".to_string(), "id".to_string(), true),
        ("active".to_string(), "boolean".to_string(), true),
        ("name".to_string(), "HumanName[]".to_string(), true),
    ];
    let output = backend.generate_interface("Patient", Some("DomainResource"), &props, Some(&doc));
    assert_eq!(
        output,
        "/**\n * Patient demographics and information\n *\n * Demographics and other administrative information about an individual or animal\n * receiving care or other health-related services.\n *\n * @see http://hl7.org/fhir/StructureDefinition/Patient\n */\nexport interface Patient extends DomainResource {\n  resourceType: \"Patient\";\n  id?: id;\n  active?: boolean;\n  name?: HumanName[];\n}\n"
    );
}

#[test]
fn test_type_alias_generation() {
    let backend = TypeScriptBackend::new();
    let doc = documentation("Patient gender", "Administrative gender - male | female | other | unknown", None, None);
    let output = backend.generate_type_alias(
        "PatientGender",
        "\"male\" | \"female\" | \"other\" | \"unknown\"",
        Some(&doc),
    );
    assert_eq!(
        output,
        "/**\n * Patient gender\n *\n * Administrative gender - male | female | other | unknown\n */\nexport type PatientGender = \"male\" | \"female\" | \"other\" | \"unknown\";\n"
    );
}

#[test]
fn test_primitive_type_mapping() {
    let backend = TypeScriptBackend::new();
    let boolean_type = PropertyType::Primitive { name: "boolean".to_string() };
    assert_eq!(backend.map_type(&boolean_type), "boolean");
    let integer_type = PropertyType::Primitive { name: "integer".to_string() };
    assert_eq!(backend.map_type(&integer_type), "number");
    let string_type = PropertyType::Primitive { name: "string".to_string() };
    assert_eq!(backend.map_type(&string_type), "string");
    let datetime_type = PropertyType::Primitive { name: "dateTime".to_string() };
    assert_eq!(backend.map_type(&datetime_type), "string");
}

#[test]
fn test_complex_type_mapping() {
    let backend = TypeScriptBackend::new();
    let complex_type = PropertyType::Complex { name: "HumanName".to_string() };
    assert_eq!(backend.map_type(&complex_type), "HumanName");
}

#[test]
fn test_choice_type_mapping() {
    let backend = TypeScriptBackend::new();
    let choice_type = PropertyType::Choice {
        types: vec!["string".to_string(), "number".to_string(), "boolean".to_string()],
    };
    assert_eq!(backend.map_type(&choice_type), "string | number | boolean");
}

#[test]
fn test_generate_imports() {
    let backend = TypeScriptBackend::new();
    let empty_imports = backend.generate_imports(&[]);
    assert_eq!(empty_imports.len(), 0);
    let single_imports = backend.generate_imports(&["HumanName".to_string()]);
    assert_eq!(single_imports.len(), 1);
    assert_eq!(single_imports[0], "import { HumanName } from './types';");
    let multi_imports = backend.generate_imports(&["HumanName".to_string(), "Address".to_string()]);
    assert_eq!(multi_imports.len(), 1);
    assert_eq!(multi_imports[0], "import { HumanName, Address } from './types';");
}

#[test]
fn test_doc_comment_generation() {
    let backend = TypeScriptBackend::new();
    let doc = documentation(
        "Patient resource",
        "This is a longer definition that describes the patient resource in more detail.",
        Some("Additional comments here"),
        Some("http://hl7.org/fhir/StructureDefinition/Patient"),
    );
    let output = backend.generate_doc_comment(&doc);
    assert_eq!(
        output.join("\n"),
        "/**\n * Patient resource\n *\n * This is a longer definition that describes the patient resource in more detail.\n *\n * Additional comments here\n *\n * @see http://hl7.org/fhir/StructureDefinition/Patient\n */"
    );
}

#[test]
fn test_interface_without_doc() {
    let backend = TypeScriptBackend::new();
    let props = vec![
        ("id".to_string(), "string".to_string(), true),
        ("name".to_string(), "string".to_string(), false),
    ];
    let output = backend.generate_interface("SimpleInterface", None, &props, None);
    assert_eq!(output, "export interface SimpleInterface {\n  id?: string;\n  name: string;\n}\n");
}

#[test]
fn test_type_alias_without_doc() {
    let backend = TypeScriptBackend::new();
    let output = backend.generate_type_alias("Status", "\"active\" | \"inactive\"", None);
    assert_eq!(output, "export type Status = \"active\" | \"inactive\";\n");
}

/// A backend written by a user of the library, through the trait alone.
pub struct MockBackend;

impl LanguageBackend for MockBackend {
    fn map_type(&self, property_type: &PropertyType) -> String {
        match property_type {
            PropertyType::Primitive { name } => name.clone(),
            PropertyType::Complex { name } => name.clone(),
            PropertyType::Reference { target_types } => {
                if target_types.is_empty() {
                    "Reference".to_string()
                } else {
                    format!("Reference<{}>", target_types.join(" | "))
                }
            }
            PropertyType::BackboneElement { .. } => "BackboneElement".to_string(),
            PropertyType::Choice { types } => types.join(" | "),
        }
    }

    fn generate_imports(&self, dependencies: &[String]) -> Vec<String> {
        if dependencies.is_empty() {
            vec![]
        } else {
            vec![format!("import {{ {} }};", dependencies.join(", "))]
        }
    }

    fn format_identifier(&self, name: &str, context: IdentifierContext) -> String {
        match context {
            IdentifierContext::TypeName => name.to_string(),
            IdentifierContext::FieldName => name.to_lowercase(),
            _ => name.to_string(),
        }
    }

    fn generate_doc_comment(&self, doc: &Documentation) -> Vec<String> {
        if doc.short.is_empty() { vec![] } else { vec![format!("// {}", doc.short)] }
    }

    fn file_extension(&self) -> &str {
        ".mock"
    }
}

#[test]
fn test_mock_backend_map_type() {
    let backend = MockBackend;
    let prim = PropertyType::Primitive { name: "string".to_string() };
    assert_eq!(backend.map_type(&prim), "string");
    let complex = PropertyType::Complex { name: "HumanName".to_string() };
    assert_eq!(backend.map_type(&complex), "HumanName");
    let reference = PropertyType::Reference {
        target_types: vec!["Patient".to_string(), "Practitioner".to_string()],
    };
    assert_eq!(backend.map_type(&reference), "Reference<Patient | Practitioner>");
}

#[test]
fn test_mock_backend_format_identifier() {
    let backend = MockBackend;
    let formatted_type = backend.format_identifier("PatientName", IdentifierContext::TypeName);
    assert_eq!(formatted_type, "PatientName");
    let field_name = backend.format_identifier("BirthDate", IdentifierContext::FieldName);
    assert_eq!(field_name, "birthdate");
}

#[test]
fn test_mock_backend_generate_imports() {
    let backend = MockBackend;
    let imports = backend.generate_imports(&["Patient".to_string(), "Observation".to_string()]);
    assert_eq!(imports.len(), 1);
    assert!(imports[0].contains("Patient"));
    assert!(imports[0].contains("Observation"));
    let empty = backend.generate_imports(&[]);
    assert!(empty.is_empty());
}

#[test]
fn test_mock_backend_file_extension() {
    let backend = MockBackend;
    assert_eq!(backend.file_extension(), ".mock");
}
