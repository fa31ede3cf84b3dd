use octofhir_codegen::backend::TypeScriptBackend;
use octofhir_codegen::class_generator::ClassGenerator;
use octofhir_codegen::documentation_generator::DocumentationGenerator;
use octofhir_codegen::ir::{
    CardinalityRange, DataType, Documentation, Example, Property, PropertyType, ResourceType,
};
use octofhir_codegen::json::Json;

fn property(name: &str, pt: PropertyType, card: CardinalityRange) -> Property {
    Property {
        name: name.to_string(),
        path: format!("Patient.{}", name),
        property_type: pt,
        cardinality: card,
        is_choice: false,
        choice_types: vec![],
        is_modifier: false,
        is_summary: false,
        binding: None,
        constraints: vec![],
        short_description: "".to_string(),
        definition: "".to_string(),
        comments: None,
        examples: vec![],
    }
}

fn doc(short: &str) -> Documentation {
    Documentation {
        short: short.to_string(),
        definition: String::new(),
        comments: None,
        requirements: None,
        usage_notes: Vec::new(),
        url: None,
    }
}

#[test]
fn test_is_array_property() {
    let prop = property(
        "identifier",
        PropertyType::Complex { name: "Identifier".to_string() },
        CardinalityRange { min: 0, max: None },
    );
    assert!(ClassGenerator::is_array_property(&prop));
    let prop2 = property(
        "id",
        PropertyType::Primitive { name: "string".to_string() },
        CardinalityRange { min: 0, max: Some(1) },
    );
    assert!(!ClassGenerator::is_array_property(&prop2));
}

#[test]
fn test_get_element_type() {
    let backend = TypeScriptBackend::new();
    let prop_type = PropertyType::Complex { name: "Identifier".to_string() };
    assert_eq!(ClassGenerator::get_element_type(&prop_type, &backend), "Identifier");
    let array_type = PropertyType::Complex { name: "Coding[][]".to_string() };
    assert_eq!(ClassGenerator::get_element_type(&array_type, &backend), "Coding");
}

#[test]
fn resource_class_text_is_assembled_in_order() {
    let backend = TypeScriptBackend::new();
    let resource = ResourceType {
        name: "Patient".to_string(),
        base: Some("DomainResource".to_string()),
        properties: vec![property(
            "name",
            PropertyType::Complex { name: "HumanName".to_string() },
            CardinalityRange { min: 0, max: None },
        )],
        search_parameters: vec![],
        documentation: doc("A patient"),
        url: "http://hl7.org/fhir/StructureDefinition/Patient".to_string(),
        is_abstract: false,
    };
    let code = ClassGenerator::generate_resource_class(&resource, &backend).unwrap();
    let expected = [
        "/**\n * A patient\n */\n",
        "export class Patient extends DomainResource {\n",
        "  resourceType: string;\n\n",
        "  private _name?: HumanName;\n",
        "\n",
        "  constructor() {\n    super();\n    this.resourceType = \"Patient\";\n  }\n",
        "\n",
        "  get name(): HumanName | undefined {\n    return this._name;\n  }\n\n",
        "  setName(value: HumanName): this {\n    this._name = value;\n    return this;\n  }\n\n",
        "  addName(value: HumanName): this {\n    if (!this._name) {\n      this._name = [];\n    }\n    this._name.push(value);\n    return this;\n  }\n\n",
        "  hasName(): boolean {\n    return this._name !== undefined && this._name !== null;\n  }\n\n",
        "  toJSON(): any {\n    const obj: any = {\n      resourceType: this.resourceType\n    };\n",
        "    if (this._name !== undefined) {\n      obj.name = this._name;\n    }\n",
        "    return obj;\n  }\n",
        "\n",
        "  static parse(json: any): Patient {\n    const instance = new Patient();\n",
        "    if (json.name !== undefined) {\n      instance.setName(json.name);\n    }\n",
        "    return instance;\n  }\n",
        "}\n",
    ]
    .join("");
    assert_eq!(code, expected);
}

#[test]
fn datatype_class_has_no_resource_type() {
    let backend = TypeScriptBackend::new();
    let datatype = DataType {
        name: "Period".to_string(),
        base: None,
        properties: vec![property(
            "start",
            PropertyType::Primitive { name: "dateTime".to_string() },
            CardinalityRange { min: 1, max: Some(1) },
        )],
        documentation: doc(""),
        url: "http://hl7.org/fhir/StructureDefinition/Period".to_string(),
        is_abstract: false,
    };
    let code = ClassGenerator::generate_datatype_class(&datatype, &backend).unwrap();
    assert!(code.starts_with("export class Period {\n  private _start: string;\n\n  constructor() {\n  }\n\n"));
    assert!(code.contains("  get start(): string {\n"));
    assert!(!code.contains("resourceType"));
    assert!(!code.contains("addStart"));
    assert!(code.ends_with("    return instance;\n  }\n}\n"));
}

#[test]
fn property_doc_lists_cardinality_examples_and_link() {
    let mut p = property(
        "gender",
        PropertyType::Primitive { name: "code".to_string() },
        CardinalityRange { min: 0, max: Some(1) },
    );
    p.short_description = "male | female".to_string();
    p.is_summary = true;
    p.examples = vec![Example { label: "Simple".to_string(), value: Json::Str("male".to_string()) }];
    let rendered = vec![vec!["\"male\"".to_string()]];
    let lines = DocumentationGenerator::generate_property_doc(&p, Some("http://hl7.org/fhir/Patient"), &rendered);
    assert_eq!(
        lines,
        vec![
            "/**",
            " * male | female",
            " *",
            " * @cardinality 0..1 (optional)",
            " * @summary This element is a summary element",
            " *",
            " * @example Simple",
            " * ```typescript",
            " * \"male\"",
            " * ```",
            " *",
            " * @see {@link http://hl7.org/fhir/Patient#gender | FHIR Specification}",
            " */"
        ]
    );
}

#[test]
fn test_describe_cardinality_optional() {
    let p = property("x", PropertyType::Primitive { name: "string".to_string() }, CardinalityRange::optional_array());
    assert_eq!(DocumentationGenerator::describe_cardinality(&p), "0..* (optional, array)");
    let q = property("y", PropertyType::Primitive { name: "string".to_string() }, CardinalityRange { min: 2, max: Some(12) });
    assert_eq!(DocumentationGenerator::describe_cardinality(&q), "2..12");
    let r = property("z", PropertyType::Primitive { name: "string".to_string() }, CardinalityRange { min: 1, max: Some(3) });
    assert_eq!(DocumentationGenerator::describe_cardinality(&r), "1..3 (required, max 3 items)");
}
