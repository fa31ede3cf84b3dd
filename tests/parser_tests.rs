use octofhir_codegen::error::Error;
use octofhir_codegen::json::Json;
use octofhir_codegen::parser::{Cardinality, StructureDefinitionParser, StructureKind};
use octofhir_codegen::ir::PropertyType;

fn s(x: &str) -> Json {
    Json::Str(x.to_string())
}

fn n(x: u64) -> Json {
    Json::UInt(x)
}

fn arr(v: Vec<Json>) -> Json {
    Json::Array(v)
}

fn obj(pairs: Vec<(&str, Json)>) -> Json {
    Json::Object(pairs.into_iter().map(|(k, v)| (k.to_string(), v)).collect())
}

fn types(codes: &[&str]) -> Json {
    arr(codes.iter().map(|c| obj(vec![("code", s(c))])).collect())
}

fn sd(name: &str, kind: &str, elements: Vec<Json>) -> Json {
    obj(vec![
        ("resourceType", s("StructureDefinition")),
        ("url", s(&format!("http://example.com/{}", name))),
        ("name", s(name)),
        ("kind", s(kind)),
        ("snapshot", obj(vec![("element", arr(elements))])),
    ])
}

fn root(name: &str) -> Json {
    obj(vec![("path", s(name)), ("min", n(0)), ("max", s("*"))])
}

fn parser_message(r: Result<octofhir_codegen::parser::ParsedStructure, Error>) -> String {
    match r {
        Err(Error::Parser(m)) => m,
        _ => panic!("expected a parser error"),
    }
}

#[test]
fn parser_test_is_primitive() {
    assert!(StructureDefinitionParser::is_primitive("string"));
    assert!(StructureDefinitionParser::is_primitive("boolean"));
    assert!(StructureDefinitionParser::is_primitive("dateTime"));
    assert!(!StructureDefinitionParser::is_primitive("HumanName"));
    assert!(!StructureDefinitionParser::is_primitive("Reference"));
}

#[test]
fn test_parse_minimal_sd() {
    let json = sd("Test", "resource", vec![root("Test")]);
    let mut parser = StructureDefinitionParser::new();
    let result = parser.parse(&json);
    assert!(result.is_ok());
    let parsed = result.unwrap();
    assert_eq!(parsed.name, "Test");
    assert_eq!(parsed.kind, StructureKind::Resource);
    assert_eq!(parser.cached_count(), 1);
}

#[test]
fn test_parse_with_properties() {
    let json = sd(
        "TestResource",
        "resource",
        vec![
            root("TestResource"),
            obj(vec![
                ("path", s("TestResource.active")),
                ("short", s("Active flag")),
                ("min", n(0)),
                ("max", s("1")),
                ("type", types(&["boolean"])),
            ]),
            obj(vec![
                ("path", s("TestResource.name")),
                ("short", s("Name field")),
                ("min", n(1)),
                ("max", s("1")),
                ("type", types(&["string"])),
            ]),
        ],
    );
    let mut parser = StructureDefinitionParser::new();
    let parsed = parser.parse(&json).unwrap();
    assert_eq!(parsed.elements.len(), 3);

    let resource_type = parser.to_resource_type(&parsed).unwrap();
    assert_eq!(resource_type.name, "TestResource");
    assert_eq!(resource_type.properties.len(), 2);

    let active_prop = resource_type.properties.iter().find(|p| p.name == "active").unwrap();
    assert_eq!(active_prop.cardinality.min, 0);
    assert_eq!(active_prop.cardinality.max, Some(1));
    assert_eq!(active_prop.short_description, "Active flag");
}

#[test]
fn test_parse_choice_element() {
    let json = sd(
        "TestChoice",
        "resource",
        vec![
            root("TestChoice"),
            obj(vec![
                ("path", s("TestChoice.value[x]")),
                ("short", s("Value")),
                ("min", n(0)),
                ("max", s("1")),
                ("type", types(&["string", "integer", "boolean"])),
            ]),
        ],
    );
    let mut parser = StructureDefinitionParser::new();
    let parsed = parser.parse(&json).unwrap();
    let resource_type = parser.to_resource_type(&parsed).unwrap();

    let value_prop = resource_type.properties.iter().find(|p| p.name == "value").unwrap();
    assert!(value_prop.is_choice);
    assert_eq!(value_prop.choice_types.len(), 3);

    if let PropertyType::Choice { types } = &value_prop.property_type {
        assert_eq!(types.len(), 3);
        assert!(types.contains(&"string".to_string()));
    } else {
        panic!("Expected Choice type");
    }
}

#[test]
fn test_parse_reference_with_targets() {
    let json = sd(
        "TestRef",
        "resource",
        vec![
            root("TestRef"),
            obj(vec![
                ("path", s("TestRef.subject")),
                ("short", s("Subject reference")),
                ("min", n(1)),
                ("max", s("1")),
                (
                    "type",
                    arr(vec![obj(vec![
                        ("code", s("Reference")),
                        (
                            "targetProfile",
                            arr(vec![
                                s("http://hl7.org/fhir/StructureDefinition/Patient"),
                                s("http://hl7.org/fhir/StructureDefinition/Group"),
                            ]),
                        ),
                    ])]),
                ),
            ]),
        ],
    );
    let mut parser = StructureDefinitionParser::new();
    let parsed = parser.parse(&json).unwrap();
    let resource_type = parser.to_resource_type(&parsed).unwrap();

    let subject_prop = resource_type.properties.iter().find(|p| p.name == "subject").unwrap();
    if let PropertyType::Reference { target_types } = &subject_prop.property_type {
        assert_eq!(target_types.len(), 2);
        assert!(target_types.contains(&"Patient".to_string()));
        assert!(target_types.contains(&"Group".to_string()));
    } else {
        panic!("Expected Reference type");
    }
}

#[test]
fn test_cardinality_parsing() {
    let field = |name: &str, min: u64, max: &str| {
        obj(vec![
            ("path", s(&format!("TestCard.{}", name))),
            ("min", n(min)),
            ("max", s(max)),
            ("type", types(&["string"])),
        ])
    };
    let json = sd(
        "TestCard",
        "resource",
        vec![root("TestCard"), field("required", 1, "1"), field("optional", 0, "1"), field("array", 0, "*")],
    );
    let mut parser = StructureDefinitionParser::new();
    let parsed = parser.parse(&json).unwrap();
    let resource_type = parser.to_resource_type(&parsed).unwrap();

    let required = resource_type.properties.iter().find(|p| p.name == "required").unwrap();
    assert_eq!(required.cardinality.min, 1);
    assert_eq!(required.cardinality.max, Some(1));

    let optional = resource_type.properties.iter().find(|p| p.name == "optional").unwrap();
    assert_eq!(optional.cardinality.min, 0);
    assert_eq!(optional.cardinality.max, Some(1));

    let array = resource_type.properties.iter().find(|p| p.name == "array").unwrap();
    assert_eq!(array.cardinality.min, 0);
    assert_eq!(array.cardinality.max, None);
}

#[test]
fn choice_element_deceased_parses_to_choice_property() {
    let json = sd(
        "Patient",
        "resource",
        vec![
            root("Patient"),
            obj(vec![("path", s("Patient.deceased[x]")), ("type", types(&["boolean", "dateTime"]))]),
        ],
    );
    let mut parser = StructureDefinitionParser::new();
    let parsed = parser.parse(&json).unwrap();
    let resource = parser.to_resource_type(&parsed).unwrap();
    assert_eq!(resource.properties.len(), 1);
    let p = &resource.properties[0];
    assert_eq!(p.name, "deceased");
    assert!(p.is_choice);
    assert_eq!(p.choice_types, vec!["boolean".to_string(), "dateTime".to_string()]);
    match &p.property_type {
        PropertyType::Choice { types } => {
            assert_eq!(types, &vec!["boolean".to_string(), "dateTime".to_string()])
        }
        _ => panic!("Expected Choice type"),
    }
}

#[test]
fn reference_targets_are_last_url_segments() {
    let json = sd(
        "Encounter",
        "resource",
        vec![
            root("Encounter"),
            obj(vec![
                ("path", s("Encounter.participant")),
                (
                    "type",
                    arr(vec![obj(vec![
                        ("code", s("Reference")),
                        (
                            "targetProfile",
                            arr(vec![
                                s("http://hl7.org/fhir/StructureDefinition/Practitioner"),
                                s("http://hl7.org/fhir/StructureDefinition/Organization"),
                            ]),
                        ),
                    ])]),
                ),
            ]),
        ],
    );
    let mut parser = StructureDefinitionParser::new();
    let parsed = parser.parse(&json).unwrap();
    let resource = parser.to_resource_type(&parsed).unwrap();
    match &resource.properties[0].property_type {
        PropertyType::Reference { target_types } => {
            assert_eq!(target_types, &vec!["Practitioner".to_string(), "Organization".to_string()])
        }
        _ => panic!("Expected Reference type"),
    }
}

#[test]
fn single_target_profile_string_is_accepted() {
    let json = sd(
        "Obs",
        "resource",
        vec![obj(vec![
            ("path", s("Obs.subject")),
            (
                "type",
                arr(vec![obj(vec![
                    ("code", s("Reference")),
                    ("targetProfile", s("http://hl7.org/fhir/StructureDefinition/Patient")),
                ])]),
            ),
        ])],
    );
    let mut parser = StructureDefinitionParser::new();
    let parsed = parser.parse(&json).unwrap();
    assert_eq!(parsed.elements[0].types[0].target_profiles.len(), 1);
    let resource = parser.to_resource_type(&parsed).unwrap();
    match &resource.properties[0].property_type {
        PropertyType::Reference { target_types } => assert_eq!(target_types, &vec!["Patient".to_string()]),
        _ => panic!("Expected Reference type"),
    }
}

#[test]
fn reference_without_targets_is_complex() {
    let json = sd(
        "Obs",
        "resource",
        vec![obj(vec![("path", s("Obs.focus")), ("type", types(&["Reference"]))])],
    );
    let mut parser = StructureDefinitionParser::new();
    let parsed = parser.parse(&json).unwrap();
    let resource = parser.to_resource_type(&parsed).unwrap();
    match &resource.properties[0].property_type {
        PropertyType::Complex { name } => assert_eq!(name, "Reference"),
        _ => panic!("Expected Complex type"),
    }
}

#[test]
fn backbone_paths_collapse_to_one_property() {
    let json = sd(
        "TestResource",
        "resource",
        vec![
            root("TestResource"),
            obj(vec![("path", s("TestResource.contact"))]),
            obj(vec![("path", s("TestResource.contact.relationship")), ("type", types(&["CodeableConcept"]))]),
        ],
    );
    let mut parser = StructureDefinitionParser::new();
    let parsed = parser.parse(&json).unwrap();
    let resource = parser.to_resource_type(&parsed).unwrap();
    assert_eq!(resource.properties.len(), 1);
    assert_eq!(resource.properties[0].name, "contact");
    match &resource.properties[0].property_type {
        PropertyType::BackboneElement { properties } => assert!(properties.is_empty()),
        _ => panic!("Expected BackboneElement type"),
    }
}

#[test]
fn differential_is_used_without_snapshot() {
    let json = obj(vec![
        ("resourceType", s("StructureDefinition")),
        ("url", s("http://example.com/D")),
        ("name", s("D")),
        ("kind", s("complex-type")),
        ("abstract", Json::Bool(true)),
        ("baseDefinition", s("http://example.com/Element")),
        ("differential", obj(vec![("element", arr(vec![root("D")]))])),
    ]);
    let mut parser = StructureDefinitionParser::new();
    let parsed = parser.parse(&json).unwrap();
    assert!(parsed.differential);
    assert!(parsed.is_abstract);
    assert_eq!(parsed.base_definition, Some("http://example.com/Element".to_string()));
    assert_eq!(parsed.kind, StructureKind::ComplexType);
    let dt = parser.to_datatype(&parsed).unwrap();
    assert_eq!(dt.documentation.short, "FHIR D DataType");
    assert!(parser.to_resource_type(&parsed).is_err());
}

#[test]
fn max_values_parse_leniently() {
    let json = sd(
        "M",
        "logical",
        vec![
            obj(vec![("path", s("M.a")), ("max", s("*"))]),
            obj(vec![("path", s("M.b")), ("max", s("7"))]),
            obj(vec![("path", s("M.c")), ("max", s("many"))]),
            obj(vec![("path", s("M.d"))]),
            obj(vec![("path", s("M.e")), ("max", s("+3"))]),
        ],
    );
    let mut parser = StructureDefinitionParser::new();
    let parsed = parser.parse(&json).unwrap();
    assert_eq!(parsed.kind, StructureKind::LogicalModel);
    let maxes: Vec<Cardinality> = parsed.elements.iter().map(|e| e.max).collect();
    assert_eq!(
        maxes,
        vec![
            Cardinality::Unbounded,
            Cardinality::Finite(7),
            Cardinality::Finite(1),
            Cardinality::Finite(1),
            Cardinality::Finite(3)
        ]
    );
}

#[test]
fn parse_errors_name_the_failed_check() {
    let mut parser = StructureDefinitionParser::new();
    assert_eq!(parser_message(parser.parse(&obj(vec![]))), "Missing resourceType");
    assert_eq!(
        parser_message(parser.parse(&obj(vec![("resourceType", s("ValueSet"))]))),
        "Expected StructureDefinition, got ValueSet"
    );
    assert_eq!(
        parser_message(parser.parse(&obj(vec![("resourceType", s("StructureDefinition"))]))),
        "Missing url"
    );
    let unknown = obj(vec![
        ("resourceType", s("StructureDefinition")),
        ("url", s("u")),
        ("name", s("X")),
        ("kind", s("unknown-type")),
        ("snapshot", obj(vec![("element", arr(vec![]))])),
    ]);
    assert_eq!(parser_message(parser.parse(&unknown)), "Unknown kind: unknown-type");
    let neither = obj(vec![
        ("resourceType", s("StructureDefinition")),
        ("url", s("u")),
        ("name", s("X")),
        ("kind", s("resource")),
    ]);
    assert_eq!(parser_message(parser.parse(&neither)), "Missing both snapshot and differential");
    let no_path = sd("X", "resource", vec![obj(vec![("min", n(0))])]);
    assert_eq!(parser_message(parser.parse(&no_path)), "Element missing path");
    assert_eq!(parser.cached_count(), 0);
}

#[test]
fn kind_mismatch_is_an_error() {
    let json = sd("HumanName", "complex-type", vec![root("HumanName")]);
    let mut parser = StructureDefinitionParser::new();
    let parsed = parser.parse(&json).unwrap();
    match parser.to_resource_type(&parsed) {
        Err(Error::Parser(m)) => assert_eq!(m, "HumanName is not a resource"),
        _ => panic!("expected an error"),
    }
}

#[test]
fn constraints_and_binding_are_read() {
    let json = sd(
        "C",
        "resource",
        vec![obj(vec![
            ("path", s("C.code")),
            ("binding", obj(vec![("strength", s("required")), ("valueSet", s("http://vs"))])),
            (
                "constraint",
                arr(vec![
                    obj(vec![("key", s("c-1")), ("human", s("must hold"))]),
                    obj(vec![("key", s("c-2"))]),
                ]),
            ),
        ])],
    );
    let mut parser = StructureDefinitionParser::new();
    let parsed = parser.parse(&json).unwrap();
    let e = &parsed.elements[0];
    let b = e.binding.as_ref().unwrap();
    assert_eq!(b.strength, "required");
    assert_eq!(b.value_set, Some("http://vs".to_string()));
    assert_eq!(e.constraints.len(), 1);
    assert_eq!(e.constraints[0].severity, "error");
    assert_eq!(e.min, 0);
}

#[test]
fn repeated_choice_paths_give_one_property() {
    let json = sd(
        "Obs",
        "resource",
        vec![
            root("Obs"),
            obj(vec![("path", s("Obs.value[x]")), ("type", types(&["Quantity", "string"]))]),
            obj(vec![("path", s("Obs.value[x]")), ("type", types(&["Quantity"]))]),
            obj(vec![("path", s("Obs.value[x].extension")), ("type", types(&["Extension"]))]),
            obj(vec![("path", s("Obs.status")), ("type", types(&["code"]))]),
        ],
    );
    let mut parser = StructureDefinitionParser::new();
    let parsed = parser.parse(&json).unwrap();
    let resource = parser.to_resource_type(&parsed).unwrap();
    let names: Vec<&str> = resource.properties.iter().map(|p| p.name.as_str()).collect();
    assert_eq!(names, vec!["value", "status"]);
    assert!(matches!(resource.properties[0].property_type, PropertyType::Choice { .. }));
}

#[test]
fn inconsistent_bounds_are_rejected_and_large_minimums_saturate() {
    let bad = sd(
        "B",
        "resource",
        vec![root("B"), obj(vec![("path", s("B.x")), ("min", n(2)), ("max", s("1"))])],
    );
    let mut parser = StructureDefinitionParser::new();
    assert_eq!(parser_message(parser.parse(&bad)), "Element min exceeds max");
    let big = sd(
        "G",
        "resource",
        vec![root("G"), obj(vec![("path", s("G.x")), ("min", n(u64::MAX)), ("max", s("*"))])],
    );
    let parsed = parser.parse(&big).unwrap();
    assert_eq!(parsed.elements[1].min, u32::MAX);
    let resource = parser.to_resource_type(&parsed).unwrap();
    assert!(resource.properties[0].cardinality.is_valid());
    assert!(!octofhir_codegen::ir::CardinalityRange { min: 2, max: Some(1) }.is_valid());
}
