use octofhir_codegen::ir::{
    CardinalityRange, DataType, Documentation, FhirVersion, GraphMetadata, PropertyType,
    ResourceType, TypeGraph, TypeMap, GENERATOR_VERSION,
};

fn empty_doc() -> Documentation {
    Documentation {
        short: String::new(),
        definition: String::new(),
        comments: None,
        requirements: None,
        usage_notes: Vec::new(),
        url: None,
    }
}

fn patient() -> ResourceType {
    ResourceType {
        name: "Patient".to_string(),
        base: Some("DomainResource".to_string()),
        properties: Vec::new(),
        search_parameters: Vec::new(),
        documentation: empty_doc(),
        url: "http://hl7.org/fhir/StructureDefinition/Patient".to_string(),
        is_abstract: false,
    }
}

#[test]
fn test_type_graph_creation() {
    let graph = TypeGraph::new(FhirVersion::R4);
    assert_eq!(graph.fhir_version, FhirVersion::R4);
    assert_eq!(graph.total_types(), 0);
}

#[test]
fn test_type_graph_add_resource() {
    let mut graph = TypeGraph::new(FhirVersion::R4);
    graph.add_resource("Patient".to_string(), patient());
    assert_eq!(graph.total_types(), 1);
    assert!(graph.resources.contains_key("Patient"));
}

#[test]
fn test_cardinality_required() {
    let card = CardinalityRange::required();
    assert_eq!(card.min, 1);
    assert_eq!(card.max, Some(1));
    assert!(card.is_required());
    assert!(!card.is_array());
    assert!(!card.is_optional());
}

#[test]
fn test_cardinality_optional() {
    let card = CardinalityRange::optional();
    assert_eq!(card.min, 0);
    assert_eq!(card.max, Some(1));
    assert!(!card.is_required());
    assert!(!card.is_array());
    assert!(card.is_optional());
}

#[test]
fn test_cardinality_array() {
    let card = CardinalityRange::optional_array();
    assert_eq!(card.min, 0);
    assert_eq!(card.max, None);
    assert!(!card.is_required());
    assert!(card.is_array());
    assert!(card.is_optional());
}

#[test]
fn test_cardinality_required_array() {
    let card = CardinalityRange::required_array();
    assert_eq!(card.min, 1);
    assert_eq!(card.max, None);
    assert!(card.is_required());
    assert!(card.is_array());
    assert!(!card.is_optional());
}

#[test]
fn cardinality_bounded_ranges_follow_their_bounds() {
    let two = CardinalityRange { min: 2, max: Some(5) };
    assert!(two.is_required());
    assert!(two.is_array());
    assert!(!two.is_optional());
    let zero_zero = CardinalityRange { min: 0, max: Some(0) };
    assert!(!zero_zero.is_required());
    assert!(!zero_zero.is_array());
    assert!(zero_zero.is_optional());
}

#[test]
fn test_property_type_typename() {
    let prim = PropertyType::Primitive { name: "string".to_string() };
    assert_eq!(prim.simple_type_name(), Some("string"));

    let complex = PropertyType::Complex { name: "HumanName".to_string() };
    assert_eq!(complex.simple_type_name(), Some("HumanName"));

    let reference = PropertyType::Reference { target_types: vec!["Patient".to_string()] };
    assert_eq!(reference.simple_type_name(), None);
}

#[test]
fn test_fhir_version_display() {
    assert_eq!(FhirVersion::R4.to_string(), "R4");
    assert_eq!(FhirVersion::R4B.to_string(), "R4B");
    assert_eq!(FhirVersion::R5.to_string(), "R5");
    assert_eq!(FhirVersion::R6.to_string(), "R6");
}

#[test]
fn test_graph_metadata_default() {
    let metadata = GraphMetadata::stamped_at(1_700_000_000, 0).unwrap();
    assert_eq!(metadata.generator_version, GENERATOR_VERSION);
    assert!(metadata.source_packages.is_empty());
    assert!(!metadata.generated_at.is_empty());
    assert_eq!(metadata.generated_at, "2023-11-14T22:13:20+00:00");
    assert!(GraphMetadata::stamped_at(i64::MAX, 0).is_none());
    assert_eq!(TypeGraph::new(FhirVersion::R4).metadata.generated_at, "");
}

#[test]
fn type_map_keeps_insertion_order_and_replaces_in_place() {
    let mut m: TypeMap<u32> = TypeMap::new();
    m.insert("b".to_string(), 1);
    m.insert("a".to_string(), 2);
    m.insert("b".to_string(), 3);
    assert_eq!(m.len(), 2);
    assert_eq!(m.key_at(0), "b");
    assert_eq!(m.key_at(1), "a");
    assert_eq!(m.get("b"), Some(&3));
    assert_eq!(m.get("a"), Some(&2));
    assert_eq!(m.get("c"), None);
    assert_eq!(m.position("a"), Some(1));
}

#[test]
fn graph_total_counts_all_four_maps() {
    let mut graph = TypeGraph::new(FhirVersion::R5);
    graph.add_resource("Patient".to_string(), patient());
    graph.add_resource("Patient".to_string(), patient());
    graph.add_datatype(
        "HumanName".to_string(),
        DataType {
            name: "HumanName".to_string(),
            base: None,
            properties: Vec::new(),
            documentation: empty_doc(),
            url: "http://hl7.org/fhir/StructureDefinition/HumanName".to_string(),
            is_abstract: false,
        },
    );
    assert_eq!(graph.total_types(), 2);
    assert_eq!(graph.datatypes.len(), 1);
}
