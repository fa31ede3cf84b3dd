use octofhir_codegen::resolver::{
    cache_stats, core_type_url_of, is_primitive_document, primitive_step, record_primitive, DocumentCache,
    PrimitiveCache, PrimitiveStep,
};
use octofhir_codegen::graph_builder::{categorize_structures, parse_search_parameter, TypeGraphBuilder};
use octofhir_codegen::ir::{FhirVersion, GraphMetadata, PropertyType, SearchParamType};
use octofhir_codegen::json::Json;

fn s(x: &str) -> Json {
    Json::Str(x.to_string())
}

fn n(x: u64) -> Json {
    Json::UInt(x)
}

fn arr(v: Vec<Json>) -> Json {
    Json::Array(v)
}

fn obj(pairs: Vec<(&str, Json)>) -> Json {
    Json::Object(pairs.into_iter().map(|(k, v)| (k.to_string(), v)).collect())
}

fn element(path: &str, min: u64, max: &str, code: &str) -> Json {
    obj(vec![
        ("path", s(path)),
        ("min", n(min)),
        ("max", s(max)),
        ("type", arr(vec![obj(vec![("code", s(code))])])),
    ])
}

fn doc(name: &str, kind: Option<&str>, elements: Vec<Json>) -> Json {
    let mut pairs = vec![
        ("resourceType", s("StructureDefinition")),
        ("url", s(&format!("http://hl7.org/fhir/StructureDefinition/{}", name))),
        ("name", s(name)),
    ];
    if let Some(k) = kind {
        pairs.push(("kind", s(k)));
    }
    pairs.push(("snapshot", obj(vec![("element", arr(elements))])));
    obj(pairs)
}

fn patient_doc() -> Json {
    doc(
        "Patient",
        Some("resource"),
        vec![
            obj(vec![("path", s("Patient"))]),
            element("Patient.active", 0, "1", "boolean"),
            element("Patient.name", 0, "*", "HumanName"),
        ],
    )
}

#[test]
fn patient_graph_end_to_end() {
    let mut builder = TypeGraphBuilder::new(FhirVersion::R4);
    let graph = builder.build_graph(&vec![patient_doc()], &vec![], GraphMetadata::new(String::new()));
    assert_eq!(graph.total_types(), 1);
    assert_eq!(graph.resources.len(), 1);
    assert_eq!(graph.datatypes.len(), 0);
    assert_eq!(graph.primitives.len(), 0);
    assert_eq!(graph.profiles.len(), 0);
    let patient = graph.resources.get("Patient").unwrap();
    assert_eq!(patient.properties.len(), 2);
    assert_eq!(patient.properties[0].cardinality, octofhir_codegen::ir::CardinalityRange { min: 0, max: Some(1) });
    assert_eq!(patient.properties[1].cardinality, octofhir_codegen::ir::CardinalityRange { min: 0, max: None });
    let active = &patient.properties[0];
    assert_eq!(active.name, "active");
    assert!(active.cardinality.is_optional());
    assert!(!active.cardinality.is_array());
    match &active.property_type {
        PropertyType::Primitive { name } => assert_eq!(name, "boolean"),
        _ => panic!("expected a primitive"),
    }
    let name = &patient.properties[1];
    assert_eq!(name.name, "name");
    assert!(name.cardinality.is_optional());
    assert!(name.cardinality.is_array());
    match &name.property_type {
        PropertyType::Complex { name } => assert_eq!(name, "HumanName"),
        _ => panic!("expected a complex type"),
    }
    assert_eq!(graph.fhir_version, FhirVersion::R4);
}

#[test]
fn documents_land_in_the_map_of_their_kind() {
    let docs = vec![
        patient_doc(),
        doc("HumanName", Some("complex-type"), vec![obj(vec![("path", s("HumanName"))])]),
        doc("boolean", Some("primitive-type"), vec![obj(vec![("path", s("boolean"))])]),
        doc("Odd", Some("unknown-type"), vec![obj(vec![("path", s("Odd"))])]),
        doc("NoKind", None, vec![obj(vec![("path", s("NoKind"))])]),
    ];
    let buckets = categorize_structures(&docs);
    assert_eq!(buckets.resources.len(), 1);
    assert_eq!(buckets.datatypes.len(), 1);
    assert_eq!(buckets.primitives.len(), 1);
    assert_eq!(buckets.resources.get("Patient"), Some(&0));
    assert_eq!(buckets.datatypes.get("HumanName"), Some(&1));
    assert_eq!(buckets.primitives.get("boolean"), Some(&2));

    let mut builder = TypeGraphBuilder::new(FhirVersion::R4B);
    let graph = builder.build_graph(&docs, &vec![], GraphMetadata::new(String::new()));
    assert_eq!(graph.total_types(), 3);
    assert!(graph.resources.contains_key("Patient"));
    assert!(graph.datatypes.contains_key("HumanName"));
    assert!(graph.primitives.contains_key("boolean"));
    assert!(!graph.resources.contains_key("Odd"));
    assert!(!graph.datatypes.contains_key("NoKind"));
    let prim = graph.primitives.get("boolean").unwrap();
    assert_eq!(prim.documentation.short, "FHIR primitive type boolean");
    assert_eq!(prim.pattern, None);
}

#[test]
fn a_malformed_document_is_dropped_and_the_rest_kept() {
    let broken = obj(vec![
        ("resourceType", s("StructureDefinition")),
        ("url", s("http://example.com/Broken")),
        ("name", s("Broken")),
        ("kind", s("resource")),
    ]);
    let mut builder = TypeGraphBuilder::new(FhirVersion::R4);
    let graph = builder.build_graph(&vec![broken, patient_doc()], &vec![], GraphMetadata::new(String::new()));
    assert_eq!(graph.total_types(), 1);
    assert!(!graph.resources.contains_key("Broken"));
    assert!(graph.resources.contains_key("Patient"));
}

#[test]
fn the_last_document_of_a_name_wins() {
    let first = doc("Patient", Some("resource"), vec![element("Patient.a", 0, "1", "string")]);
    let second = doc("Patient", Some("resource"), vec![element("Patient.b", 0, "1", "string")]);
    let buckets = categorize_structures(&vec![first, second]);
    assert_eq!(buckets.resources.get("Patient"), Some(&1));
}

fn search_param(code: &str, ty: &str, bases: &[&str], targets: &[&str]) -> Json {
    obj(vec![
        ("code", s(code)),
        ("type", s(ty)),
        ("description", s("d")),
        ("expression", s("Patient.x")),
        ("base", arr(bases.iter().map(|b| s(b)).collect())),
        ("target", arr(targets.iter().map(|t| s(t)).collect())),
    ])
}

#[test]
fn search_parameters_attach_to_their_bases() {
    let params = vec![
        search_param("name", "string", &["Patient", "Practitioner"], &[]),
        search_param("organization", "reference", &["Patient"], &["Organization"]),
        search_param("bad", "fuzzy", &["Patient"], &[]),
        obj(vec![("type", s("token")), ("base", arr(vec![s("Patient")]))]),
    ];
    let mut builder = TypeGraphBuilder::new(FhirVersion::R4);
    let graph = builder.build_graph(&vec![patient_doc()], &params, GraphMetadata::new(String::new()));
    let patient = graph.resources.get("Patient").unwrap();
    assert_eq!(patient.search_parameters.len(), 2);
    assert_eq!(patient.search_parameters[0].code, "name");
    assert_eq!(patient.search_parameters[0].param_type, SearchParamType::String);
    assert!(patient.search_parameters[0].target_types.is_empty());
    assert_eq!(patient.search_parameters[1].code, "organization");
    assert_eq!(patient.search_parameters[1].param_type, SearchParamType::Reference);
    assert_eq!(patient.search_parameters[1].target_types, vec!["Organization".to_string()]);
}

#[test]
fn search_parameter_errors() {
    let missing_code = obj(vec![("type", s("token"))]);
    assert!(parse_search_parameter(&missing_code).is_err());
    let unknown = search_param("x", "fuzzy", &[], &[]);
    match parse_search_parameter(&unknown) {
        Err(e) => assert_eq!(e.to_string(), "Parser error: Unknown search parameter type: fuzzy"),
        Ok(_) => panic!("expected an error"),
    }
    let token = search_param("identifier", "token", &["Patient"], &["Ignored"]);
    let p = parse_search_parameter(&token).unwrap();
    assert_eq!(p.param_type, SearchParamType::Token);
    assert!(p.target_types.is_empty());
    assert_eq!(p.expression, Some("Patient.x".to_string()));
}

#[test]
fn resolver_cache_stores_and_clears() {
    let mut documents = DocumentCache::new();
    let mut primitives = PrimitiveCache::new();
    assert_eq!(cache_stats(&documents, &primitives).type_cache_size, 0);
    let url = core_type_url_of("boolean");
    assert_eq!(url, "http://hl7.org/fhir/StructureDefinition/boolean");
    let doc = obj(vec![("kind", s("primitive-type"))]);
    assert!(is_primitive_document(&doc));
    assert!(!is_primitive_document(&obj(vec![])));
    documents.store_document(url.clone(), doc);
    primitives.store_primitive("boolean".to_string(), true);
    assert!(documents.cached_document(&url).is_some());
    assert_eq!(primitives.cached_primitive("boolean"), Some(true));
    assert_eq!(primitives.cached_primitive("HumanName"), None);
    let stats = cache_stats(&documents, &primitives);
    assert_eq!((stats.type_cache_size, stats.primitive_cache_size), (1, 1));
    primitives.clear();
    documents.clear();
    assert_eq!(cache_stats(&documents, &primitives).primitive_cache_size, 0);
    assert_eq!(documents.len(), 0);
}

#[test]
fn primitive_checks_use_the_cache_first() {
    let mut primitives = PrimitiveCache::new();
    match primitive_step(&primitives, "date") {
        PrimitiveStep::Resolve(url) => assert_eq!(url, "http://hl7.org/fhir/StructureDefinition/date"),
        PrimitiveStep::Known(_) => panic!("nothing is cached yet"),
    }
    assert!(!record_primitive(&mut primitives, "Foo".to_string(), None));
    assert_eq!(primitives.len(), 0);
    let doc = obj(vec![("kind", s("primitive-type"))]);
    assert!(record_primitive(&mut primitives, "date".to_string(), Some(&doc)));
    assert!(matches!(primitive_step(&primitives, "date"), PrimitiveStep::Known(true)));
}
