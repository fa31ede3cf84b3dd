//! FHIR StructureDefinition processing: a JSON model, a parser that flattens
//! element lists into properties, a graph builder that assembles a type graph,
//! and TypeScript text generators working on that graph.

pub mod backend;
pub mod base_class_generator;
pub mod casing;
pub mod class_generator;
pub mod cli;
pub mod cli_config;
pub mod config;
pub mod documentation_generator;
pub mod error;
pub mod extension_generator;
pub mod generate;
pub mod generator;
pub mod graph_builder;
pub mod ir;
pub mod json;
pub mod parser;
pub mod resolver;
pub mod text;
