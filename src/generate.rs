//! Decisions of the generate command: command-line overrides of the
//! configuration, the language to generate, and the merging and filtering of
//! type graphs.

use vstd::prelude::*;
use crate::casing::{lowercase, str_lowercase};
use crate::cli_config::{CodegenConfig, RustGeneratorConfig, TypeScriptGeneratorConfig};
use crate::error::Error;
use crate::generator::Language;
use crate::backend::TypeScriptBackend;
use crate::base_class_generator::{all_base_classes_text, BaseClassGenerator};
use crate::class_generator::{datatype_class_text, resource_class_text, ClassGenerator};
use crate::generator::{FileType, GeneratedFile};
use crate::ir::{copy_strings, TypeGraph, TypeMap};
use crate::text::str_eq;

verus! {

/// Options of the generate command.
#[derive(Debug)]
pub struct GenerateOptions {
    /// Configuration file path
    pub config_path: String,
    /// Language given on the command line
    pub language_override: Option<String>,
    /// Output directory given on the command line
    pub output_override: Option<String>,
    /// FHIR version given on the command line
    pub fhir_version_override: Option<String>,
    /// Packages given on the command line
    pub additional_packages: Vec<String>,
    /// Skip validation
    pub skip_validation: bool,
    /// Don't clean the output directory
    pub no_clean: bool,
}

/// Result of a generation run.
#[derive(Debug)]
pub struct GenerationResult {
    pub files_generated: usize,
    pub output_path: String,
    pub language: String,
    pub fhir_version: String,
}

/// The generator that a lowercase language override enables, if any.
pub open spec fn override_target(l: Seq<char>) -> Option<Language> {
    if l == "typescript"@ {
        Some(Language::TypeScript)
    } else if l == "rust"@ {
        Some(Language::Rust)
    } else {
        None
    }
}

/// The generator that a lowercase language override enables: `typescript`
/// or `rust`; other names enable none.
pub fn overridden_generator(l: &str) -> (r: Option<Language>)
    ensures
        r == override_target(l@),
{
    if str_eq(l, "typescript") {
        Some(Language::TypeScript)
    } else if str_eq(l, "rust") {
        Some(Language::Rust)
    } else {
        None
    }
}

/// Applies the command-line overrides: a language `typescript` or `rust`
/// (in any case) enables that generator at its defaults, an output
/// directory or FHIR version replaces the configured one, and packages are
/// appended.
pub fn apply_cli_overrides(config: &mut CodegenConfig, options: &GenerateOptions)
    ensures
        match options.language_override {
            Some(l) => if str_lowercase(l@) == "typescript"@ {
                &&& final(config).generators.typescript is Some
                &&& final(config).generators.typescript->Some_0.enabled
                &&& final(config).generators.typescript->Some_0.target_version@ == "5.3"@
                &&& final(config).generators.rust == old(config).generators.rust
            } else if str_lowercase(l@) == "rust"@ {
                &&& final(config).generators.rust is Some
                &&& final(config).generators.rust->Some_0.enabled
                &&& final(config).generators.rust->Some_0.edition@ == "2024"@
                &&& final(config).generators.typescript == old(config).generators.typescript
            } else {
                &&& final(config).generators.typescript == old(config).generators.typescript
                &&& final(config).generators.rust == old(config).generators.rust
            },
            None => final(config).generators.typescript == old(config).generators.typescript
                && final(config).generators.rust == old(config).generators.rust,
        },
        final(config).generators.python == old(config).generators.python,
        final(config).generators.java == old(config).generators.java,
        final(config).output.directory@ == match options.output_override {
            Some(o) => o@,
            None => old(config).output.directory@,
        },
        final(config).fhir.version@ == match options.fhir_version_override {
            Some(v) => v@,
            None => old(config).fhir.version@,
        },
        final(config).fhir.packages@ == old(config).fhir.packages@ + options.additional_packages@,
        final(config).project == old(config).project,
        final(config).logging == old(config).logging,
{
    match &options.language_override {
        Some(lang) => {
            let lower = lowercase(lang.as_str());
            match overridden_generator(lower.as_str()) {
                Some(Language::TypeScript) => {
                    let mut ts = TypeScriptGeneratorConfig::default();
                    ts.enabled = true;
                    config.generators.typescript = Some(ts);
                },
                Some(_) => {
                    let mut rc = RustGeneratorConfig::default();
                    rc.enabled = true;
                    config.generators.rust = Some(rc);
                },
                None => {},
            }
        },
        None => {},
    }
    match &options.output_override {
        Some(o) => {
            config.output.directory = o.clone();
        },
        None => {},
    }
    match &options.fhir_version_override {
        Some(v) => {
            config.fhir.version = v.clone();
        },
        None => {},
    }
    let mut extra = copy_strings(&options.additional_packages);
    config.fhir.packages.append(&mut extra);
}

/// Some generator is present and enabled, in this order of preference.
pub open spec fn first_enabled_language(config: CodegenConfig) -> Option<Seq<char>> {
    let g = config.generators;
    if g.typescript is Some && g.typescript->Some_0.enabled {
        Some("TypeScript"@)
    } else if g.rust is Some && g.rust->Some_0.enabled {
        Some("Rust"@)
    } else if g.python is Some && g.python->Some_0.enabled {
        Some("Python"@)
    } else if g.java is Some && g.java->Some_0.enabled {
        Some("Java"@)
    } else {
        None
    }
}

/// The language to generate: the one given on the command line, else the
/// first enabled generator of TypeScript, Rust, Python and Java.
pub fn determine_language(config: &CodegenConfig, options: &GenerateOptions) -> (r: Result<String, String>)
    ensures
        match options.language_override {
            Some(l) => r is Ok && r->Ok_0 == l,
            None => match first_enabled_language(*config) {
                Some(name) => r is Ok && r->Ok_0@ == name,
                None => r is Err && r->Err_0@
                    == "No generator enabled. Enable at least one generator in the configuration."@,
            },
        },
{
    match &options.language_override {
        Some(l) => return Ok(l.clone()),
        None => {},
    }
    let g = &config.generators;
    let ts = match &g.typescript {
        Some(t) => t.enabled,
        None => false,
    };
    let rust = match &g.rust {
        Some(t) => t.enabled,
        None => false,
    };
    let python = match &g.python {
        Some(t) => t.enabled,
        None => false,
    };
    let java = match &g.java {
        Some(t) => t.enabled,
        None => false,
    };
    if ts {
        Ok("TypeScript".to_owned())
    } else if rust {
        Ok("Rust".to_owned())
    } else if python {
        Ok("Python".to_owned())
    } else if java {
        Ok("Java".to_owned())
    } else {
        Err("No generator enabled. Enable at least one generator in the configuration.".to_owned())
    }
}

/// The output directory: the one given on the command line, else the
/// configured one.
pub fn determine_output_dir(config: &CodegenConfig, options: &GenerateOptions) -> (r: Result<String, String>)
    ensures
        r is Ok && r->Ok_0 == match options.output_override {
            Some(o) => o,
            None => config.output.directory,
        },
{
    match &options.output_override {
        Some(o) => Ok(o.clone()),
        None => Ok(config.output.directory.clone()),
    }
}

/// The names of `b` that `a` also holds, in the order of `b`.
pub open spec fn shared_names(a: Seq<Seq<char>>, b: Seq<Seq<char>>) -> Seq<Seq<char>>
    decreases b.len(),
{
    if b.len() == 0 {
        Seq::empty()
    } else {
        let r = shared_names(a, b.drop_last());
        if a.contains(b.last()) {
            r.push(b.last())
        } else {
            r
        }
    }
}

/// Appends the names of `b` that `a` also holds, in the order of `b`.
fn push_shared_keys<V, W>(out: &mut Vec<String>, a: &TypeMap<V>, b: &TypeMap<W>)
    requires
        a.wf(),
    ensures
        final(out)@.map_values(|s: String| s@) == old(out)@.map_values(|s: String| s@) + shared_names(
            a.keys(),
            b.keys(),
        ),
{
    let n = b.len();
    let mut i: usize = 0;
    while i < n
        invariant
            a.wf(),
            n == b.keys().len(),
            i <= n,
            out@.map_values(|s: String| s@) == old(out)@.map_values(|s: String| s@) + shared_names(
                a.keys(),
                b.keys().subrange(0, i as int),
            ),
        decreases n - i,
    {
        assert(b.keys().subrange(0, i + 1).drop_last() =~= b.keys().subrange(0, i as int));
        let k = b.key_at(i);
        assert(b.keys()[i as int] == k@);
        if a.contains_key(k.as_str()) {
            let ghost before = out@;
            out.push(k.clone());
            assert(out@.map_values(|s: String| s@) =~= before.map_values(|s: String| s@).push(k@));
        }
        i = i + 1;
    }
    assert(b.keys().subrange(0, n as int) =~= b.keys());
}

/// The names that merging `other` into `base` would overwrite: resources,
/// then datatypes, then primitives, each in the order of `other`.
pub fn merge_collisions(base: &TypeGraph, other: &TypeGraph) -> (r: Vec<String>)
    requires
        base.wf(),
    ensures
        r@.map_values(|s: String| s@) == shared_names(base.resources.keys(), other.resources.keys())
            + shared_names(base.datatypes.keys(), other.datatypes.keys()) + shared_names(
            base.primitives.keys(),
            other.primitives.keys(),
        ),
{
    let mut r: Vec<String> = Vec::new();
    assert(r@.map_values(|s: String| s@) =~= Seq::<Seq<char>>::empty());
    push_shared_keys(&mut r, &base.resources, &other.resources);
    push_shared_keys(&mut r, &base.datatypes, &other.datatypes);
    push_shared_keys(&mut r, &base.primitives, &other.primitives);
    assert(r@.map_values(|s: String| s@) =~= shared_names(base.resources.keys(), other.resources.keys())
        + shared_names(base.datatypes.keys(), other.datatypes.keys()) + shared_names(
        base.primitives.keys(),
        other.primitives.keys(),
    ));
    r
}

/// Merges `other` into `base`: each resource, datatype and primitive of
/// `other` replaces the one of the same name in `base`; everything else of
/// `base` stays. Which names get replaced is what `merge_collisions` reports,
/// so that callers can warn of them.
pub fn merge_type_graphs(base: TypeGraph, other: TypeGraph) -> (r: Result<TypeGraph, Error>)
    requires
        base.wf(),
        other.wf(),
    ensures
        r is Ok,
        r->Ok_0.wf(),
        forall|k: Seq<char>|
            #[trigger] r->Ok_0.resources.spec_get(k) == if other.resources.keys().contains(k) {
                other.resources.spec_get(k)
            } else {
                base.resources.spec_get(k)
            },
        forall|k: Seq<char>|
            #[trigger] r->Ok_0.datatypes.spec_get(k) == if other.datatypes.keys().contains(k) {
                other.datatypes.spec_get(k)
            } else {
                base.datatypes.spec_get(k)
            },
        forall|k: Seq<char>|
            #[trigger] r->Ok_0.primitives.spec_get(k) == if other.primitives.keys().contains(k) {
                other.primitives.spec_get(k)
            } else {
                base.primitives.spec_get(k)
            },
        r->Ok_0.profiles == base.profiles,
        r->Ok_0.fhir_version == base.fhir_version,
        r->Ok_0.metadata == base.metadata,
{
    let mut base = base;
    let TypeGraph { resources, datatypes, primitives, .. } = other;
    base.resources.merge_from(resources);
    base.datatypes.merge_from(datatypes);
    base.primitives.merge_from(primitives);
    Ok(base)
}

/// Keeps the resources that the configuration includes (all, when it lists
/// none) and does not exclude.
pub fn filter_type_graph(type_graph: &mut TypeGraph, config: &CodegenConfig)
    requires
        old(type_graph).wf(),
    ensures
        final(type_graph).wf(),
        forall|k: Seq<char>|
            #[trigger] final(type_graph).resources.spec_get(k) == if (config.fhir.include_resources@.len()
                == 0 || config.fhir.include_resources@.map_values(|s: String| s@).contains(k))
                && !config.fhir.exclude_resources@.map_values(|s: String| s@).contains(k) {
                old(type_graph).resources.spec_get(k)
            } else {
                None
            },
        final(type_graph).datatypes == old(type_graph).datatypes,
        final(type_graph).primitives == old(type_graph).primitives,
        final(type_graph).profiles == old(type_graph).profiles,
        final(type_graph).fhir_version == old(type_graph).fhir_version,
        final(type_graph).metadata == old(type_graph).metadata,
{
    if config.fhir.include_resources.len() > 0 {
        type_graph.resources.retain_names(&config.fhir.include_resources, true);
    }
    if config.fhir.exclude_resources.len() > 0 {
        type_graph.resources.retain_names(&config.fhir.exclude_resources, false);
    }
    proof {
        if config.fhir.exclude_resources@.len() == 0 {
            assert(config.fhir.exclude_resources@.map_values(|s: String| s@) =~= Seq::<Seq<char>>::empty());
        }
    }
}

/// The path of the file of type `name` in directory `dir`.
pub open spec fn class_file_path(dir: Seq<char>, name: Seq<char>) -> Seq<char> {
    dir + "/"@ + name + ".ts"@
}

/// The file of type `name` in directory `dir`.
fn class_path(dir: &str, name: &str) -> (r: String)
    ensures
        r@ == class_file_path(dir@, name@),
{
    let mut p = dir.to_owned();
    p.append("/");
    p.append(name);
    p.append(".ts");
    p
}

/// The files of a TypeScript SDK for `graph`: the base classes, then one
/// class file per resource, then one per datatype, in map order.
pub fn typescript_sdk_files(graph: &TypeGraph, backend: &TypeScriptBackend) -> (r: Vec<GeneratedFile>)
    ensures
        r@.len() == 1 + graph.resources.spec_entries().len() + graph.datatypes.spec_entries().len(),
        r@[0].path@ == "base.ts"@,
        r@[0].content@ == all_base_classes_text(),
        r@[0].file_type == FileType::Other,
        forall|i: int| 0 <= i < graph.resources.spec_entries().len() ==> {
            let f = #[trigger] r@[1 + i];
            let e = graph.resources.spec_entries()[i];
            &&& f.path@ == class_file_path("resources"@, e.0@)
            &&& f.content@ == resource_class_text(e.1)
            &&& f.file_type == FileType::Resource
        },
        forall|i: int| 0 <= i < graph.datatypes.spec_entries().len() ==> {
            let f = #[trigger] r@[1 + graph.resources.spec_entries().len() + i];
            let e = graph.datatypes.spec_entries()[i];
            &&& f.path@ == class_file_path("datatypes"@, e.0@)
            &&& f.content@ == datatype_class_text(e.1)
            &&& f.file_type == FileType::DataType
        },
{
    let mut files: Vec<GeneratedFile> = Vec::new();
    let base = match BaseClassGenerator::generate_all_base_classes() {
        Ok(t) => t,
        Err(_) => String::new(),
    };
    files.push(GeneratedFile::new("base.ts".to_owned(), base, FileType::Other));
    let n = graph.resources.len();
    let mut i: usize = 0;
    while i < n
        invariant
            n == graph.resources.spec_entries().len(),
            i <= n,
            files@.len() == 1 + i,
            files@[0].path@ == "base.ts"@,
            files@[0].content@ == all_base_classes_text(),
            files@[0].file_type == FileType::Other,
            forall|j: int| 0 <= j < i ==> {
                let f = #[trigger] files@[1 + j];
                let e = graph.resources.spec_entries()[j];
                &&& f.path@ == class_file_path("resources"@, e.0@)
                &&& f.content@ == resource_class_text(e.1)
                &&& f.file_type == FileType::Resource
            },
        decreases n - i,
    {
        let name = graph.resources.key_at(i);
        let resource = graph.resources.value_at(i);
        let content = match ClassGenerator::generate_resource_class(resource, backend) {
            Ok(t) => t,
            Err(_) => String::new(),
        };
        files.push(GeneratedFile::new(class_path("resources", name.as_str()), content, FileType::Resource));
        i = i + 1;
    }
    let m = graph.datatypes.len();
    let mut i: usize = 0;
    while i < m
        invariant
            n == graph.resources.spec_entries().len(),
            m == graph.datatypes.spec_entries().len(),
            i <= m,
            files@.len() == 1 + n + i,
            files@[0].path@ == "base.ts"@,
            files@[0].content@ == all_base_classes_text(),
            files@[0].file_type == FileType::Other,
            forall|j: int| 0 <= j < n ==> {
                let f = #[trigger] files@[1 + j];
                let e = graph.resources.spec_entries()[j];
                &&& f.path@ == class_file_path("resources"@, e.0@)
                &&& f.content@ == resource_class_text(e.1)
                &&& f.file_type == FileType::Resource
            },
            forall|j: int| 0 <= j < i ==> {
                let f = #[trigger] files@[1 + n + j];
                let e = graph.datatypes.spec_entries()[j];
                &&& f.path@ == class_file_path("datatypes"@, e.0@)
                &&& f.content@ == datatype_class_text(e.1)
                &&& f.file_type == FileType::DataType
            },
        decreases m - i,
    {
        let name = graph.datatypes.key_at(i);
        let datatype = graph.datatypes.value_at(i);
        let content = match ClassGenerator::generate_datatype_class(datatype, backend) {
            Ok(t) => t,
            Err(_) => String::new(),
        };
        let ghost before = files@;
        files.push(GeneratedFile::new(class_path("datatypes", name.as_str()), content, FileType::DataType));
        assert forall|j: int| 0 <= j < n implies #[trigger] files@[1 + j] == before[1 + j] by {}
        i = i + 1;
    }
    files
}

} // verus!
