//! Shared vocabulary of the code generators: target languages, identifier
//! contexts, generated files and generator capabilities.

use vstd::prelude::*;
use crate::casing::{lowercase, str_lowercase};
use crate::error::Error;
use crate::ir::{Documentation, PropertyType, TypeMap};
use crate::json::Json;
use crate::text::{byte_len, str_eq, utf8_len};

verus! {

/// Supported target languages.
#[derive(Debug, Clone, Copy, PartialEq, Eq, Structural, Hash)]
pub enum Language {
    TypeScript,
    Rust,
    Python,
    Java,
    Go,
}

/// The display name of a language.
pub open spec fn language_name(l: Language) -> Seq<char> {
    match l {
        Language::TypeScript => "TypeScript"@,
        Language::Rust => "Rust"@,
        Language::Python => "Python"@,
        Language::Java => "Java"@,
        Language::Go => "Go"@,
    }
}

/// The language that a lowercase name or short name denotes.
pub open spec fn language_of(s: Seq<char>) -> Option<Language> {
    if s == "typescript"@ || s == "ts"@ {
        Some(Language::TypeScript)
    } else if s == "rust"@ || s == "rs"@ {
        Some(Language::Rust)
    } else if s == "python"@ || s == "py"@ {
        Some(Language::Python)
    } else if s == "java"@ {
        Some(Language::Java)
    } else if s == "go"@ || s == "golang"@ {
        Some(Language::Go)
    } else {
        None
    }
}

impl Language {
    /// The display name of this language.
    pub fn to_string(&self) -> (r: String)
        ensures
            r@ == language_name(*self),
    {
        match self {
            Language::TypeScript => "TypeScript".to_owned(),
            Language::Rust => "Rust".to_owned(),
            Language::Python => "Python".to_owned(),
            Language::Java => "Java".to_owned(),
            Language::Go => "Go".to_owned(),
        }
    }

    /// The language that `s` names, case-insensitively; an unknown name is
    /// an error.
    pub fn parse_name(s: &str) -> (r: Result<Language, Error>)
        ensures
            match language_of(str_lowercase(s@)) {
                Some(l) => r == Ok::<Language, Error>(l),
                None => r is Err && r->Err_0 is Generator
                    && r->Err_0->Generator_0@ == "Unknown language: "@ + s@,
            },
    {
        let lower = lowercase(s);
        match Language::from_lowercase(lower.as_str()) {
            Some(l) => Ok(l),
            None => {
                let mut m = "Unknown language: ".to_owned();
                m.append(s);
                Err(Error::Generator(m))
            },
        }
    }

    /// The language that a lowercase name or short name denotes.
    pub fn from_lowercase(l: &str) -> (r: Option<Language>)
        ensures
            r == language_of(l@),
    {
        if str_eq(l, "typescript") || str_eq(l, "ts") {
            Some(Language::TypeScript)
        } else if str_eq(l, "rust") || str_eq(l, "rs") {
            Some(Language::Rust)
        } else if str_eq(l, "python") || str_eq(l, "py") {
            Some(Language::Python)
        } else if str_eq(l, "java") {
            Some(Language::Java)
        } else if str_eq(l, "go") || str_eq(l, "golang") {
            Some(Language::Go)
        } else {
            None
        }
    }
}

impl std::str::FromStr for Language {
    type Err = Error;

    fn from_str(s: &str) -> Result<Language, Error> {
        Language::parse_name(s)
    }
}

/// Where an identifier is used.
#[derive(Debug, Clone, Copy, PartialEq, Eq, Structural)]
pub enum IdentifierContext {
    TypeName,
    FieldName,
    FunctionName,
    ConstantName,
    VariableName,
}

/// Kind of a generated file.
#[derive(Debug, Clone, Copy, PartialEq, Eq, Structural)]
pub enum FileType {
    Resource,
    DataType,
    Primitive,
    Profile,
    Helper,
    Validation,
    Test,
    Documentation,
    Manifest,
    Index,
    Other,
}

/// A generated file: its path, content and kind.
#[derive(Debug)]
pub struct GeneratedFile {
    pub path: String,
    pub content: String,
    pub file_type: FileType,
}

impl GeneratedFile {
    /// A file with the given path, content and kind.
    pub fn new(path: String, content: String, file_type: FileType) -> (r: Self)
        ensures
            r.path == path,
            r.content == content,
            r.file_type == file_type,
    {
        GeneratedFile { path, content, file_type }
    }
}

/// What a generator can produce.
#[derive(Debug, Clone, Copy, PartialEq, Eq, Structural)]
pub struct GeneratorCapabilities {
    pub validation: bool,
    pub helpers: bool,
    pub tests: bool,
    pub documentation: bool,
    pub search_parameters: bool,
    pub profiles: bool,
    pub extensions: bool,
}

impl Default for GeneratorCapabilities {
    /// No capability.
    fn default() -> (r: Self)
        ensures
            !r.validation && !r.helpers && !r.tests && !r.documentation && !r.search_parameters
                && !r.profiles && !r.extensions,
    {
        GeneratorCapabilities {
            validation: false,
            helpers: false,
            tests: false,
            documentation: false,
            search_parameters: false,
            profiles: false,
            extensions: false,
        }
    }
}

/// Options shared by the generators.
#[derive(Debug)]
pub struct GeneratorConfig {
    pub output_dir: String,
    pub module_name: Option<String>,
    pub emit_validation: bool,
    pub emit_helpers: bool,
    pub emit_tests: bool,
    pub package_version: String,
    pub clean_output: bool,
    pub custom_options: TypeMap<Json>,
}

impl Default for GeneratorConfig {
    /// Output to `./generated`, with validation and helpers, without tests,
    /// package version 1.0.0, no custom options.
    fn default() -> (r: Self)
        ensures
            r.output_dir@ == "./generated"@,
            r.module_name is None,
            r.emit_validation && r.emit_helpers && !r.emit_tests && !r.clean_output,
            r.package_version@ == "1.0.0"@,
            r.custom_options.wf() && r.custom_options.spec_entries().len() == 0,
    {
        GeneratorConfig {
            output_dir: "./generated".to_owned(),
            module_name: None,
            emit_validation: true,
            emit_helpers: true,
            emit_tests: false,
            package_version: "1.0.0".to_owned(),
            clean_output: false,
            custom_options: TypeMap::new(),
        }
    }
}

impl GeneratorConfig {
    /// The custom option stored under `key`.
    pub fn get_custom(&self, key: &str) -> (r: Option<&Json>)
        requires
            self.custom_options.wf(),
        ensures
            r.is_some() == self.custom_options.keys().contains(key@),
            r.is_some() ==> self.custom_options.spec_get(key@) == Some(*r.unwrap()),
    {
        self.custom_options.get(key)
    }

    /// Stores a custom option under `key`, replacing an earlier one.
    pub fn set_custom(&mut self, key: String, value: Json)
        requires
            old(self).custom_options.wf(),
        ensures
            final(self).custom_options.wf(),
            final(self).custom_options.spec_get(key@) == Some(value),
            forall|k: Seq<char>| k != key@ ==> final(self).custom_options.spec_get(k)
                == old(self).custom_options.spec_get(k),
    {
        self.custom_options.insert(key, value);
    }
}

/// Metadata of a generator.
#[derive(Debug)]
pub struct GeneratorMetadata {
    pub name: String,
    pub version: String,
    pub language: Language,
    pub description: String,
    pub author: String,
    pub capabilities: GeneratorCapabilities,
}

/// How many types of each kind were generated.
#[derive(Debug, Clone, Copy, PartialEq, Eq, Structural)]
pub struct GenerationStatistics {
    pub resources: usize,
    pub datatypes: usize,
    pub primitives: usize,
    pub profiles: usize,
    pub total_files: usize,
    pub total_lines: usize,
    pub generation_time_ms: u64,
}

impl Default for GenerationStatistics {
    /// All counts zero.
    fn default() -> (r: Self)
        ensures
            r.resources == 0 && r.datatypes == 0 && r.primitives == 0 && r.profiles == 0,
            r.total_files == 0 && r.total_lines == 0 && r.generation_time_ms == 0,
    {
        GenerationStatistics {
            resources: 0,
            datatypes: 0,
            primitives: 0,
            profiles: 0,
            total_files: 0,
            total_lines: 0,
            generation_time_ms: 0,
        }
    }
}

/// The record of one generation run.
#[derive(Debug)]
pub struct GenerationManifest {
    pub generated_at: String,
    pub generator: GeneratorMetadata,
    pub config: GeneratorConfig,
    pub statistics: GenerationStatistics,
    pub warnings: Vec<String>,
}

/// The files of one generation run and its manifest.
#[derive(Debug)]
pub struct GeneratedCode {
    pub files: Vec<GeneratedFile>,
    pub manifest: GenerationManifest,
}

/// The number of UTF-8 bytes of the contents of `files`.
pub open spec fn content_size(files: Seq<GeneratedFile>) -> nat
    decreases files.len(),
{
    if files.len() == 0 {
        0
    } else {
        content_size(files.drop_last()) + utf8_len(files.last().content@)
    }
}

impl GeneratedCode {
    /// Generated files with their manifest.
    pub fn new(files: Vec<GeneratedFile>, manifest: GenerationManifest) -> (r: Self)
        ensures
            r.files == files,
            r.manifest == manifest,
    {
        GeneratedCode { files, manifest }
    }

    /// The number of files.
    pub fn file_count(&self) -> (r: usize)
        ensures
            r == self.files@.len(),
    {
        self.files.len()
    }

    /// The size in bytes of all file contents together.
    pub fn total_size(&self) -> (r: usize)
        requires
            content_size(self.files@) <= usize::MAX,
        ensures
            r == content_size(self.files@),
    {
        let mut total: u128 = 0;
        let mut i: usize = 0;
        while i < self.files.len()
            invariant
                i <= self.files@.len(),
                total == content_size(self.files@.subrange(0, i as int)),
                content_size(self.files@) <= usize::MAX,
            decreases self.files.len() - i,
        {
            assert(self.files@.subrange(0, i + 1).drop_last() =~= self.files@.subrange(0, i as int));
            proof {
                lemma_content_size_prefix(self.files@, i as int + 1);
            }
            total = total + byte_len(self.files[i].content.as_str());
            i = i + 1;
        }
        assert(self.files@.subrange(0, self.files@.len() as int) =~= self.files@);
        total as usize
    }
}

/// The size of a prefix is at most the size of the whole.
proof fn lemma_content_size_prefix(files: Seq<GeneratedFile>, n: int)
    requires
        0 <= n <= files.len(),
    ensures
        content_size(files.subrange(0, n)) <= content_size(files),
    decreases files.len(),
{
    if n < files.len() {
        assert(files.drop_last().subrange(0, n) =~= files.subrange(0, n));
        lemma_content_size_prefix(files.drop_last(), n);
    } else {
        assert(files.subrange(0, n) =~= files);
    }
}

/// A target language's mapping of IR types and names.
pub trait LanguageBackend {
    /// The target type of a property type.
    fn map_type(&self, property_type: &PropertyType) -> String;

    /// Import statements for the given dependencies.
    fn generate_imports(&self, dependencies: &[String]) -> Vec<String>;

    /// An identifier formatted for its context.
    fn format_identifier(&self, name: &str, context: IdentifierContext) -> String;

    /// Documentation comment lines.
    fn generate_doc_comment(&self, doc: &Documentation) -> Vec<String>;

    /// The extension of generated files.
    fn file_extension(&self) -> &str;

    /// Formats generated code; by default the code is left as it is.
    fn format_code(&self, code: &str) -> Result<String, Error> {
        Ok(code.to_owned())
    }
}

} // verus!
