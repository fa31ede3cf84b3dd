//! Project configuration of the command-line tool (`codegen.toml`): defaults,
//! validation, merging and per-language templates.

use vstd::prelude::*;
use crate::casing::{lowercase, str_lowercase};
use crate::ir::TypeMap;
use crate::json::Json;
use crate::text::str_eq;

verus! {

/// Project configuration.
#[derive(Debug)]
pub struct CodegenConfig {
    pub project: ProjectConfig,
    pub fhir: FhirConfig,
    pub output: OutputConfig,
    pub generators: GeneratorsConfig,
    pub canonical_manager: Option<CanonicalManagerConfig>,
    pub logging: LoggingConfig,
}

/// Project metadata.
#[derive(Debug)]
pub struct ProjectConfig {
    pub name: String,
    pub version: String,
    pub description: Option<String>,
    pub authors: Vec<String>,
    pub license: Option<String>,
    pub repository: Option<String>,
}

/// Which FHIR packages and types to generate.
#[derive(Debug)]
pub struct FhirConfig {
    pub version: String,
    pub packages: Vec<String>,
    pub include_resources: Vec<String>,
    pub exclude_resources: Vec<String>,
    pub include_profiles: Vec<String>,
    pub include_extensions: Vec<String>,
    pub core_only: bool,
}

/// Where output goes.
#[derive(Debug)]
pub struct OutputConfig {
    pub directory: String,
    pub clean: bool,
    pub create_if_missing: bool,
    pub overwrite: bool,
}

/// The settings of each generator, where given.
#[derive(Debug)]
pub struct GeneratorsConfig {
    pub typescript: Option<TypeScriptGeneratorConfig>,
    pub rust: Option<RustGeneratorConfig>,
    pub python: Option<PythonGeneratorConfig>,
    pub java: Option<JavaGeneratorConfig>,
}

/// TypeScript generator settings.
#[derive(Debug)]
pub struct TypeScriptGeneratorConfig {
    pub enabled: bool,
    pub module_name: Option<String>,
    pub emit_validation: bool,
    pub emit_helpers: bool,
    pub emit_tests: bool,
    pub target_version: String,
    pub type_mappings: TypeMap<String>,
    pub compiler_options: TypeMap<Json>,
}

/// Rust generator settings.
#[derive(Debug)]
pub struct RustGeneratorConfig {
    pub enabled: bool,
    pub crate_name: Option<String>,
    pub emit_validation: bool,
    pub emit_helpers: bool,
    pub emit_tests: bool,
    pub edition: String,
    pub additional_derives: Vec<String>,
}

/// Python generator settings.
#[derive(Debug)]
pub struct PythonGeneratorConfig {
    pub enabled: bool,
    pub package_name: Option<String>,
    pub use_pydantic: bool,
    pub generate_stubs: bool,
    pub target_version: String,
}

/// Java generator settings.
#[derive(Debug)]
pub struct JavaGeneratorConfig {
    pub enabled: bool,
    pub package_name: Option<String>,
    pub target_version: String,
    pub use_jackson: bool,
    pub emit_validation: bool,
}

/// Canonical manager settings.
#[derive(Debug)]
pub struct CanonicalManagerConfig {
    pub config_path: Option<String>,
    pub registry_url: Option<String>,
    pub cache_dir: Option<String>,
    pub offline: bool,
}

/// Logging settings.
#[derive(Debug)]
pub struct LoggingConfig {
    pub level: String,
    pub format: String,
    pub color: bool,
    pub file: Option<String>,
}

/// The default project name.
pub fn default_project_name() -> (r: String)
    ensures
        r@ == "fhir-sdk"@,
{
    "fhir-sdk".to_owned()
}

/// The default project version.
pub fn default_version() -> (r: String)
    ensures
        r@ == "0.1.0"@,
{
    "0.1.0".to_owned()
}

/// The default FHIR version.
pub fn default_fhir_version() -> (r: String)
    ensures
        r@ == "R4"@,
{
    "R4".to_owned()
}

/// The default output directory.
pub fn default_output_directory() -> (r: String)
    ensures
        r@ == "./generated"@,
{
    "./generated".to_owned()
}

/// The default of a flag that is on unless said otherwise.
pub fn default_true() -> (r: bool)
    ensures
        r,
{
    true
}

/// The default TypeScript version.
pub fn default_ts_version() -> (r: String)
    ensures
        r@ == "5.3"@,
{
    "5.3".to_owned()
}

/// The default Rust edition.
pub fn default_rust_edition() -> (r: String)
    ensures
        r@ == "2024"@,
{
    "2024".to_owned()
}

/// The default Python version.
pub fn default_python_version() -> (r: String)
    ensures
        r@ == "3.11"@,
{
    "3.11".to_owned()
}

/// The default Java version.
pub fn default_java_version() -> (r: String)
    ensures
        r@ == "17"@,
{
    "17".to_owned()
}

/// The default log level.
pub fn default_log_level() -> (r: String)
    ensures
        r@ == "info"@,
{
    "info".to_owned()
}

/// The default log format.
pub fn default_log_format() -> (r: String)
    ensures
        r@ == "pretty"@,
{
    "pretty".to_owned()
}

impl Default for ProjectConfig {
    /// Project `fhir-sdk` version 0.1.0, nothing else set.
    fn default() -> (r: Self)
        ensures
            r.name@ == "fhir-sdk"@ && r.version@ == "0.1.0"@,
            r.description is None && r.authors@.len() == 0 && r.license is None && r.repository is None,
    {
        ProjectConfig {
            name: default_project_name(),
            version: default_version(),
            description: None,
            authors: Vec::new(),
            license: None,
            repository: None,
        }
    }
}

impl Default for FhirConfig {
    /// FHIR R4, no packages or filters.
    fn default() -> (r: Self)
        ensures
            r.version@ == "R4"@,
            r.packages@.len() == 0 && r.include_resources@.len() == 0 && r.exclude_resources@.len() == 0,
            r.include_profiles@.len() == 0 && r.include_extensions@.len() == 0 && !r.core_only,
    {
        FhirConfig {
            version: default_fhir_version(),
            packages: Vec::new(),
            include_resources: Vec::new(),
            exclude_resources: Vec::new(),
            include_profiles: Vec::new(),
            include_extensions: Vec::new(),
            core_only: false,
        }
    }
}

impl Default for OutputConfig {
    /// `./generated`, cleaned, created and overwritten.
    fn default() -> (r: Self)
        ensures
            r.directory@ == "./generated"@ && r.clean && r.create_if_missing && r.overwrite,
    {
        OutputConfig {
            directory: default_output_directory(),
            clean: true,
            create_if_missing: true,
            overwrite: true,
        }
    }
}

impl Default for GeneratorsConfig {
    /// No generator settings.
    fn default() -> (r: Self)
        ensures
            r.typescript is None && r.rust is None && r.python is None && r.java is None,
    {
        GeneratorsConfig { typescript: None, rust: None, python: None, java: None }
    }
}

impl Default for TypeScriptGeneratorConfig {
    /// Enabled, with validation and helpers, without tests, TypeScript 5.3.
    fn default() -> (r: Self)
        ensures
            r.enabled && r.module_name is None && r.emit_validation && r.emit_helpers && !r.emit_tests,
            r.target_version@ == "5.3"@,
            r.type_mappings.wf() && r.type_mappings.spec_entries().len() == 0,
            r.compiler_options.wf() && r.compiler_options.spec_entries().len() == 0,
    {
        TypeScriptGeneratorConfig {
            enabled: true,
            module_name: None,
            emit_validation: true,
            emit_helpers: true,
            emit_tests: false,
            target_version: default_ts_version(),
            type_mappings: TypeMap::new(),
            compiler_options: TypeMap::new(),
        }
    }
}

impl Default for RustGeneratorConfig {
    /// Disabled, with validation and helpers, edition 2024.
    fn default() -> (r: Self)
        ensures
            !r.enabled && r.crate_name is None && r.emit_validation && r.emit_helpers && !r.emit_tests,
            r.edition@ == "2024"@ && r.additional_derives@.len() == 0,
    {
        RustGeneratorConfig {
            enabled: false,
            crate_name: None,
            emit_validation: true,
            emit_helpers: true,
            emit_tests: false,
            edition: default_rust_edition(),
            additional_derives: Vec::new(),
        }
    }
}

impl Default for PythonGeneratorConfig {
    /// Disabled, with pydantic and stubs, Python 3.11.
    fn default() -> (r: Self)
        ensures
            !r.enabled && r.package_name is None && r.use_pydantic && r.generate_stubs,
            r.target_version@ == "3.11"@,
    {
        PythonGeneratorConfig {
            enabled: false,
            package_name: None,
            use_pydantic: true,
            generate_stubs: true,
            target_version: default_python_version(),
        }
    }
}

impl Default for JavaGeneratorConfig {
    /// Disabled, with Jackson and validation, Java 17.
    fn default() -> (r: Self)
        ensures
            !r.enabled && r.package_name is None && r.use_jackson && r.emit_validation,
            r.target_version@ == "17"@,
    {
        JavaGeneratorConfig {
            enabled: false,
            package_name: None,
            target_version: default_java_version(),
            use_jackson: true,
            emit_validation: true,
        }
    }
}

impl Default for LoggingConfig {
    /// Level `info`, format `pretty`, in color, to no file.
    fn default() -> (r: Self)
        ensures
            r.level@ == "info"@ && r.format@ == "pretty"@ && r.color && r.file is None,
    {
        LoggingConfig { level: default_log_level(), format: default_log_format(), color: true, file: None }
    }
}

impl Default for CodegenConfig {
    /// Every section at its default, no canonical manager settings.
    fn default() -> (r: Self)
        ensures
            r.fhir.version@ == "R4"@,
            r.output.directory@ == "./generated"@,
            r.project.name@ == "fhir-sdk"@,
            r.generators.typescript is None && r.generators.rust is None,
            r.generators.python is None && r.generators.java is None,
            r.canonical_manager is None,
            r.logging.level@ == "info"@ && r.logging.format@ == "pretty"@,
            r.fhir.packages@.len() == 0,
    {
        CodegenConfig {
            project: ProjectConfig::default(),
            fhir: FhirConfig::default(),
            output: OutputConfig::default(),
            generators: GeneratorsConfig::default(),
            canonical_manager: None,
            logging: LoggingConfig::default(),
        }
    }
}

/// The number of `.` in `s`.
pub open spec fn dot_count(s: Seq<char>) -> nat
    decreases s.len(),
{
    if s.len() == 0 {
        0
    } else {
        dot_count(s.drop_last()) + if s.last() == '.' { 1nat } else { 0nat }
    }
}

/// Why `v` is no semantic version (more than three dot-separated parts).
pub open spec fn semver_error(v: Seq<char>) -> Option<Seq<char>> {
    if dot_count(v) >= 3 {
        Some(
            "Invalid version format: '"@ + v + "'. Expected semantic versioning (e.g., '1.0.0' or '5.3')"@,
        )
    } else {
        None
    }
}

/// Some generator is present and enabled.
pub open spec fn has_enabled_generator(g: GeneratorsConfig) -> bool {
    (g.typescript is Some && g.typescript->Some_0.enabled) || (g.rust is Some && g.rust->Some_0.enabled)
        || (g.python is Some && g.python->Some_0.enabled) || (g.java is Some && g.java->Some_0.enabled)
}

/// A warning for each non-empty package without `@version`.
pub open spec fn package_warnings(ps: Seq<String>) -> Seq<Seq<char>>
    decreases ps.len(),
{
    if ps.len() == 0 {
        Seq::empty()
    } else {
        let p = ps.last()@;
        let rest = package_warnings(ps.drop_last());
        if !p.contains('@') && p.len() > 0 {
            rest.push("Package '"@ + p + "' may be missing version. Expected format: 'package@version'"@)
        } else {
            rest
        }
    }
}

/// A one-element sequence when `b` holds, else an empty one.
pub open spec fn when(b: bool, x: Seq<char>) -> Seq<Seq<char>> {
    if b {
        seq![x]
    } else {
        Seq::empty()
    }
}

/// The warnings of a configuration that passes the checks.
pub open spec fn config_warnings(c: CodegenConfig) -> Seq<Seq<char>> {
    let g = c.generators;
    when(!has_enabled_generator(g), "No generators are enabled. Enable at least one generator."@)
        + package_warnings(c.fhir.packages@) + when(
        c.fhir.include_resources@.len() > 0 && c.fhir.exclude_resources@.len() > 0,
        "Both include_resources and exclude_resources are set. exclude_resources will be applied after include_resources. Consider using only include_resources for clarity."@,
    ) + (match g.typescript {
        Some(t) => if t.enabled && semver_error(t.target_version@) is Some {
            seq!["TypeScript target_version: "@ + semver_error(t.target_version@)->Some_0]
        } else {
            Seq::empty()
        },
        None => Seq::empty(),
    }) + (match g.python {
        Some(py) => if py.enabled && semver_error(py.target_version@) is Some {
            seq!["Python target_version: "@ + semver_error(py.target_version@)->Some_0]
        } else {
            Seq::empty()
        },
        None => Seq::empty(),
    }) + when(
        g.java is Some && g.java->Some_0.enabled && g.java->Some_0.package_name is None,
        "Java generator enabled but package_name is not set"@,
    )
}

/// The log levels.
pub open spec fn is_log_level(l: Seq<char>) -> bool {
    l == "trace"@ || l == "debug"@ || l == "info"@ || l == "warn"@ || l == "error"@
}

/// The log formats.
pub open spec fn is_log_format(f: Seq<char>) -> bool {
    f == "pretty"@ || f == "json"@ || f == "compact"@
}

/// The Rust editions.
pub open spec fn is_rust_edition(e: Seq<char>) -> bool {
    e == "2015"@ || e == "2018"@ || e == "2021"@ || e == "2024"@
}

/// The outcome of validating `c`: the first error, or the warnings.
pub open spec fn validation_spec(c: CodegenConfig) -> Result<Seq<Seq<char>>, Seq<char>> {
    let v = c.fhir.version@;
    let level = str_lowercase(c.logging.level@);
    let format = str_lowercase(c.logging.format@);
    if !(v == "R4"@ || v == "R5"@ || v == "R6"@) {
        Err("Invalid FHIR version: '"@ + v + "'. Must be one of: R4, R5, R6"@)
    } else if c.output.directory@.len() == 0 {
        Err("Output directory cannot be empty"@)
    } else if !is_log_level(level) {
        Err("Invalid log level: '"@ + level + "'. Must be one of: trace, debug, info, warn, error"@)
    } else if !is_log_format(format) {
        Err("Invalid log format: '"@ + format + "'. Must be one of: pretty, json, compact"@)
    } else if c.generators.rust is Some && c.generators.rust->Some_0.enabled && !is_rust_edition(
        c.generators.rust->Some_0.edition@,
    ) {
        Err(
            "Invalid Rust edition: '"@ + c.generators.rust->Some_0.edition@
                + "'. Must be one of: 2015, 2018, 2021, 2024"@,
        )
    } else {
        Ok(config_warnings(c))
    }
}

/// Does `s` hold `c`?
fn contains_char(s: &str, c: char) -> (r: bool)
    ensures
        r == s@.contains(c),
{
    let n = s.unicode_len();
    let mut i: usize = 0;
    while i < n
        invariant
            n == s@.len(),
            i <= n,
            forall|j: int| 0 <= j < i ==> s@[j] != c,
        decreases n - i,
    {
        if s.get_char(i) == c {
            return true;
        }
        i = i + 1;
    }
    false
}

/// Appends `s` to `v`.
fn push_text(v: &mut Vec<String>, s: String)
    ensures
        final(v)@.map_values(|x: String| x@) == old(v)@.map_values(|x: String| x@) + seq![s@],
{
    v.push(s);
    assert(v@.map_values(|x: String| x@) =~= old(v)@.map_values(|x: String| x@) + seq![s@]);
}

impl CodegenConfig {
    /// Checks a version for semantic versioning: at most three parts.
    pub fn validate_semver(version: &str) -> (r: Result<(), String>)
        ensures
            match semver_error(version@) {
                Some(m) => r is Err && r->Err_0@ == m,
                None => r is Ok,
            },
    {
        let n = version.unicode_len();
        let mut dots: usize = 0;
        let mut i: usize = 0;
        while i < n
            invariant
                n == version@.len(),
                i <= n,
                dots == dot_count(version@.subrange(0, i as int)),
                dots <= i,
            decreases n - i,
        {
            assert(version@.subrange(0, i + 1).drop_last() =~= version@.subrange(0, i as int));
            if version.get_char(i) == '.' {
                dots = dots + 1;
            }
            i = i + 1;
        }
        assert(version@.subrange(0, n as int) =~= version@);
        if dots >= 3 {
            let mut m = "Invalid version format: '".to_owned();
            m.append(version);
            m.append("'. Expected semantic versioning (e.g., '1.0.0' or '5.3')");
            Err(m)
        } else {
            Ok(())
        }
    }

    /// Validates the configuration: the first error found, else the
    /// warnings.
    #[verifier::rlimit(40)]
    pub fn validate(&self) -> (r: Result<Vec<String>, String>)
        ensures
            match validation_spec(*self) {
                Ok(ws) => r is Ok && r->Ok_0@.map_values(|x: String| x@) == ws,
                Err(m) => r is Err && r->Err_0@ == m,
            },
    {
        let v = self.fhir.version.as_str();
        if !(str_eq(v, "R4") || str_eq(v, "R5") || str_eq(v, "R6")) {
            let mut m = "Invalid FHIR version: '".to_owned();
            m.append(v);
            m.append("'. Must be one of: R4, R5, R6");
            return Err(m);
        }
        let warnings = self.collect_warnings();
        if self.output.directory.unicode_len() == 0 {
            return Err("Output directory cannot be empty".to_owned());
        }
        let level = lowercase(self.logging.level.as_str());
        let l = level.as_str();
        if !is_log_level_name(l) {
            let mut m = "Invalid log level: '".to_owned();
            m.append(l);
            m.append("'. Must be one of: trace, debug, info, warn, error");
            return Err(m);
        }
        let format = lowercase(self.logging.format.as_str());
        let f = format.as_str();
        if !is_log_format_name(f) {
            let mut m = "Invalid log format: '".to_owned();
            m.append(f);
            m.append("'. Must be one of: pretty, json, compact");
            return Err(m);
        }
        match &self.generators.rust {
            Some(rc) => {
                if rc.enabled {
                    let e = rc.edition.as_str();
                    if !(str_eq(e, "2015") || str_eq(e, "2018") || str_eq(e, "2021") || str_eq(e, "2024")) {
                        let mut m = "Invalid Rust edition: '".to_owned();
                        m.append(e);
                        m.append("'. Must be one of: 2015, 2018, 2021, 2024");
                        return Err(m);
                    }
                }
            },
            None => {},
        }
        Ok(warnings)
    }

    /// The warnings of the configuration, in the order the checks run.
    fn collect_warnings(&self) -> (r: Vec<String>)
        ensures
            r@.map_values(|x: String| x@) == config_warnings(*self),
    {
        let mut warnings: Vec<String> = Vec::new();
        let g = &self.generators;
        let enabled = match &g.typescript {
            Some(t) => t.enabled,
            None => false,
        } || match &g.rust {
            Some(t) => t.enabled,
            None => false,
        } || match &g.python {
            Some(t) => t.enabled,
            None => false,
        } || match &g.java {
            Some(t) => t.enabled,
            None => false,
        };
        if !enabled {
            push_text(&mut warnings, "No generators are enabled. Enable at least one generator.".to_owned());
        }
        assert(warnings@.map_values(|x: String| x@) =~= when(
            !has_enabled_generator(*g),
            "No generators are enabled. Enable at least one generator."@,
        ));
        let ghost head = warnings@.map_values(|x: String| x@);
        let ps = &self.fhir.packages;
        let mut i: usize = 0;
        while i < ps.len()
            invariant
                i <= ps@.len(),
                warnings@.map_values(|x: String| x@) == head + package_warnings(ps@.subrange(0, i as int)),
            decreases ps.len() - i,
        {
            assert(ps@.subrange(0, i + 1).drop_last() =~= ps@.subrange(0, i as int));
            let p = ps[i].as_str();
            if !contains_char(p, '@') && p.unicode_len() > 0 {
                let mut m = "Package '".to_owned();
                m.append(p);
                m.append("' may be missing version. Expected format: 'package@version'");
                push_text(&mut warnings, m);
            }
            i = i + 1;
        }
        assert(ps@.subrange(0, ps@.len() as int) =~= ps@);
        let ghost w2 = warnings@.map_values(|x: String| x@);
        if self.fhir.include_resources.len() > 0 && self.fhir.exclude_resources.len() > 0 {
            push_text(&mut warnings, "Both include_resources and exclude_resources are set. exclude_resources will be applied after include_resources. Consider using only include_resources for clarity.".to_owned());
        }
        assert(warnings@.map_values(|x: String| x@) =~= w2 + when(
            self.fhir.include_resources@.len() > 0 && self.fhir.exclude_resources@.len() > 0,
            "Both include_resources and exclude_resources are set. exclude_resources will be applied after include_resources. Consider using only include_resources for clarity."@,
        ));
        let ghost w3 = warnings@.map_values(|x: String| x@);
        match &g.typescript {
            Some(t) => {
                if t.enabled {
                    match Self::validate_semver(t.target_version.as_str()) {
                        Err(e) => {
                            let mut m = "TypeScript target_version: ".to_owned();
                            m.append(e.as_str());
                            push_text(&mut warnings, m);
                        },
                        Ok(()) => {},
                    }
                }
            },
            None => {},
        }
        let ghost w4 = warnings@.map_values(|x: String| x@);
        assert(w4 =~= w3 + (match g.typescript {
            Some(t) => if t.enabled && semver_error(t.target_version@) is Some {
                seq!["TypeScript target_version: "@ + semver_error(t.target_version@)->Some_0]
            } else {
                Seq::empty()
            },
            None => Seq::empty(),
        }));
        match &g.python {
            Some(py) => {
                if py.enabled {
                    match Self::validate_semver(py.target_version.as_str()) {
                        Err(e) => {
                            let mut m = "Python target_version: ".to_owned();
                            m.append(e.as_str());
                            push_text(&mut warnings, m);
                        },
                        Ok(()) => {},
                    }
                }
            },
            None => {},
        }
        let ghost w5 = warnings@.map_values(|x: String| x@);
        assert(w5 =~= w4 + (match g.python {
            Some(py) => if py.enabled && semver_error(py.target_version@) is Some {
                seq!["Python target_version: "@ + semver_error(py.target_version@)->Some_0]
            } else {
                Seq::empty()
            },
            None => Seq::empty(),
        }));
        match &g.java {
            Some(j) => {
                if j.enabled && j.package_name.is_none() {
                    push_text(&mut warnings, "Java generator enabled but package_name is not set".to_owned());
                }
            },
            None => {},
        }
        assert(warnings@.map_values(|x: String| x@) =~= w5 + when(
            g.java is Some && g.java->Some_0.enabled && g.java->Some_0.package_name is None,
            "Java generator enabled but package_name is not set"@,
        ));
        warnings
    }
}

/// The generator template that a lowercase language name selects.
pub open spec fn template_kind(l: Seq<char>) -> Option<int> {
    if l == "typescript"@ || l == "ts"@ {
        Some(0)
    } else if l == "rust"@ || l == "rs"@ {
        Some(1)
    } else if l == "python"@ || l == "py"@ {
        Some(2)
    } else if l == "java"@ {
        Some(3)
    } else if l == "multi"@ || l == "all"@ {
        Some(4)
    } else {
        None
    }
}

/// The Java package of the templates.
pub open spec fn template_java_package() -> Seq<char> {
    "com.example.fhir.r4"@
}

impl CodegenConfig {
    /// Merges `other` into `self`: its packages are appended, its FHIR
    /// version and output directory replace ours where they are not the
    /// defaults, and each generator it sets replaces ours.
    pub fn merge(&mut self, other: CodegenConfig)
        ensures
            final(self).fhir.packages@ == old(self).fhir.packages@ + other.fhir.packages@,
            final(self).fhir.version@ == (if other.fhir.version@ != "R4"@ {
                other.fhir.version@
            } else {
                old(self).fhir.version@
            }),
            final(self).output.directory@ == (if other.output.directory@ != "./generated"@ {
                other.output.directory@
            } else {
                old(self).output.directory@
            }),
            final(self).generators.typescript == (if other.generators.typescript is Some {
                other.generators.typescript
            } else {
                old(self).generators.typescript
            }),
            final(self).generators.rust == (if other.generators.rust is Some {
                other.generators.rust
            } else {
                old(self).generators.rust
            }),
            final(self).generators.python == (if other.generators.python is Some {
                other.generators.python
            } else {
                old(self).generators.python
            }),
            final(self).generators.java == (if other.generators.java is Some {
                other.generators.java
            } else {
                old(self).generators.java
            }),
            final(self).project == old(self).project,
            final(self).logging == old(self).logging,
            final(self).canonical_manager == old(self).canonical_manager,
    {
        let CodegenConfig { fhir, output, generators, .. } = other;
        let FhirConfig { version, packages, .. } = fhir;
        let mut packages = packages;
        self.fhir.packages.append(&mut packages);
        if !str_eq(version.as_str(), "R4") {
            self.fhir.version = version;
        }
        if !str_eq(output.directory.as_str(), "./generated") {
            self.output.directory = output.directory;
        }
        let GeneratorsConfig { typescript, rust, python, java } = generators;
        if typescript.is_some() {
            self.generators.typescript = typescript;
        }
        if rust.is_some() {
            self.generators.rust = rust;
        }
        if python.is_some() {
            self.generators.python = python;
        }
        if java.is_some() {
            self.generators.java = java;
        }
    }

    /// The default configuration with the TypeScript generator at its defaults.
    pub fn default_with_typescript() -> (r: Self)
        ensures
            r.generators.typescript is Some,
            r.generators.typescript->Some_0.enabled,
            r.generators.typescript->Some_0.target_version@ == "5.3"@,
            r.generators.rust is None && r.generators.python is None && r.generators.java is None,
            r.fhir.version@ == "R4"@ && r.output.directory@ == "./generated"@,
    {
        let mut config = Self::default();
        config.generators.typescript = Some(TypeScriptGeneratorConfig::default());
        config
    }

    /// A starting configuration for `language` (`typescript`/`ts`,
    /// `rust`/`rs`, `python`/`py`, `java`, or `multi`/`all`, in any case);
    /// another name is an error.
    pub fn template_for(language: &str) -> (r: Result<Self, String>)
        ensures
            match template_kind(str_lowercase(language@)) {
                None => r is Err && r->Err_0@ == "Unknown language template: '"@ + language@
                    + "'. Available templates: typescript, rust, python, java, multi"@,
                Some(k) => r is Ok && {
                    let c = r->Ok_0;
                    &&& c.project.name@ == "fhir-"@ + language@ + "-sdk"@
                    &&& c.project.version@ == "0.1.0"@
                    &&& c.project.description is Some
                    &&& c.project.description->Some_0@ == "FHIR "@ + language@
                        + " SDK generated by OctoFHIR Codegen"@
                    &&& c.fhir.version@ == "R4"@
                    &&& c.fhir.packages@.map_values(|p: String| p@) == seq!["hl7.fhir.r4.core@4.0.1"@]
                    &&& (c.generators.typescript is Some) == (k == 0 || k == 4)
                    &&& (c.generators.rust is Some) == (k == 1 || k == 4)
                    &&& (c.generators.python is Some) == (k == 2 || k == 4)
                    &&& (c.generators.java is Some) == (k == 3 || k == 4)
                    &&& k == 0 ==> c.generators.typescript->Some_0.module_name is Some
                        && c.generators.typescript->Some_0.module_name->Some_0@ == "fhir-r4"@
                    &&& c.generators.rust is Some ==> c.generators.rust->Some_0.enabled
                    &&& k == 1 ==> c.generators.rust->Some_0.crate_name is Some
                        && c.generators.rust->Some_0.crate_name->Some_0@ == "fhir-r4"@
                    &&& c.generators.python is Some ==> c.generators.python->Some_0.enabled
                    &&& k == 2 ==> c.generators.python->Some_0.package_name is Some
                        && c.generators.python->Some_0.package_name->Some_0@ == "fhir_r4"@
                    &&& c.generators.java is Some ==> c.generators.java->Some_0.enabled
                        && c.generators.java->Some_0.package_name is Some
                        && c.generators.java->Some_0.package_name->Some_0@ == template_java_package()
                },
            },
    {
        let lower = lowercase(language);
        let l = lower.as_str();
        let kind: usize = match template_kind_of(l) {
            Some(k) => k,
            None => {
                let mut m = "Unknown language template: '".to_owned();
                m.append(language);
                m.append("'. Available templates: typescript, rust, python, java, multi");
                return Err(m);
            },
        };
        let mut config = Self::default();
        let mut name = "fhir-".to_owned();
        name.append(language);
        name.append("-sdk");
        config.project.name = name;
        config.project.version = "0.1.0".to_owned();
        let mut description = "FHIR ".to_owned();
        description.append(language);
        description.append(" SDK generated by OctoFHIR Codegen");
        config.project.description = Some(description);
        config.fhir.version = "R4".to_owned();
        let mut packages: Vec<String> = Vec::new();
        packages.push("hl7.fhir.r4.core@4.0.1".to_owned());
        assert(packages@.map_values(|p: String| p@) =~= seq!["hl7.fhir.r4.core@4.0.1"@]);
        config.fhir.packages = packages;
        if kind == 0 {
            let mut ts = TypeScriptGeneratorConfig::default();
            ts.module_name = Some("fhir-r4".to_owned());
            config.generators.typescript = Some(ts);
        } else if kind == 1 {
            let mut rc = RustGeneratorConfig::default();
            rc.enabled = true;
            rc.crate_name = Some("fhir-r4".to_owned());
            config.generators.rust = Some(rc);
        } else if kind == 2 {
            let mut py = PythonGeneratorConfig::default();
            py.enabled = true;
            py.package_name = Some("fhir_r4".to_owned());
            config.generators.python = Some(py);
        } else if kind == 3 {
            let mut j = JavaGeneratorConfig::default();
            j.enabled = true;
            j.package_name = Some("com.example.fhir.r4".to_owned());
            config.generators.java = Some(j);
        } else {
            config.generators.typescript = Some(TypeScriptGeneratorConfig::default());
            let mut rc = RustGeneratorConfig::default();
            rc.enabled = true;
            config.generators.rust = Some(rc);
            let mut py = PythonGeneratorConfig::default();
            py.enabled = true;
            config.generators.python = Some(py);
            let mut j = JavaGeneratorConfig::default();
            j.enabled = true;
            j.package_name = Some("com.example.fhir.r4".to_owned());
            config.generators.java = Some(j);
        }
        Ok(config)
    }
}

/// `true` or `false`.
pub open spec fn bool_text_spec(b: bool) -> Seq<char> {
    if b {
        "true"@
    } else {
        "false"@
    }
}

/// `true` or `false`.
fn bool_text(b: bool) -> (r: &'static str)
    ensures
        r@ == bool_text_spec(b),
{
    if b {
        "true"
    } else {
        "false"
    }
}

/// One line per package, quoted.
pub open spec fn package_lines(ps: Seq<String>) -> Seq<char>
    decreases ps.len(),
{
    if ps.len() == 0 {
        Seq::empty()
    } else {
        package_lines(ps.drop_last()) + "  \""@ + ps.last()@ + "\",\n"@
    }
}

/// Appends one line per package.
fn append_package_lines(t: &mut String, ps: &Vec<String>)
    ensures
        final(t)@ == old(t)@ + package_lines(ps@),
{
    let mut i: usize = 0;
    while i < ps.len()
        invariant
            i <= ps@.len(),
            t@ == old(t)@ + package_lines(ps@.subrange(0, i as int)),
        decreases ps.len() - i,
    {
        assert(ps@.subrange(0, i + 1).drop_last() =~= ps@.subrange(0, i as int));
        t.append("  \"");
        t.append(ps[i].as_str());
        t.append("\",\n");
        i = i + 1;
    }
    assert(ps@.subrange(0, ps@.len() as int) =~= ps@);
}

/// The header and project section.
pub open spec fn toml_project_text(c: CodegenConfig) -> Seq<char> {
    "# OctoFHIR Codegen Configuration\n# For full documentation, visit: https://github.com/octofhir/codegen\n\n[project]\nname = \""@
    + c.project.name@
    + "\"\nversion = \""@
    + c.project.version@
    + "\"\n"@
    + (match c.project.description { Some(d) => "description = \""@ + d@ + "\"\n"@, None => Seq::empty() })
    + "# authors = [\"Your Name <email@example.com>\"]\n# license = \"MIT\"\n# repository = \"https://github.com/username/repo\"\n\n"@
}

/// The fhir and output sections.
pub open spec fn toml_fhir_output_text(c: CodegenConfig) -> Seq<char> {
    "[fhir]\nversion = \""@
    + c.fhir.version@
    + "\"\npackages = [\n"@
    + package_lines(c.fhir.packages@)
    + "]\n# include_resources = [\"Patient\", \"Observation\", \"Condition\"]\n# exclude_resources = [\"Binary\"]\n# core_only = false\n\n[output]\ndirectory = \""@
    + c.output.directory@
    + "\"\nclean = "@
    + bool_text_spec(c.output.clean)
    + "\ncreate_if_missing = "@
    + bool_text_spec(c.output.create_if_missing)
    + "\noverwrite = "@
    + bool_text_spec(c.output.overwrite)
    + "\n\n"@
}

/// The TypeScript generator section.
pub open spec fn toml_typescript_text(g: TypeScriptGeneratorConfig) -> Seq<char> {
    "[generators.typescript]\nenabled = "@
    + bool_text_spec(g.enabled)
    + "\n"@
    + (match g.module_name { Some(x) => "module_name = \""@ + x@ + "\"\n"@, None => Seq::empty() })
    + "emit_validation = "@
    + bool_text_spec(g.emit_validation)
    + "\nemit_helpers = "@
    + bool_text_spec(g.emit_helpers)
    + "\nemit_tests = "@
    + bool_text_spec(g.emit_tests)
    + "\ntarget_version = \""@
    + g.target_version@
    + "\"\n\n"@
}

/// The Rust generator section.
pub open spec fn toml_rust_text(g: RustGeneratorConfig) -> Seq<char> {
    "[generators.rust]\nenabled = "@
    + bool_text_spec(g.enabled)
    + "\n"@
    + (match g.crate_name { Some(x) => "crate_name = \""@ + x@ + "\"\n"@, None => Seq::empty() })
    + "emit_validation = "@
    + bool_text_spec(g.emit_validation)
    + "\nemit_helpers = "@
    + bool_text_spec(g.emit_helpers)
    + "\nemit_tests = "@
    + bool_text_spec(g.emit_tests)
    + "\nedition = \""@
    + g.edition@
    + "\"\n\n"@
}

/// The Python generator section.
pub open spec fn toml_python_text(g: PythonGeneratorConfig) -> Seq<char> {
    "[generators.python]\nenabled = "@
    + bool_text_spec(g.enabled)
    + "\n"@
    + (match g.package_name { Some(x) => "package_name = \""@ + x@ + "\"\n"@, None => Seq::empty() })
    + "use_pydantic = "@
    + bool_text_spec(g.use_pydantic)
    + "\ngenerate_stubs = "@
    + bool_text_spec(g.generate_stubs)
    + "\ntarget_version = \""@
    + g.target_version@
    + "\"\n\n"@
}

/// The Java generator section.
pub open spec fn toml_java_text(g: JavaGeneratorConfig) -> Seq<char> {
    "[generators.java]\nenabled = "@
    + bool_text_spec(g.enabled)
    + "\n"@
    + (match g.package_name { Some(x) => "package_name = \""@ + x@ + "\"\n"@, None => Seq::empty() })
    + "target_version = \""@
    + g.target_version@
    + "\"\nuse_jackson = "@
    + bool_text_spec(g.use_jackson)
    + "\nemit_validation = "@
    + bool_text_spec(g.emit_validation)
    + "\n\n"@
}

/// The logging section.
pub open spec fn toml_logging_text(c: CodegenConfig) -> Seq<char> {
    "[logging]\nlevel = \""@
    + c.logging.level@
    + "\"\nformat = \""@
    + c.logging.format@
    + "\"\ncolor = "@
    + bool_text_spec(c.logging.color)
    + "\n# file = \"codegen.log\"\n"@
}

/// The header and project section.
fn project_toml(c: &CodegenConfig) -> (r: String)
    ensures
        r@ == toml_project_text(*c),
{
    let mut t = "# OctoFHIR Codegen Configuration\n# For full documentation, visit: https://github.com/octofhir/codegen\n\n[project]\nname = \"".to_owned();
    t.append(c.project.name.as_str());
    t.append("\"\nversion = \"");
    t.append(c.project.version.as_str());
    t.append("\"\n");
    match &c.project.description { Some(d) => { t.append("description = \""); t.append(d.as_str()); t.append("\"\n"); }, None => {} };
    t.append("# authors = [\"Your Name <email@example.com>\"]\n# license = \"MIT\"\n# repository = \"https://github.com/username/repo\"\n\n");
    t
}

/// The fhir and output sections.
fn fhir_output_toml(c: &CodegenConfig) -> (r: String)
    ensures
        r@ == toml_fhir_output_text(*c),
{
    let mut t = "[fhir]\nversion = \"".to_owned();
    t.append(c.fhir.version.as_str());
    t.append("\"\npackages = [\n");
    append_package_lines(&mut t, &c.fhir.packages);
    t.append("]\n# include_resources = [\"Patient\", \"Observation\", \"Condition\"]\n# exclude_resources = [\"Binary\"]\n# core_only = false\n\n[output]\ndirectory = \"");
    t.append(c.output.directory.as_str());
    t.append("\"\nclean = ");
    t.append(bool_text(c.output.clean));
    t.append("\ncreate_if_missing = ");
    t.append(bool_text(c.output.create_if_missing));
    t.append("\noverwrite = ");
    t.append(bool_text(c.output.overwrite));
    t.append("\n\n");
    t
}

/// The TypeScript generator section.
fn typescript_toml(g: &TypeScriptGeneratorConfig) -> (r: String)
    ensures
        r@ == toml_typescript_text(*g),
{
    let mut t = "[generators.typescript]\nenabled = ".to_owned();
    t.append(bool_text(g.enabled));
    t.append("\n");
    match &g.module_name { Some(x) => { t.append("module_name = \""); t.append(x.as_str()); t.append("\"\n"); }, None => {} };
    t.append("emit_validation = ");
    t.append(bool_text(g.emit_validation));
    t.append("\nemit_helpers = ");
    t.append(bool_text(g.emit_helpers));
    t.append("\nemit_tests = ");
    t.append(bool_text(g.emit_tests));
    t.append("\ntarget_version = \"");
    t.append(g.target_version.as_str());
    t.append("\"\n\n");
    t
}

/// The Rust generator section.
fn rust_toml(g: &RustGeneratorConfig) -> (r: String)
    ensures
        r@ == toml_rust_text(*g),
{
    let mut t = "[generators.rust]\nenabled = ".to_owned();
    t.append(bool_text(g.enabled));
    t.append("\n");
    match &g.crate_name { Some(x) => { t.append("crate_name = \""); t.append(x.as_str()); t.append("\"\n"); }, None => {} };
    t.append("emit_validation = ");
    t.append(bool_text(g.emit_validation));
    t.append("\nemit_helpers = ");
    t.append(bool_text(g.emit_helpers));
    t.append("\nemit_tests = ");
    t.append(bool_text(g.emit_tests));
    t.append("\nedition = \"");
    t.append(g.edition.as_str());
    t.append("\"\n\n");
    t
}

/// The Python generator section.
fn python_toml(g: &PythonGeneratorConfig) -> (r: String)
    ensures
        r@ == toml_python_text(*g),
{
    let mut t = "[generators.python]\nenabled = ".to_owned();
    t.append(bool_text(g.enabled));
    t.append("\n");
    match &g.package_name { Some(x) => { t.append("package_name = \""); t.append(x.as_str()); t.append("\"\n"); }, None => {} };
    t.append("use_pydantic = ");
    t.append(bool_text(g.use_pydantic));
    t.append("\ngenerate_stubs = ");
    t.append(bool_text(g.generate_stubs));
    t.append("\ntarget_version = \"");
    t.append(g.target_version.as_str());
    t.append("\"\n\n");
    t
}

/// The Java generator section.
fn java_toml(g: &JavaGeneratorConfig) -> (r: String)
    ensures
        r@ == toml_java_text(*g),
{
    let mut t = "[generators.java]\nenabled = ".to_owned();
    t.append(bool_text(g.enabled));
    t.append("\n");
    match &g.package_name { Some(x) => { t.append("package_name = \""); t.append(x.as_str()); t.append("\"\n"); }, None => {} };
    t.append("target_version = \"");
    t.append(g.target_version.as_str());
    t.append("\"\nuse_jackson = ");
    t.append(bool_text(g.use_jackson));
    t.append("\nemit_validation = ");
    t.append(bool_text(g.emit_validation));
    t.append("\n\n");
    t
}

/// The logging section.
fn logging_toml(c: &CodegenConfig) -> (r: String)
    ensures
        r@ == toml_logging_text(*c),
{
    let mut t = "[logging]\nlevel = \"".to_owned();
    t.append(c.logging.level.as_str());
    t.append("\"\nformat = \"");
    t.append(c.logging.format.as_str());
    t.append("\"\ncolor = ");
    t.append(bool_text(c.logging.color));
    t.append("\n# file = \"codegen.log\"\n");
    t
}

/// The configuration as commented TOML text.
pub open spec fn commented_toml_text(c: CodegenConfig) -> Seq<char> {
    toml_project_text(c) + toml_fhir_output_text(c) + (match c.generators.typescript {
        Some(g) => toml_typescript_text(g),
        None => Seq::empty(),
    }) + (match c.generators.rust {
        Some(g) => toml_rust_text(g),
        None => Seq::empty(),
    }) + (match c.generators.python {
        Some(g) => toml_python_text(g),
        None => Seq::empty(),
    }) + (match c.generators.java {
        Some(g) => toml_java_text(g),
        None => Seq::empty(),
    }) + toml_logging_text(c)
}

impl CodegenConfig {
    /// The configuration as a commented TOML template.
    pub fn to_commented_toml(&self) -> (r: Result<String, String>)
        ensures
            r is Ok && r->Ok_0@ == commented_toml_text(*self),
    {
        let mut output = project_toml(self);
        output.append(fhir_output_toml(self).as_str());
        match &self.generators.typescript {
            Some(g) => output.append(typescript_toml(g).as_str()),
            None => {},
        }
        match &self.generators.rust {
            Some(g) => output.append(rust_toml(g).as_str()),
            None => {},
        }
        match &self.generators.python {
            Some(g) => output.append(python_toml(g).as_str()),
            None => {},
        }
        match &self.generators.java {
            Some(g) => output.append(java_toml(g).as_str()),
            None => {},
        }
        output.append(logging_toml(self).as_str());
        assert(output@ =~= commented_toml_text(*self));
        Ok(output)
    }
}

/// Is the lowercase text `l` a log level?
pub fn is_log_level_name(l: &str) -> (r: bool)
    ensures
        r == is_log_level(l@),
{
    str_eq(l, "trace") || str_eq(l, "debug") || str_eq(l, "info") || str_eq(l, "warn") || str_eq(l, "error")
}

/// Is the lowercase text `f` a log format?
pub fn is_log_format_name(f: &str) -> (r: bool)
    ensures
        r == is_log_format(f@),
{
    str_eq(f, "pretty") || str_eq(f, "json") || str_eq(f, "compact")
}

/// The template that a lowercase language name selects.
pub fn template_kind_of(l: &str) -> (r: Option<usize>)
    ensures
        match r {
            Some(k) => template_kind(l@) == Some(k as int),
            None => template_kind(l@) is None,
        },
{
    if str_eq(l, "typescript") || str_eq(l, "ts") {
        Some(0)
    } else if str_eq(l, "rust") || str_eq(l, "rs") {
        Some(1)
    } else if str_eq(l, "python") || str_eq(l, "py") {
        Some(2)
    } else if str_eq(l, "java") {
        Some(3)
    } else if str_eq(l, "multi") || str_eq(l, "all") {
        Some(4)
    } else {
        None
    }
}

} // verus!
