//! Configuration of code generation: the FHIR version, the output directory
//! and the settings of each language generator.

use vstd::prelude::*;
use crate::ir::TypeMap;

verus! {

/// Code generation configuration.
#[derive(Debug)]
pub struct CodegenConfig {
    /// FHIR version to generate for
    pub fhir_version: String,
    /// Output directory
    pub output_dir: String,
    /// Generator settings by generator name
    pub generators: TypeMap<GeneratorConfig>,
}

/// Settings of one generator.
#[derive(Debug)]
pub enum GeneratorConfig {
    TypeScript(TypeScriptConfig),
    Rust(RustConfig),
}

/// TypeScript generator settings.
#[derive(Debug, Clone)]
pub struct TypeScriptConfig {
    pub enabled: bool,
    pub module_name: String,
    pub generate_classes: bool,
    pub generate_builders: bool,
    pub generate_extensions: bool,
    pub strict_mode: bool,
    pub emit_validation: bool,
    pub emit_helpers: bool,
    pub emit_tests: bool,
    pub target_version: String,
    pub compiler_options: TypeScriptCompilerOptions,
}

/// TypeScript compiler options.
#[derive(Debug, Clone)]
pub struct TypeScriptCompilerOptions {
    pub strict: bool,
    pub es_module_interop: bool,
    pub declaration: bool,
    pub source_map: bool,
    pub module_resolution: String,
}

/// Rust generator settings.
#[derive(Debug, Clone)]
pub struct RustConfig {
    pub enabled: bool,
    pub crate_name: String,
    pub use_serde: bool,
    pub generate_builders: bool,
}

/// The default of a flag that is on unless said otherwise.
pub fn default_true() -> (r: bool)
    ensures
        r,
{
    true
}

/// The default TypeScript module name.
pub fn default_module_name() -> (r: String)
    ensures
        r@ == "fhir-r4"@,
{
    "fhir-r4".to_owned()
}

/// The default TypeScript version.
pub fn default_ts_version() -> (r: String)
    ensures
        r@ == "5.3"@,
{
    "5.3".to_owned()
}

/// The default module resolution.
pub fn default_module_resolution() -> (r: String)
    ensures
        r@ == "node"@,
{
    "node".to_owned()
}

/// The default Rust crate name.
pub fn default_rust_crate_name() -> (r: String)
    ensures
        r@ == "fhir-r4"@,
{
    "fhir-r4".to_owned()
}

impl Default for TypeScriptCompilerOptions {
    /// Strict, with ES module interop and declarations, without source maps,
    /// resolving modules the node way.
    fn default() -> (r: Self)
        ensures
            r.strict && r.es_module_interop && r.declaration && !r.source_map,
            r.module_resolution@ == "node"@,
    {
        TypeScriptCompilerOptions {
            strict: default_true(),
            es_module_interop: default_true(),
            declaration: default_true(),
            source_map: false,
            module_resolution: default_module_resolution(),
        }
    }
}

impl Default for TypeScriptConfig {
    /// Enabled, module `fhir-r4`, extensions, strict mode, validation and
    /// helpers on; classes, builders and tests off; TypeScript 5.3.
    fn default() -> (r: Self)
        ensures
            r.enabled && r.generate_extensions && r.strict_mode && r.emit_validation && r.emit_helpers,
            !r.generate_classes && !r.generate_builders && !r.emit_tests,
            r.module_name@ == "fhir-r4"@,
            r.target_version@ == "5.3"@,
            r.compiler_options.strict && r.compiler_options.es_module_interop,
            r.compiler_options.declaration && !r.compiler_options.source_map,
            r.compiler_options.module_resolution@ == "node"@,
    {
        TypeScriptConfig {
            enabled: true,
            module_name: default_module_name(),
            generate_classes: false,
            generate_builders: false,
            generate_extensions: true,
            strict_mode: true,
            emit_validation: true,
            emit_helpers: true,
            emit_tests: false,
            target_version: default_ts_version(),
            compiler_options: TypeScriptCompilerOptions::default(),
        }
    }
}

impl Default for RustConfig {
    /// Enabled, crate `fhir-r4`, with serde and builders.
    fn default() -> (r: Self)
        ensures
            r.enabled && r.use_serde && r.generate_builders,
            r.crate_name@ == "fhir-r4"@,
    {
        RustConfig {
            enabled: true,
            crate_name: default_rust_crate_name(),
            use_serde: true,
            generate_builders: true,
        }
    }
}

impl Default for CodegenConfig {
    /// FHIR R4 into `./generated`, with no generator settings.
    fn default() -> (r: Self)
        ensures
            r.fhir_version@ == "R4"@,
            r.output_dir@ == "./generated"@,
            r.generators.wf(),
            r.generators.spec_entries().len() == 0,
    {
        CodegenConfig {
            fhir_version: "R4".to_owned(),
            output_dir: "./generated".to_owned(),
            generators: TypeMap::new(),
        }
    }
}

impl CodegenConfig {
    /// The settings under `typescript`, when they are TypeScript settings.
    pub fn typescript_config(&self) -> (r: Option<&TypeScriptConfig>)
        requires
            self.generators.wf(),
        ensures
            match self.generators.spec_get("typescript"@) {
                Some(GeneratorConfig::TypeScript(c)) => r is Some && *r->Some_0 == c,
                _ => r is None,
            },
    {
        match self.generators.get("typescript") {
            Some(GeneratorConfig::TypeScript(c)) => Some(c),
            _ => None,
        }
    }

    /// The settings under `rust`, when they are Rust settings.
    pub fn rust_config(&self) -> (r: Option<&RustConfig>)
        requires
            self.generators.wf(),
        ensures
            match self.generators.spec_get("rust"@) {
                Some(GeneratorConfig::Rust(c)) => r is Some && *r->Some_0 == c,
                _ => r is None,
            },
    {
        match self.generators.get("rust") {
            Some(GeneratorConfig::Rust(c)) => Some(c),
            _ => None,
        }
    }
}

} // verus!
