//! Command-line values: the parsed arguments, command results and the
//! outcome of configuration discovery.

use vstd::prelude::*;

verus! {

/// Default configuration file name.
pub const CONFIG_FILENAME: &'static str = "codegen.toml";

/// XDG configuration directory name.
pub const XDG_CONFIG_DIR: &'static str = "octofhir";

/// Parsed command-line arguments.
#[derive(Debug)]
pub struct Cli {
    /// Path to configuration file
    pub config: Option<String>,
    /// Logging verbosity (number of `-v` flags)
    pub verbose: u8,
    /// Disable colored output
    pub no_color: bool,
    /// Output format
    pub format: Option<String>,
    /// The command to run
    pub command: Commands,
}

/// The commands.
#[derive(Debug)]
pub enum Commands {
    /// Initialize a new project
    Init { template: Option<String>, output: String, force: bool, non_interactive: bool },
    /// Generate an SDK
    Generate {
        language: Option<String>,
        output: Option<String>,
        fhir_version: Option<String>,
        package: Vec<String>,
        skip_validation: bool,
        no_clean: bool,
        watch: bool,
    },
    /// Validate the configuration
    Validate { detailed: bool },
    /// List available generators
    ListGenerators { detailed: bool },
    /// Describe a generator
    Describe { generator: String, examples: bool },
    /// Analyze a FHIR package
    Analyze {
        package: String,
        show_profiles: bool,
        show_extensions: bool,
        show_resources: bool,
        show_datatypes: bool,
        show_dependencies: bool,
        export: Option<String>,
    },
    /// Update canonical-manager packages
    UpdatePackages { package: Option<String>, force: bool },
    /// Show version information
    Version { detailed: bool },
    /// Clean the generated output directory
    Clean { output: Option<String>, force: bool },
}

/// The log level a verbosity gives.
pub open spec fn log_level_of(verbose: u8) -> Seq<char> {
    if verbose == 0 {
        "info"@
    } else if verbose == 1 {
        "debug"@
    } else {
        "trace"@
    }
}

impl Cli {
    /// The log level: `info`, `debug` with one `-v`, `trace` with more.
    pub fn log_level(&self) -> (r: &'static str)
        ensures
            r@ == log_level_of(self.verbose),
    {
        match self.verbose {
            0 => "info",
            1 => "debug",
            _ => "trace",
        }
    }

    /// The configuration file path given, if any.
    pub fn config_path(&self) -> (r: Option<String>)
        ensures
            r == self.config,
    {
        match &self.config {
            Some(c) => Some(c.clone()),
            None => None,
        }
    }

    /// The configuration file path given, else `codegen.toml`.
    pub fn config_path_or_default(&self) -> (r: String)
        ensures
            match self.config {
                Some(c) => r == c,
                None => r@ == CONFIG_FILENAME@,
            },
    {
        match &self.config {
            Some(c) => c.clone(),
            None => CONFIG_FILENAME.to_owned(),
        }
    }
}

/// Command execution result.
#[derive(Debug)]
pub struct CommandResult {
    /// Exit code (0 for success)
    pub exit_code: i32,
    /// Optional message to display
    pub message: Option<String>,
}

impl CommandResult {
    /// A successful result without message.
    pub fn success() -> (r: Self)
        ensures
            r.exit_code == 0 && r.message is None,
    {
        CommandResult { exit_code: 0, message: None }
    }

    /// A successful result with a message.
    pub fn success_with_message(message: &str) -> (r: Self)
        ensures
            r.exit_code == 0 && r.message is Some && r.message->Some_0@ == message@,
    {
        CommandResult { exit_code: 0, message: Some(message.to_owned()) }
    }

    /// A failed result (exit code 1) with a message.
    pub fn error(message: &str) -> (r: Self)
        ensures
            r.exit_code == 1 && r.message is Some && r.message->Some_0@ == message@,
    {
        CommandResult { exit_code: 1, message: Some(message.to_owned()) }
    }

    /// A failed result with the given exit code and message.
    pub fn error_with_code(exit_code: i32, message: &str) -> (r: Self)
        ensures
            r.exit_code == exit_code && r.message is Some && r.message->Some_0@ == message@,
    {
        CommandResult { exit_code, message: Some(message.to_owned()) }
    }
}

/// Outcome of configuration file discovery.
#[derive(Debug, Clone, PartialEq, Eq)]
pub enum DiscoveryResult {
    /// Configuration file found at the given path
    Found(String),
    /// No configuration file found
    NotFound,
}

impl DiscoveryResult {
    /// Was a configuration file found?
    pub fn is_found(&self) -> (r: bool)
        ensures
            r == (*self is Found),
    {
        match self {
            DiscoveryResult::Found(_) => true,
            DiscoveryResult::NotFound => false,
        }
    }

    /// The path found, if any.
    pub fn path(&self) -> (r: Option<&str>)
        ensures
            match *self {
                DiscoveryResult::Found(p) => r is Some && r->Some_0@ == p@,
                DiscoveryResult::NotFound => r is None,
            },
    {
        match self {
            DiscoveryResult::Found(p) => Some(p.as_str()),
            DiscoveryResult::NotFound => None,
        }
    }

    /// The path found; only for a result that found one.
    pub fn unwrap(&self) -> (r: &str)
        requires
            *self is Found,
        ensures
            r@ == self->Found_0@,
    {
        match self {
            DiscoveryResult::Found(p) => p.as_str(),
            DiscoveryResult::NotFound => {
                proof {
                    assert(false);
                }
                ""
            },
        }
    }

    /// The path found, or the error that `err` makes.
    pub fn ok_or_else<E, F: FnOnce() -> E>(self, err: F) -> (r: Result<String, E>)
        requires
            self is NotFound ==> err.requires(()),
        ensures
            match self {
                DiscoveryResult::Found(p) => r == Ok::<String, E>(p),
                DiscoveryResult::NotFound => r is Err && err.ensures((), r->Err_0),
            },
    {
        match self {
            DiscoveryResult::Found(p) => Ok(p),
            DiscoveryResult::NotFound => Err(err()),
        }
    }
}

} // verus!
