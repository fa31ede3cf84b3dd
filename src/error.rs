//! Error type of the library.

use vstd::prelude::*;

verus! {

/// Errors of codegen operations. Each carries its message.
#[derive(Debug)]
pub enum Error {
    /// IO error
    Io(String),
    /// JSON parsing error
    Json(String),
    /// TOML parsing error
    Toml(String),
    /// Canonical manager error
    CanonicalManager(String),
    /// Parser error
    Parser(String),
    /// Generator error
    Generator(String),
    /// Validation error
    Validation(String),
    /// Configuration error
    Config(String),
    /// Template error
    Template(String),
    /// Other errors
    Other(String),
}

/// The text that names each kind of error, in front of its message.
pub open spec fn error_label(e: Error) -> Seq<char> {
    match e {
        Error::Io(_) => "IO error: "@,
        Error::Json(_) => "JSON error: "@,
        Error::Toml(_) => "TOML error: "@,
        Error::CanonicalManager(_) => "Canonical manager error: "@,
        Error::Parser(_) => "Parser error: "@,
        Error::Generator(_) => "Generator error: "@,
        Error::Validation(_) => "Validation error: "@,
        Error::Config(_) => "Configuration error: "@,
        Error::Template(_) => "Template error: "@,
        Error::Other(_) => ""@,
    }
}

/// The message an error carries.
pub open spec fn error_message(e: Error) -> Seq<char> {
    match e {
        Error::Io(m) => m@,
        Error::Json(m) => m@,
        Error::Toml(m) => m@,
        Error::CanonicalManager(m) => m@,
        Error::Parser(m) => m@,
        Error::Generator(m) => m@,
        Error::Validation(m) => m@,
        Error::Config(m) => m@,
        Error::Template(m) => m@,
        Error::Other(m) => m@,
    }
}

impl Error {
    /// The error as text: its label followed by its message.
    pub fn to_string(&self) -> (r: String)
        ensures
            r@ == error_label(*self) + error_message(*self),
    {
        let (label, m) = match self {
            Error::Io(m) => ("IO error: ", m),
            Error::Json(m) => ("JSON error: ", m),
            Error::Toml(m) => ("TOML error: ", m),
            Error::CanonicalManager(m) => ("Canonical manager error: ", m),
            Error::Parser(m) => ("Parser error: ", m),
            Error::Generator(m) => ("Generator error: ", m),
            Error::Validation(m) => ("Validation error: ", m),
            Error::Config(m) => ("Configuration error: ", m),
            Error::Template(m) => ("Template error: ", m),
            Error::Other(m) => ("", m),
        };
        let mut r = label.to_owned();
        r.append(m.as_str());
        r
    }
}

} // verus!
