//! The library's error type. Every variant carries the message text that the
//! application shows; the outside errors that produce them (I/O, TOML, Apple
//! Music) are rendered to text where they arise.
use vstd::prelude::*;

verus! {

/// Errors of the scrobbler.
#[derive(Debug)]
pub enum AppError {
    /// Apple Music could not be queried.
    Player(String),
    /// The configuration is missing something or cannot be read.
    Config(String),
    /// A file or process operation failed.
    Io(String),
    /// The configuration file is not valid TOML for a `Config`.
    TomlParse(String),
    /// The configuration could not be written as TOML.
    TomlSerialize(String),
    /// The Last.fm API refused a request or could not be reached.
    Scrobbler(String),
}

/// The text shown for an error: a prefix naming its kind, then its message.
pub open spec fn error_text(e: AppError) -> Seq<char> {
    match e {
        AppError::Player(m) => "Apple Music error: "@ + m@,
        AppError::Config(m) => "Config error: "@ + m@,
        AppError::Io(m) => "IO error: "@ + m@,
        AppError::TomlParse(m) => "TOML parse error: "@ + m@,
        AppError::TomlSerialize(m) => "TOML serialize error: "@ + m@,
        AppError::Scrobbler(m) => "Scrobbler error: "@ + m@,
    }
}

impl AppError {
    /// Renders the error as the application displays it.
    pub fn to_text(&self) -> (s: String)
        ensures
            s@ == error_text(*self),
    {
        let (prefix, m) = match self {
            AppError::Player(m) => ("Apple Music error: ", m),
            AppError::Config(m) => ("Config error: ", m),
            AppError::Io(m) => ("IO error: ", m),
            AppError::TomlParse(m) => ("TOML parse error: ", m),
            AppError::TomlSerialize(m) => ("TOML serialize error: ", m),
            AppError::Scrobbler(m) => ("Scrobbler error: ", m),
        };
        let mut s = String::from_str(prefix);
        s.append(m.as_str());
        s
    }
}

} // verus!
