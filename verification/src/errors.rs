//! Library error type.

use vstd::prelude::*;

verus! {

/// `std::io::Error`, carried through as it is.
#[verifier::external_type_specification]
#[verifier::external_body]
pub struct ExIoError(std::io::Error);

/// `serde_json::Error`, carried through as it is.
#[verifier::external_type_specification]
#[verifier::external_body]
pub struct ExJsonError(serde_json::Error);

/// `glob::PatternError`, carried through as it is.
#[verifier::external_type_specification]
#[verifier::external_body]
pub struct ExPatternError(glob::PatternError);

/// Error type for theme operations.
#[derive(Debug)]
pub enum ThemeError {
    /// An I/O operation failed.
    IoError(std::io::Error),
    /// A JSON document could not be read or written.
    JsonError(serde_json::Error),
    /// A glob pattern was malformed.
    PatternError(glob::PatternError),
    /// The file holds no theme that is recognized.
    UnknownThemeType,
    /// A file that should exist does not.
    FileDoesNotExist(String),
    /// No theme of the given name was found.
    ThemeNotFound(String),
    /// No themes were found where some were expected.
    NoThemesFound(String),
    /// The icons of a theme could not be processed.
    IconProcessingError(String),
    /// A tracked icon file (logical name, source path) does not exist.
    IconFileNotFound(String, String),
    /// An icon path has no file name.
    InvalidIconPath(String),
}

impl From<std::io::Error> for ThemeError {
    fn from(e: std::io::Error) -> (r: Self) {
        ThemeError::IoError(e)
    }
}

impl vstd::std_specs::convert::FromSpecImpl<std::io::Error> for ThemeError {
    open spec fn obeys_from_spec() -> bool {
        true
    }

    open spec fn from_spec(e: std::io::Error) -> Self {
        ThemeError::IoError(e)
    }
}

impl From<serde_json::Error> for ThemeError {
    fn from(e: serde_json::Error) -> (r: Self) {
        ThemeError::JsonError(e)
    }
}

impl vstd::std_specs::convert::FromSpecImpl<serde_json::Error> for ThemeError {
    open spec fn obeys_from_spec() -> bool {
        true
    }

    open spec fn from_spec(e: serde_json::Error) -> Self {
        ThemeError::JsonError(e)
    }
}

impl From<glob::PatternError> for ThemeError {
    fn from(e: glob::PatternError) -> (r: Self) {
        ThemeError::PatternError(e)
    }
}

impl vstd::std_specs::convert::FromSpecImpl<glob::PatternError> for ThemeError {
    open spec fn obeys_from_spec() -> bool {
        true
    }

    open spec fn from_spec(e: glob::PatternError) -> Self {
        ThemeError::PatternError(e)
    }
}

} // verus!
