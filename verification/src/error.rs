//! The failures of loading, and the outside error types that they carry.
use vstd::prelude::*;

verus! {

/// `std::io::Error`. A value of it is carried as it came and never looked into.
#[verifier::external_type_specification]
#[verifier::external_body]
pub struct ExIoError(std::io::Error);

/// `std::io::ErrorKind`, with its variants, so that a kind can be written down.
#[verifier::external_type_specification]
pub struct ExIoErrorKind(std::io::ErrorKind);

/// `std::string::FromUtf8Error`: why bytes were not UTF-8. Carried, never looked into.
#[verifier::external_type_specification]
#[verifier::external_body]
pub struct ExFromUtf8Error(std::string::FromUtf8Error);

/// `serde_json::Error`: why the JSON codec gave up. Carried, never looked into.
#[verifier::external_type_specification]
#[verifier::external_body]
pub struct ExJsonError(serde_json::Error);

/// `toml::de::Error`: why the TOML codec could not decode. Carried, never looked into.
#[verifier::external_type_specification]
#[verifier::external_body]
pub struct ExTomlDecodeError(toml::de::Error);

/// Why a text could not be decoded into the value that was asked for: the
/// failure of whichever codec was at work, unchanged.
#[derive(Debug)]
pub enum ParseFailure {
    /// The text is not JSON, or not JSON of the wanted shape.
    Json(serde_json::Error),
    /// The text is not TOML, or not TOML of the wanted shape.
    Toml(toml::de::Error),
}

/// Why a configuration could not be loaded.
#[derive(Debug)]
pub enum ConfigError {
    /// The file could not be opened or read, or does not hold UTF-8 text.
    IoError(std::io::Error),
    /// The file was read, and the codec rejected its text.
    ParseError(ParseFailure),
}

/// Calls `std::io::Error::new` with the given kind and, as the error's source,
/// the reason why bytes were not UTF-8. Nothing is claimed of the error that
/// comes back.
#[verifier::external_body]
pub(crate) fn encoding_failure(kind: std::io::ErrorKind, cause: std::string::FromUtf8Error) -> (e:
    std::io::Error) {
    std::io::Error::new(kind, cause)
}

} // verus!
