//! The loader: from what reading the file gave, and what the codec answers,
//! to the value or the one failure that is reported.
use crate::error::{encoding_failure, ConfigError, ParseFailure};
use crate::text::text_of;
use vstd::prelude::*;

verus! {

/// What loading returns once the codec has answered: its value, or its
/// failure as a `ParseError`.
pub open spec fn decode_outcome<C>(decoded: Result<C, ParseFailure>) -> Result<C, ConfigError> {
    match decoded {
        Ok(value) => Ok(value),
        Err(failure) => Err(ConfigError::ParseError(failure)),
    }
}

/// Whether `r` is the result of loading, where reading the file gave `read`
/// and `decode` is the codec.
///
/// - A failure to read is the result, as an `IoError`.
/// - Bytes that are not UTF-8 give an `IoError`.
/// - Otherwise the result is an answer of the codec about the text of the
///   file: the value it decoded, or its failure as a `ParseError`.
pub open spec fn is_loaded<C, D>(
    read: Result<Vec<u8>, std::io::Error>,
    decode: D,
    r: Result<C, ConfigError>,
) -> bool where D: FnOnce(&str) -> Result<C, ParseFailure> {
    match read {
        Err(failure) => r == Err::<C, ConfigError>(ConfigError::IoError(failure)),
        Ok(bytes) => match text_of(bytes@) {
            None => r matches Err(ConfigError::IoError(_)),
            Some(chars) => exists|text: &str, decoded: Result<C, ParseFailure>|
                text@ == chars && #[trigger] decode.ensures((text,), decoded) && r
                    == decode_outcome(decoded),
        },
    }
}

/// Turns what reading the whole file gave into the text to decode.
///
/// A failure to open or read comes back as `IoError`, with that very failure
/// in it. Bytes that are not UTF-8 are an `IoError` too, of kind
/// `InvalidData`. All other bytes, a file of no bytes among them, give their
/// text.
pub fn read_text(read: Result<Vec<u8>, std::io::Error>) -> (r: Result<String, ConfigError>)
    ensures
        match read {
            Err(failure) => r == Err::<String, ConfigError>(ConfigError::IoError(failure)),
            Ok(bytes) => match text_of(bytes@) {
                None => r matches Err(ConfigError::IoError(_)),
                Some(chars) => r matches Ok(text) && text@ == chars,
            },
        },
{
    match read {
        Err(failure) => Err(ConfigError::IoError(failure)),
        Ok(bytes) => match String::from_utf8(bytes) {
            Ok(text) => Ok(text),
            Err(cause) => Err(
                ConfigError::IoError(encoding_failure(std::io::ErrorKind::InvalidData, cause)),
            ),
        },
    }
}

/// Turns the codec's answer into the loader's: the decoded value as it is, a
/// failure to decode as `ParseError` with that very failure in it.
pub fn decoded_value<C>(decoded: Result<C, ParseFailure>) -> (r: Result<C, ConfigError>)
    ensures
        r == decode_outcome(decoded),
{
    match decoded {
        Ok(value) => Ok(value),
        Err(failure) => Err(ConfigError::ParseError(failure)),
    }
}

/// Loads a configuration value from what reading its file gave.
///
/// `read` is the outcome of opening the file and reading it to its end;
/// `decode` is the codec, from text to a value of the caller's type. Where the
/// file could not be read, or does not hold UTF-8, the result is an `IoError`
/// and the codec has no part in it. Otherwise the codec is run once, on the
/// text of the file, and its answer decides: the value, or a `ParseError`.
///
/// The codec must accept the text of the file, whatever it holds.
pub fn load_config<C, D>(read: Result<Vec<u8>, std::io::Error>, decode: D) -> (r: Result<
    C,
    ConfigError,
>) where D: FnOnce(&str) -> Result<C, ParseFailure>
    requires
        forall|text: &str|
            read matches Ok(bytes) && text_of(bytes@) == Some(text@) ==> #[trigger] decode.requires(
                (text,),
            ),
    ensures
        is_loaded(read, decode, r),
{
    match read_text(read) {
        Err(failure) => Err(failure),
        Ok(text) => decoded_value(decode(text.as_str())),
    }
}

} // verus!
