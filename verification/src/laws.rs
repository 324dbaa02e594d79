//! What holds of saving and loading together, whichever codec is at work.
use crate::error::{ConfigError, ParseFailure};
use crate::load::is_loaded;
use crate::save::is_saved;
use crate::text::{bytes_of, lemma_written_text_is_read_back, text_of};
use vstd::prelude::*;

verus! {

/// A value that was saved is the value that is loaded.
///
/// `saved` is the result of saving `value` and `loaded` the result of loading
/// from the bytes `stored` that were read afterwards. Where the save
/// succeeded, the file gave back the bytes that were written to it, and the
/// codec decodes to `value` every text that it gives for `value`, loading
/// succeeds with `value`. This holds of any codec, so of JSON as of TOML.
pub proof fn lemma_round_trip<F, C, E, W, D>(
    handle: F,
    value: C,
    encode: E,
    write: W,
    saved: Result<(), std::io::Error>,
    stored: Vec<u8>,
    decode: D,
    loaded: Result<C, ConfigError>,
) where
    E: FnOnce(&C) -> String,
    W: FnOnce(F, &[u8]) -> Result<(), std::io::Error>,
    D: FnOnce(&str) -> Result<C, ParseFailure>,

    requires
        is_saved(Ok(handle), &value, encode, write, saved),
        saved is Ok,
        forall|bytes: &[u8]| #[trigger] write.ensures((handle, bytes), saved) ==> stored@ == bytes@,
        forall|text: String, read: &str, decoded: Result<C, ParseFailure>|
            #[trigger] encode.ensures((&value,), text) && read@ == text@
                && #[trigger] decode.ensures((read,), decoded) ==> decoded == Ok::<C, ParseFailure>(
                value,
            ),
        is_loaded(Ok(stored), decode, loaded),
    ensures
        loaded == Ok::<C, ConfigError>(value),
{
    let (text, bytes) = choose|text: String, bytes: &[u8]|
        #[trigger] encode.ensures((&value,), text) && bytes@ == bytes_of(text@)
            && #[trigger] write.ensures((handle, bytes), saved);
    lemma_written_text_is_read_back(text@);
}

/// Of two saves to one file the later decides what is loaded.
///
/// Each save empties the file before it writes, so the file holds what the
/// later save wrote and nothing of the earlier one. Where it does, and the
/// later save succeeded, loading gives the later value, whatever the earlier
/// save wrote and however it ended.
pub proof fn lemma_later_save_is_loaded<F, C, E1, W1, E2, W2, D>(
    first_handle: F,
    first: C,
    encode_first: E1,
    write_first: W1,
    first_saved: Result<(), std::io::Error>,
    second_handle: F,
    second: C,
    encode_second: E2,
    write_second: W2,
    second_saved: Result<(), std::io::Error>,
    stored: Vec<u8>,
    decode: D,
    loaded: Result<C, ConfigError>,
) where
    E1: FnOnce(&C) -> String,
    W1: FnOnce(F, &[u8]) -> Result<(), std::io::Error>,
    E2: FnOnce(&C) -> String,
    W2: FnOnce(F, &[u8]) -> Result<(), std::io::Error>,
    D: FnOnce(&str) -> Result<C, ParseFailure>,

    requires
        is_saved(Ok(first_handle), &first, encode_first, write_first, first_saved),
        is_saved(Ok(second_handle), &second, encode_second, write_second, second_saved),
        second_saved is Ok,
        forall|bytes: &[u8]| #[trigger]
            write_second.ensures((second_handle, bytes), second_saved) ==> stored@ == bytes@,
        forall|text: String, read: &str, decoded: Result<C, ParseFailure>|
            #[trigger] encode_second.ensures((&second,), text) && read@ == text@
                && #[trigger] decode.ensures((read,), decoded) ==> decoded == Ok::<C, ParseFailure>(
                second,
            ),
        is_loaded(Ok(stored), decode, loaded),
    ensures
        loaded == Ok::<C, ConfigError>(second),
{
    lemma_round_trip(
        second_handle,
        second,
        encode_second,
        write_second,
        second_saved,
        stored,
        decode,
        loaded,
    );
}

/// A file that could not be opened or read gives an `IoError`, with the
/// failure of the file system in it, and never a `ParseError`: the codec has
/// no say.
pub proof fn lemma_unread_file_is_io_error<C, D>(
    failure: std::io::Error,
    decode: D,
    loaded: Result<C, ConfigError>,
) where D: FnOnce(&str) -> Result<C, ParseFailure>
    requires
        is_loaded(Err(failure), decode, loaded),
    ensures
        loaded == Err::<C, ConfigError>(ConfigError::IoError(failure)),
{
}

/// A file whose text the codec rejects gives a `ParseError`, with a failure of
/// the codec in it, and never an `IoError`: be it text that is no text of the
/// format, or text that is not of the shape of the value asked for.
pub proof fn lemma_rejected_text_is_parse_error<C, D>(
    stored: Vec<u8>,
    decode: D,
    loaded: Result<C, ConfigError>,
) where D: FnOnce(&str) -> Result<C, ParseFailure>
    requires
        text_of(stored@) is Some,
        forall|text: &str, decoded: Result<C, ParseFailure>|
            text_of(stored@) == Some(text@) && #[trigger] decode.ensures((text,), decoded)
                ==> decoded is Err,
        is_loaded(Ok(stored), decode, loaded),
    ensures
        exists|text: &str, failure: ParseFailure|
            text_of(stored@) == Some(text@) && #[trigger] decode.ensures(
                (text,),
                Err::<C, ParseFailure>(failure),
            ) && loaded == Err::<C, ConfigError>(ConfigError::ParseError(failure)),
{
}

} // verus!
