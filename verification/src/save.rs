//! The saver: from the file that was created and the text that the codec
//! wrote to the bytes that are written.
use crate::text::bytes_of;
use vstd::prelude::*;

verus! {

/// Whether `r` is the result of saving `config`, where creating the file gave
/// `created`, `encode` is the codec and `write` the writer.
///
/// - A failure to create the file is the result.
/// - Otherwise the result is what the writer returns for that file and the
///   UTF-8 bytes of a text that the codec gives for the value.
pub open spec fn is_saved<F, C, E, W>(
    created: Result<F, std::io::Error>,
    config: &C,
    encode: E,
    write: W,
    r: Result<(), std::io::Error>,
) -> bool where E: FnOnce(&C) -> String, W: FnOnce(F, &[u8]) -> Result<(), std::io::Error> {
    match created {
        Err(failure) => r == Err::<(), std::io::Error>(failure),
        Ok(handle) => exists|text: String, bytes: &[u8]|
            #[trigger] encode.ensures((config,), text) && bytes@ == bytes_of(text@)
                && #[trigger] write.ensures((handle, bytes), r),
    }
}

/// Saves a configuration value into the file that was created for it.
///
/// `created` is the outcome of creating the file, or of emptying it where it
/// was there; `encode` is the codec, from the value to its text; `write`
/// writes bytes to the file, all of them. Where the file could not be
/// created, that failure is the result, and neither the codec nor the writer
/// has a part in it. Otherwise the value is encoded once, the UTF-8 bytes of
/// its text are written once, and what the writer returns is the result.
///
/// A value that the codec cannot encode is a fault of the program and not a
/// failure that saving reports: `encode` returns the text or does not return.
///
/// The codec must accept the value, and the writer the bytes of its text.
pub fn save_config<F, C, E, W>(
    created: Result<F, std::io::Error>,
    config: &C,
    encode: E,
    write: W,
) -> (r: Result<(), std::io::Error>) where
    E: FnOnce(&C) -> String,
    W: FnOnce(F, &[u8]) -> Result<(), std::io::Error>,

    requires
        created is Ok ==> encode.requires((config,)),
        forall|handle: F, text: String, bytes: &[u8]|
            created == Ok::<F, std::io::Error>(handle) && #[trigger] encode.ensures(
                (config,),
                text,
            ) && bytes@ == bytes_of(text@) ==> #[trigger] write.requires((handle, bytes)),
    ensures
        is_saved(created, config, encode, write, r),
{
    match created {
        Err(failure) => Err(failure),
        Ok(handle) => {
            let text = encode(config);
            write(handle, text.as_str().as_bytes())
        },
    }
}

} // verus!
