//! Files hold bytes, codecs speak text: the two are tied by UTF-8.
use vstd::prelude::*;
use vstd::utf8::*;

verus! {

/// The text that the bytes of a file hold: their UTF-8 decoding, and `None`
/// where the bytes are not UTF-8.
pub open spec fn text_of(bytes: Seq<u8>) -> Option<Seq<char>> {
    if valid_utf8(bytes) {
        Some(decode_utf8(bytes))
    } else {
        None
    }
}

/// The bytes that stand for a text in a file: its UTF-8 encoding.
pub open spec fn bytes_of(text: Seq<char>) -> Seq<u8> {
    encode_utf8(text)
}

/// `String::from_utf8` of std succeeds on UTF-8 and on nothing else, and the
/// string it then returns is the decoding of the bytes it was given.
pub assume_specification[ String::from_utf8 ](bytes: Vec<u8>) -> (r: Result<
    String,
    std::string::FromUtf8Error,
>)
    ensures
        r is Ok <==> text_of(bytes@) is Some,
        r matches Ok(text) ==> text_of(bytes@) == Some(text@),
;

/// What was written is what is read: the bytes that stand for a text are
/// UTF-8, and the text they hold is that text again. No text is lost or
/// altered between a save and the next load of the same bytes, whichever codec
/// wrote it.
pub proof fn lemma_written_text_is_read_back(text: Seq<char>)
    ensures
        text_of(bytes_of(text)) == Some(text),
{
    encode_utf8_valid_utf8(text);
    encode_utf8_decode_utf8(text);
}

} // verus!
