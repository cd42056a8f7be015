//! A configuration value and the bytes of the file that holds it.
//!
//! A value is written as its UTF-8 bytes, with nothing added. A file's value
//! is its text with one trailing newline, if there is one, taken off.

use vstd::prelude::*;
use vstd::string::StrSliceExecFns;
use vstd::string::StringSliceAdditionalSpecFns;
use vstd::utf8::decode_utf8;
use vstd::utf8::encode_utf8;
use vstd::utf8::encode_utf8_decode_utf8;
use vstd::utf8::encode_utf8_valid_utf8;
use vstd::utf8::valid_utf8;

verus! {

/// True where the last character of `text` is a newline.
pub open spec fn ends_with_newline(text: Seq<char>) -> bool {
    text.len() > 0 && text.last() == '\n'
}

/// `text` without its trailing newline, where it has one; `text` itself
/// otherwise. At most one newline leaves, and nothing else is trimmed.
pub open spec fn spec_strip_trailing_newline(text: Seq<char>) -> Seq<char> {
    if ends_with_newline(text) {
        text.drop_last()
    } else {
        text
    }
}

/// The bytes of the file that holds `value`.
pub open spec fn spec_stored_bytes(value: Seq<char>) -> Seq<u8> {
    encode_utf8(value)
}

/// The value held by a file of the given bytes: none where they are not
/// valid UTF-8.
pub open spec fn spec_value_of_bytes(bytes: Seq<u8>) -> Option<Seq<char>> {
    if valid_utf8(bytes) {
        Some(spec_strip_trailing_newline(decode_utf8(bytes)))
    } else {
        None
    }
}

/// Takes one trailing newline off `text`. An empty text stays empty.
pub fn strip_trailing_newline(text: String) -> (stripped: String)
    ensures
        stripped@ == spec_strip_trailing_newline(text@),
{
    let len: usize = text.as_str().unicode_len();
    if len > 0 && text.as_str().get_char(len - 1) == '\n' {
        let kept = text.as_str().substring_char(0, len - 1);
        assert(text@.subrange(0, len - 1) =~= text@.drop_last());
        kept.to_owned()
    } else {
        text
    }
}

/// The bytes to write into the file that is to hold `value`.
pub fn stored_bytes(value: &str) -> (bytes: Vec<u8>)
    ensures
        bytes@ == spec_stored_bytes(value@),
{
    value.as_bytes_vec()
}

/// `String::from_utf8` of std, with its error dropped: the text that the
/// bytes encode where they are valid UTF-8, and nothing where they are not.
#[verifier::external_body]
fn text_of_bytes(bytes: Vec<u8>) -> (text: Option<String>)
    ensures
        text is Some <==> valid_utf8(bytes@),
        text matches Some(s) ==> s@ == decode_utf8(bytes@),
{
    String::from_utf8(bytes).ok()
}

/// Reads the value out of a file's bytes.
pub fn value_of_bytes(bytes: Vec<u8>) -> (value: Option<String>)
    ensures
        value is Some <==> valid_utf8(bytes@),
        match value {
            Some(v) => spec_value_of_bytes(bytes@) == Some(v@),
            None => spec_value_of_bytes(bytes@) is None,
        },
{
    match text_of_bytes(bytes) {
        Some(text) => Some(strip_trailing_newline(text)),
        None => None,
    }
}

/// What was written is what is read, up to one trailing newline: the bytes
/// stored for a value are always text, and they hold the value itself where
/// it does not end in a newline, and the value without its last character
/// where it does.
pub proof fn stored_value_reads_back(value: Seq<char>)
    ensures
        spec_value_of_bytes(spec_stored_bytes(value)) == Some(spec_strip_trailing_newline(value)),
        !ends_with_newline(value) ==> spec_value_of_bytes(spec_stored_bytes(value)) == Some(value),
        ends_with_newline(value) ==> spec_value_of_bytes(spec_stored_bytes(value)) == Some(
            value.drop_last(),
        ),
{
    encode_utf8_valid_utf8(value);
    encode_utf8_decode_utf8(value);
}

/// Stripping takes off at most one character, and only a newline: a text
/// that ends in a newline is what is left of it followed by that newline, and
/// any other text is left as it is.
pub proof fn strip_takes_one_newline_at_most(text: Seq<char>)
    ensures
        ends_with_newline(text) ==> spec_strip_trailing_newline(text) + seq!['\n'] == text,
        !ends_with_newline(text) ==> spec_strip_trailing_newline(text) == text,
        spec_strip_trailing_newline(text).len() + 1 >= text.len(),
{
    if ends_with_newline(text) {
        assert(text.drop_last() + seq!['\n'] =~= text);
    }
}

} // verus!
