//! Turning text into bytes and bytes into text.

use encoding_rs::Encoding;
use vstd::prelude::*;
use vstd::slice::*;
use vstd::utf8::*;

use crate::text::concat3;

verus! {

/// The name of the encoding that a label stands for, where there is one.
pub uninterp spec fn encoding_for(label: Seq<u8>) -> Option<Seq<char>>;

/// The text that bytes stand for in the encoding `name`, and whether some of them made no sense
/// and were replaced.
pub uninterp spec fn decoded(name: Seq<char>, bytes: Seq<u8>) -> (Seq<char>, bool);

/// How many bytes can be decoded at once, so that the text still fits into memory.
pub open spec fn decode_limit() -> nat {
    (isize::MAX / 8) as nat
}

/// Calls `encoding_rs::Encoding::for_label` and takes the name of the encoding, which is named
/// [`encoding_for`]. The name is a label of the encoding itself, and `utf-8` stands for UTF-8.
#[verifier::external_body]
fn encoding_rs_for_label(label: &[u8]) -> (r: Option<String>)
    ensures
        match r {
            Some(n) => encoding_for(label@) == Some(n@),
            None => encoding_for(label@) is None,
        },
        r matches Some(n) ==> encoding_for(encode_utf8(n@)) == Some(n@),
        label@ == encode_utf8("utf-8"@) ==> r.is_some() && r.unwrap()@ == "UTF-8"@,
{
    Encoding::for_label(label).map(|e| e.name().to_string())
}

/// Calls `decode_without_bom_handling` on the encoding with the label `name`. The result is named
/// [`decoded`]; of UTF-8 it is the text that the bytes encode, and something is replaced only
/// where they are not valid. It panics where the text does not fit into memory.
#[verifier::external_body]
fn encoding_rs_decode(name: &str, bytes: &[u8]) -> (r: (String, bool))
    requires
        encoding_for(encode_utf8(name@)) == Some(name@),
        bytes@.len() <= decode_limit(),
    ensures
        (r.0@, r.1) == decoded(name@, bytes@),
        name@ == "UTF-8"@ && valid_utf8(bytes@) ==> r.0@ == decode_utf8(bytes@),
        name@ == "UTF-8"@ ==> r.1 == !valid_utf8(bytes@),
{
    let encoding = Encoding::for_label(name.as_bytes()).unwrap();
    let (text, replaced) = encoding.decode_without_bom_handling(bytes);
    (text.into_owned(), replaced)
}

/// A script turns a text into bytes, as UTF-8. A text that could not be read is empty.
pub fn text_encode(input: Option<String>) -> (r: Vec<u8>)
    ensures
        r@ == encode_utf8(match input {
            Some(s) => s@,
            None => Seq::empty(),
        }),
{
    match input {
        Some(s) => slice_to_vec(s.as_str().as_bytes()),
        None => Vec::new(),
    }
}

/// What a script wants decoded.
pub enum DecodeInput {
    /// Nothing.
    Nothing,
    /// The bytes of a buffer or of a view of one.
    Bytes(Vec<u8>),
    /// Anything else.
    Other,
}

/// Why a script gets no text.
#[derive(Debug)]
pub enum DecodeError {
    /// There are no bytes to decode, or they make no sense.
    Type(String),
    /// There is no such encoding.
    Range(String),
}

/// The message about an input without bytes.
pub const NOT_A_BUFFER: &'static str = "TextDecoder.decode: input must be a BufferSource";

/// The message about bytes that make no sense.
pub const INVALID_SEQUENCE: &'static str = "TextDecoder: invalid byte sequence";

/// The message about an encoding that does not exist.
pub open spec fn unsupported_message(label: Seq<char>) -> Seq<char> {
    "TextDecoder: '"@ + label + "' is not a supported encoding"@
}

/// The label of an encoding; without one UTF-8 is meant.
pub open spec fn label_of(label: Option<String>) -> Seq<char> {
    match label {
        Some(l) => l@,
        None => "utf-8"@,
    }
}

/// What a script gets for bytes that were decoded: the text, unless some of the bytes made no
/// sense and it insists.
pub fn decode_result(text: String, replaced: bool, fatal: bool) -> (r: Result<String, DecodeError>)
    ensures
        if fatal && replaced {
            r matches Err(DecodeError::Type(m)) && m@ == INVALID_SEQUENCE@
        } else {
            r == Ok::<String, DecodeError>(text)
        },
{
    if fatal && replaced {
        Err(DecodeError::Type(INVALID_SEQUENCE.to_string()))
    } else {
        Ok(text)
    }
}

/// A script turns bytes into a text. A label that is missing stands for UTF-8; where `fatal` is
/// set, bytes that make no sense are an error, else they are replaced.
pub fn text_decode(input: DecodeInput, label: Option<String>, fatal: bool) -> (r: Result<
    String,
    DecodeError,
>)
    requires
        input matches DecodeInput::Bytes(b) ==> b@.len() <= decode_limit(),
    ensures
        match input {
            DecodeInput::Nothing => r matches Ok(t) && t@ == Seq::<char>::empty(),
            DecodeInput::Other => r matches Err(DecodeError::Type(m)) && m@ == NOT_A_BUFFER@,
            DecodeInput::Bytes(b) => match encoding_for(encode_utf8(label_of(label))) {
                None => r matches Err(DecodeError::Range(m)) && m@ == unsupported_message(
                    label_of(label),
                ),
                Some(name) => if fatal && decoded(name, b@).1 {
                    r matches Err(DecodeError::Type(m)) && m@ == INVALID_SEQUENCE@
                } else {
                    r matches Ok(t) && t@ == decoded(name, b@).0
                },
            },
        },
        input is Bytes && label_of(label) == "utf-8"@ && valid_utf8(input->Bytes_0@) ==> (
        r matches Ok(t) && t@ == decode_utf8(input->Bytes_0@)),
        input is Bytes && label_of(label) == "utf-8"@ && !valid_utf8(input->Bytes_0@) ==> (r is Err
            <==> fatal),
{
    let bytes = match input {
        DecodeInput::Nothing => {
            return Ok(String::new());
        },
        DecodeInput::Other => {
            return Err(DecodeError::Type(NOT_A_BUFFER.to_string()));
        },
        DecodeInput::Bytes(b) => b,
    };
    let label = match label {
        Some(l) => l,
        None => "utf-8".to_string(),
    };
    match encoding_rs_for_label(label.as_str().as_bytes()) {
        Some(name) => {
            let (text, replaced) = encoding_rs_decode(name.as_str(), bytes.as_slice());
            decode_result(text, replaced, fatal)
        },
        None => Err(
            DecodeError::Range(
                concat3("TextDecoder: '", label.as_str(), "' is not a supported encoding"),
            ),
        ),
    }
}

/// Decoding UTF-8 gives back the text that was encoded.
pub proof fn decoding_gives_back_encoding(s: Seq<char>)
    ensures
        valid_utf8(encode_utf8(s)),
        decode_utf8(encode_utf8(s)) == s,
{
    encode_utf8_valid_utf8(s);
    encode_utf8_decode_utf8(s);
}

/// A label that is missing stands for UTF-8, and any other for itself; the message about one that
/// stands for nothing names it.
pub proof fn labels_stand_for_themselves(label: String, other: Seq<char>)
    ensures
        label_of(Some(label)) == label@,
        label_of(None) == "utf-8"@,
        unsupported_message(other) == "TextDecoder: '"@ + other + "' is not a supported encoding"@,
{
}

} // verus!
