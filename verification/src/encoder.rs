//! Text encoder: turns strings into device bytes through an
//! `encoding_rs` codec, with UTF-8 as the default.

use encoding_rs::Encoding;
use vstd::prelude::*;
use vstd::utf8::encode_utf8;

use crate::errors::PrinterError;

verus! {

#[verifier::external_type_specification]
#[verifier::external_body]
pub struct ExEncoding(Encoding);

/// Relies on `encoding_rs::UTF_8`: the static UTF-8 encoding instance.
#[verifier::external_body]
fn utf8_encoding() -> &'static Encoding {
    encoding_rs::UTF_8
}

/// Relies on `encoding_rs::Encoding`'s equality, which is identity of
/// the static encoding instances: true exactly when `codec` is the
/// UTF-8 encoding.  Nothing is promised of the result; it only selects
/// the branch of `encode_with`'s contract that applies.
#[verifier::external_body]
fn is_utf8_codec(codec: &'static Encoding) -> (r: bool) {
    codec == encoding_rs::UTF_8
}

/// Byte encoder around an `encoding_rs` codec.
///
/// `utf8` records that the codec is the UTF-8 encoding; the two
/// constructors keep it aligned with `codec`, and the contracts of the
/// encoder are exact exactly when it holds.
#[derive(Clone, Copy)]
pub struct Encoder {
    codec: &'static Encoding,
    utf8: bool,
    allow_unencodable: bool,
}

impl Encoder {
    /// True when the codec is known to be the UTF-8 encoding.
    pub closed spec fn is_utf8(&self) -> bool {
        self.utf8
    }

    /// True when unmappable characters are replaced instead of being an
    /// error.
    pub closed spec fn allows_unencodable(&self) -> bool {
        self.allow_unencodable
    }

    /// Create a new encoder around an `encoding_rs` codec.
    pub fn new(codec: &'static Encoding) -> (r: Self)
        ensures
            !r.allows_unencodable(),
    {
        let utf8 = is_utf8_codec(codec);
        Encoder { codec, utf8, allow_unencodable: false }
    }

    /// Allow this encoder to succeed when the text cannot be fully
    /// mapped to the output encoding; the unmappable characters are
    /// then replaced by the codec's escapes.
    pub fn allow_unencodable(self, yes: bool) -> (r: Self)
        ensures
            r.is_utf8() == self.is_utf8(),
            r.allows_unencodable() == yes,
    {
        Encoder { allow_unencodable: yes, ..self }
    }

    /// Encode a string into the codec's bytes.  With the UTF-8 codec
    /// the result is exactly the string's UTF-8 bytes; with another
    /// codec the call fails exactly when the codec reported an
    /// unmappable character and unmappable input is disallowed.
    pub fn encode(&self, data: &str) -> (r: Result<Vec<u8>, PrinterError>)
        ensures
            self.is_utf8() ==> (r matches Ok(v) && v@ == encode_utf8(data@)),
            self.allows_unencodable() ==> r is Ok,
            r matches Err(e) ==> e is Input,
    {
        let (out, unmappable) = encode_with(self, data);
        if unmappable && !self.allow_unencodable {
            Err(PrinterError::Input("text cannot be represented in the codec".to_owned()))
        } else {
            Ok(out)
        }
    }
}

impl Default for Encoder {
    fn default() -> (r: Self)
        ensures
            r.is_utf8(),
            !r.allows_unencodable(),
    {
        Encoder { codec: utf8_encoding(), utf8: true, allow_unencodable: false }
    }
}

/// Relies on `encoding_rs::Encoding::encode`: for the UTF-8 encoding it
/// returns the string's UTF-8 bytes unchanged and reports no unmappable
/// character.  The bool is the unmappable-characters flag of the call.
#[verifier::external_body]
fn encode_with(e: &Encoder, data: &str) -> (r: (Vec<u8>, bool))
    ensures
        e.is_utf8() ==> r.0@ == encode_utf8(data@) && r.1 == false,
{
    let (out, _, unmappable) = e.codec.encode(data);
    (out.into_owned(), unmappable)
}

/// Relies on `char::to_string`: the string holds exactly this
/// character.
#[verifier::external_body]
pub(crate) fn char_to_string(c: char) -> (s: String)
    ensures
        s@ == seq![c],
{
    c.to_string()
}

} // verus!
