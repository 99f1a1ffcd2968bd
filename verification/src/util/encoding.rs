//! Base64 and UTF-8 at the border to the `base64` crate and to `std`.

use vstd::prelude::*;
use vstd::string::StringExecFns;
use vstd::string::StringSliceAdditionalSpecFns;
use vstd::utf8::decode_utf8;
use vstd::utf8::valid_utf8;
use crate::text::decimal_digits;
use crate::text::format_u128;

verus! {

/// The text that `base64::encode` gives for `bytes`: their base64 encoding
/// in the standard alphabet, padded with `=`.
pub uninterp spec fn base64_standard(bytes: Seq<u8>) -> Seq<char>;

/// Why a text is no base64.
#[derive(Debug, PartialEq, Eq, Clone, Copy)]
pub enum Base64Failure {
    /// A byte outside the alphabet, and where it stands.
    InvalidByte { offset: usize, byte: u8 },
    /// A length that no encoding has.
    InvalidLength,
    /// A last symbol with bits that no encoding sets, and where it stands.
    InvalidLastSymbol { offset: usize, byte: u8 },
}

/// What `base64::decode_config` gives for the text with the bytes `text`
/// under the configuration `STANDARD`: the bytes that it encodes, or why it
/// encodes none.
pub uninterp spec fn base64_standard_decoded(text: Seq<u8>) -> Result<Seq<u8>, Base64Failure>;

/// Calls `base64::encode` on the bytes of `message`. Trusted: the result is
/// the standard padded base64 encoding of those bytes, which is what
/// `base64_standard` names. The call panics where the encoded length, four
/// characters for every three bytes or part of three, is more than can be
/// allocated; such messages are left out.
#[verifier::external_body]
pub(crate) fn base64_encode(message: &str) -> (encoded: String)
    requires
        message.spec_bytes().len() / 3 * 4 + 4 <= isize::MAX,
    ensures
        encoded@ == base64_standard(message.spec_bytes()),
{
    base64::encode(message)
}

/// Calls `base64::decode_config` with `base64::STANDARD` on the bytes of
/// `text`. Trusted: the result is what `base64_standard_decoded` names, with
/// the variant and the fields of a `base64::DecodeError` carried over one by
/// one. The call panics where the length plus seven does not fit `usize`;
/// texts longer than anything that can be allocated are left out.
#[verifier::external_body]
pub(crate) fn base64_decode(text: &str) -> (decoded: Result<Vec<u8>, Base64Failure>)
    requires
        text.spec_bytes().len() <= isize::MAX,
    ensures
        match decoded {
            Ok(bytes) => base64_standard_decoded(text.spec_bytes()) == Ok::<
                Seq<u8>,
                Base64Failure,
            >(bytes@),
            Err(failure) => base64_standard_decoded(text.spec_bytes()) == Err::<
                Seq<u8>,
                Base64Failure,
            >(failure),
        },
{
    match base64::decode_config(text, base64::STANDARD) {
        Ok(bytes) => Ok(bytes),
        Err(base64::DecodeError::InvalidByte(offset, byte)) => Err(
            Base64Failure::InvalidByte { offset, byte },
        ),
        Err(base64::DecodeError::InvalidLength) => Err(Base64Failure::InvalidLength),
        Err(base64::DecodeError::InvalidLastSymbol(offset, byte)) => Err(
            Base64Failure::InvalidLastSymbol { offset, byte },
        ),
    }
}

/// Calls `String::from_utf8`. Trusted: there is a text exactly where the
/// bytes are valid UTF-8, and it is the text that they encode.
#[verifier::external_body]
pub(crate) fn text_from_utf8(bytes: Vec<u8>) -> (text: Option<String>)
    ensures
        text is Some <==> valid_utf8(bytes@),
        text matches Some(t) ==> t@ == decode_utf8(bytes@),
{
    String::from_utf8(bytes).ok()
}

impl Base64Failure {
    /// The sentence that reports the failure.
    pub open spec fn spec_message(self) -> Seq<char> {
        match self {
            Base64Failure::InvalidByte { offset, byte } => "Invalid byte "@ + decimal_digits(
                byte as nat,
            ) + ", offset "@ + decimal_digits(offset as nat) + "."@,
            Base64Failure::InvalidLength => "Encoded text cannot have a 6-bit remainder."@,
            Base64Failure::InvalidLastSymbol { offset, byte } => "Invalid last symbol "@
                + decimal_digits(byte as nat) + ", offset "@ + decimal_digits(offset as nat) + "."@,
        }
    }

    /// The sentence that reports the failure.
    pub fn message(&self) -> (text: String)
        ensures
            text@ == self.spec_message(),
    {
        match *self {
            Base64Failure::InvalidByte { offset, byte } => {
                let mut text = String::from_str("Invalid byte ");
                text.append(format_u128(byte as u128).as_str());
                text.append(", offset ");
                text.append(format_u128(offset as u128).as_str());
                text.append(".");
                text
            },
            Base64Failure::InvalidLength => String::from_str(
                "Encoded text cannot have a 6-bit remainder.",
            ),
            Base64Failure::InvalidLastSymbol { offset, byte } => {
                let mut text = String::from_str("Invalid last symbol ");
                text.append(format_u128(byte as u128).as_str());
                text.append(", offset ");
                text.append(format_u128(offset as u128).as_str());
                text.append(".");
                text
            },
        }
    }
}

} // verus!
