//! Decoding of loaded bytes as UTF-8 text.

use vstd::prelude::*;
use vstd::string::StringSliceAdditionalSpecFns;
use vstd::utf8::{decode_utf8, encode_utf8_decode_utf8, valid_utf8};

verus! {

/// The error type of `core::str::from_utf8`, carried through unread.
#[verifier::external_type_specification]
#[verifier::external_body]
pub struct ExUtf8Error(core::str::Utf8Error);

/// `core::str::from_utf8` is taken on trust: it succeeds on exactly the
/// byte slices that are well-formed UTF-8, and the string slice it then
/// returns consists of the very bytes it was given.
pub assume_specification[ core::str::from_utf8 ](v: &[u8]) -> (res: Result<
    &str,
    core::str::Utf8Error,
>)
    ensures
        res is Ok <==> valid_utf8(v@),
        res matches Ok(s) ==> s.spec_bytes() == v@,
;

/// Whether `byte` can begin the encoding of a character.
pub open spec fn can_lead(byte: u8) -> bool {
    byte <= 0x7f || 0xc0 <= byte <= 0xf7
}

/// Bytes that begin with a byte no character's encoding begins with are not
/// well-formed UTF-8, whatever follows.
pub proof fn lemma_stray_lead_is_invalid(bytes: Seq<u8>)
    requires
        bytes.len() > 0,
        !can_lead(bytes[0]),
    ensures
        !valid_utf8(bytes),
{
}

/// The text that `bytes` encode, or `None` where they are not well-formed
/// UTF-8.
pub fn decode(bytes: &[u8]) -> (text: Option<String>)
    ensures
        text is Some <==> valid_utf8(bytes@),
        text matches Some(s) ==> s@ == decode_utf8(bytes@),
{
    match core::str::from_utf8(bytes) {
        Ok(s) => {
            proof {
                encode_utf8_decode_utf8(s@);
            }
            Some(s.to_owned())
        },
        Err(_) => None,
    }
}

} // verus!
