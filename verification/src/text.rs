//! Error messages arrive as bytes and are passed on as text.

use crate::buffer::contents;
use crate::buffer::into_vec;
use crate::error::Error;
use crate::error::ErrorKind;
use bytes::Bytes;
use vstd::prelude::*;
use vstd::utf8::decode_utf8;
use vstd::utf8::valid_utf8;

verus! {

/// `String::from_utf8`: succeeds exactly on well-formed UTF-8, and the
/// string then spells the characters that the bytes encode.
#[verifier::external_body]
fn string_from_utf8(bytes: Vec<u8>) -> (r: Result<String, std::string::FromUtf8Error>)
    ensures
        r is Ok <==> valid_utf8(bytes@),
        r matches Ok(text) ==> text@ == decode_utf8(bytes@),
{
    String::from_utf8(bytes)
}

/// Decodes the payload of an error-channel frame. The payload is text
/// exactly when it is well-formed UTF-8; anything else is an
/// [`Error::InvalidErrorMessage`].
pub fn decode_error_message(payload: Bytes) -> (r: Result<String, Error>)
    ensures
        valid_utf8(contents(payload)) ==> (r matches Ok(text) && text@ == decode_utf8(
            contents(payload),
        )),
        !valid_utf8(contents(payload)) ==> (r matches Err(e) && e@
            == ErrorKind::InvalidErrorMessage),
{
    match string_from_utf8(into_vec(payload)) {
        Ok(text) => Ok(text),
        Err(e) => Err(Error::InvalidErrorMessage(e)),
    }
}

} // verus!
