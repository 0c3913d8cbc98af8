//! The network collaborator's answer: from the bytes of a response to text.
//!
//! Joining the network and talking HTTP are the firmware's business. What
//! is decided here is how much of a response is read and when its bytes are
//! taken for text.

use vstd::prelude::*;
use vstd::utf8::{decode_utf8, valid_utf8};

verus! {

/// How many bytes of a response body are read; what lies beyond is dropped.
pub const RESPONSE_CAPACITY: usize = 2048;

/// Why a response yields no text.
#[derive(Clone, Copy, Debug, PartialEq, Eq, Structural)]
pub enum ResponseError {
    /// The bytes read are not UTF-8.
    NotText,
}

/// Calls `std::str::from_utf8`, which gives the bytes back as a string slice
/// if they are valid UTF-8, and an error otherwise.
#[verifier::external_body]
fn utf8_text(bytes: &[u8]) -> (text: Option<&str>)
    ensures
        text is Some <==> valid_utf8(bytes@),
        text is Some ==> text.unwrap()@ == decode_utf8(bytes@),
{
    std::str::from_utf8(bytes).ok()
}

/// The part of a response body that is read: its first `RESPONSE_CAPACITY`
/// bytes.
pub open spec fn read_part(body: Seq<u8>) -> Seq<u8> {
    if body.len() <= RESPONSE_CAPACITY {
        body
    } else {
        body.subrange(0, RESPONSE_CAPACITY as int)
    }
}

/// The text of a response: the part of the body that is read, decoded, if
/// it is UTF-8. A body cut in the middle of a character is no text.
pub fn response_text(body: &[u8]) -> (text: Result<String, ResponseError>)
    ensures
        text is Ok <==> valid_utf8(read_part(body@)),
        text is Ok ==> text.unwrap()@ == decode_utf8(read_part(body@)),
        text is Err ==> text == Err::<String, ResponseError>(ResponseError::NotText),
{
    let read = if body.len() <= RESPONSE_CAPACITY {
        body
    } else {
        vstd::slice::slice_subrange(body, 0, RESPONSE_CAPACITY)
    };
    match utf8_text(read) {
        Some(text) => Ok(text.to_owned()),
        None => Err(ResponseError::NotText),
    }
}

} // verus!
