//! Trusted boundary to the external text-encoding primitive.
//!
//! Each wrapper makes one call into the tick-encoding crate; its contract
//! restates, over the model in [`crate::model`], what that crate's source
//! shows the call returns.

use crate::model::{ascii_chars_of, decoding_of, encoding_of};
use vstd::prelude::*;

verus! {

/// The human-readable message with which the primitive rejects a malformed
/// text. It depends on the input bytes alone: decoding is deterministic, and
/// the message is the Display form of the error it returns.
pub uninterp spec fn decode_failure_message(t: Seq<u8>) -> Seq<char>;

/// Relies on tick_encoding::encode: every byte that needs no escaping is kept
/// as it is, a backtick is doubled, and every other byte becomes a backtick
/// followed by its two uppercase hex digits.
#[verifier::external_body]
pub(crate) fn tick_encode(input: &[u8]) -> (r: String)
    ensures
        r@ == ascii_chars_of(encoding_of(input@)),
{
    tick_encoding::encode(input).into_owned()
}

/// Relies on tick_encoding::decode: it returns the byte sequence whose
/// canonical encoding the input is, and otherwise an error whose Display
/// form (via tick_encoding::DecodeError) is the forwarded message.
#[verifier::external_body]
pub(crate) fn tick_decode(input: &[u8]) -> (r: Result<Vec<u8>, String>)
    ensures
        match r {
            Ok(d) => decoding_of(input@) == Some(d@),
            Err(m) => decoding_of(input@) is None && m@ == decode_failure_message(input@),
        },
{
    match tick_encoding::decode(input) {
        Ok(d) => Ok(d.into_owned()),
        Err(e) => Err(format!("{e}")),
    }
}

}
