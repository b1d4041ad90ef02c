//! The codec adapter: byte sequences to and from tick-encoded text, and the
//! bridge from an opaque byte-convertible type to that text.

use crate::model::{
    ascii_chars_of, decoding_of, encoding_of, lemma_ascii_chars_of_utf8,
    lemma_decoding_of_encoding_of, lemma_encoding_ascii,
};
use crate::tick;
use vstd::prelude::*;

verus! {

/// What a text value decodes to: the byte sequence whose canonical encoding
/// it is, or `None` when there is none (the text's wire form is its UTF-8
/// bytes).
pub open spec fn decoded_text(t: Seq<char>) -> Option<Seq<u8>> {
    decoding_of(vstd::utf8::encode_utf8(t))
}

/// An error surfaced while turning encoded text back into a value.
#[derive(Debug)]
pub enum CodecError {
    /// The text is not the canonical tick encoding of any byte sequence.
    EncodingMalformed { message: String },
    /// The decoded bytes were rejected by the target type's constructor.
    TargetConversionFailed { message: String },
}

impl CodecError {
    /// The human-readable message the error carries.
    pub open spec fn message_view(&self) -> Seq<char> {
        match self {
            CodecError::EncodingMalformed { message } => message@,
            CodecError::TargetConversionFailed { message } => message@,
        }
    }

    /// The human-readable message the error carries.
    pub fn message(&self) -> (r: String)
        ensures
            r@ == self.message_view(),
    {
        match self {
            CodecError::EncodingMalformed { message } => message.clone(),
            CodecError::TargetConversionFailed { message } => message.clone(),
        }
    }
}

/// A value that can be viewed as a byte sequence and rebuilt from one,
/// possibly rejecting byte sequences that do not fit the type.
pub trait ByteConvertible: Sized {
    /// Which byte sequences can be turned into a value of this type.
    spec fn accepts(bytes: Seq<u8>) -> bool;

    /// The message with which the constructor rejects a byte sequence it
    /// does not accept.
    spec fn rejection_message(bytes: Seq<u8>) -> Seq<char>;

    /// The byte sequence this value stands for.
    spec fn byte_model(&self) -> Seq<u8>;

    /// View the value as bytes.
    fn to_bytes(&self) -> (r: Vec<u8>)
        ensures
            r@ == self.byte_model(),
    ;

    /// Rebuild a value from owned bytes; the error carries a human-readable
    /// message.
    fn try_from_bytes(bytes: Vec<u8>) -> (r: Result<Self, String>)
        ensures
            match r {
                Ok(v) => Self::accepts(bytes@) && v.byte_model() == bytes@,
                Err(m) => !Self::accepts(bytes@) && m@ == Self::rejection_message(bytes@),
            },
    ;
}

impl ByteConvertible for Vec<u8> {
    open spec fn accepts(bytes: Seq<u8>) -> bool {
        true
    }

    open spec fn rejection_message(bytes: Seq<u8>) -> Seq<char> {
        Seq::empty()
    }

    open spec fn byte_model(&self) -> Seq<u8> {
        self@
    }

    fn to_bytes(&self) -> (r: Vec<u8>) {
        self.clone()
    }

    fn try_from_bytes(bytes: Vec<u8>) -> (r: Result<Self, String>) {
        Ok(bytes)
    }
}

/// A byte-convertible value that accepts byte sequences of exactly `N` bytes.
#[derive(Debug)]
pub struct FixedBytes<const N: usize> {
    bytes: Vec<u8>,
}

impl<const N: usize> ByteConvertible for FixedBytes<N> {
    open spec fn accepts(bytes: Seq<u8>) -> bool {
        bytes.len() == N
    }

    open spec fn rejection_message(bytes: Seq<u8>) -> Seq<char> {
        "decoded byte sequence does not have the expected fixed length"@
    }

    closed spec fn byte_model(&self) -> Seq<u8> {
        self.bytes@
    }

    fn to_bytes(&self) -> (r: Vec<u8>) {
        self.bytes.clone()
    }

    fn try_from_bytes(bytes: Vec<u8>) -> (r: Result<Self, String>) {
        if bytes.len() == N {
            Ok(FixedBytes { bytes })
        } else {
            Err("decoded byte sequence does not have the expected fixed length".to_owned())
        }
    }
}

/// Marker type for the tick-encoded textual form of a byte-convertible value.
/// Its associated functions are the adapter; no value of it is ever needed
/// (Verus asks every datatype to have a variant, hence the single unused one).
pub enum TickEncoded {
    Marker,
}

impl TickEncoded {
    /// Encode a byte sequence as tick-encoded text. Encoding is total and
    /// deterministic, and the text decodes back to exactly the input.
    pub fn encode(source: &[u8]) -> (r: String)
        ensures
            r@ == ascii_chars_of(encoding_of(source@)),
            decoded_text(r@) == Some(source@),
    {
        let r = tick::tick_encode(source);
        proof {
            lemma_encoding_ascii(source@);
            lemma_ascii_chars_of_utf8(encoding_of(source@));
            lemma_decoding_of_encoding_of(source@);
        }
        r
    }

    /// Decode tick-encoded text back into the byte sequence it encodes;
    /// rejects exactly the texts that are not valid encoded output, with the
    /// primitive's own message forwarded verbatim.
    pub fn decode(text: &str) -> (r: Result<Vec<u8>, CodecError>)
        ensures
            match r {
                Ok(d) => decoded_text(text@) == Some(d@),
                Err(e) => decoded_text(text@) is None && e is EncodingMalformed
                    && e.message_view() == tick::decode_failure_message(
                    vstd::utf8::encode_utf8(text@),
                ),
            },
    {
        match tick::tick_decode(text.as_bytes()) {
            Ok(d) => Ok(d),
            Err(m) => Err(CodecError::EncodingMalformed { message: m }),
        }
    }

    /// Serialize a byte-convertible value: its byte view, encoded as text.
    pub fn serialize_as<T: ByteConvertible>(source: &T) -> (r: String)
        ensures
            r@ == ascii_chars_of(encoding_of(source.byte_model())),
            decoded_text(r@) == Some(source.byte_model()),
    {
        let bytes = source.to_bytes();
        Self::encode(bytes.as_slice())
    }

    /// Deserialize a byte-convertible value from tick-encoded text: decode
    /// the text, then rebuild the target type from the decoded bytes. Fails
    /// exactly when the text is malformed or the bytes do not fit the target,
    /// forwarding the rejecting collaborator's message verbatim.
    pub fn deserialize_as<T: ByteConvertible>(text: &str) -> (r: Result<T, CodecError>)
        ensures
            match r {
                Ok(v) => decoded_text(text@) matches Some(d) && T::accepts(d) && v.byte_model()
                    == d,
                Err(e) => match e {
                    CodecError::EncodingMalformed { .. } => decoded_text(text@) is None
                        && e.message_view() == tick::decode_failure_message(
                        vstd::utf8::encode_utf8(text@),
                    ),
                    CodecError::TargetConversionFailed { .. } => decoded_text(text@) matches Some(
                        d,
                    ) && !T::accepts(d) && e.message_view() == T::rejection_message(d),
                },
            },
    {
        match Self::decode(text) {
            Ok(d) => match T::try_from_bytes(d) {
                Ok(v) => Ok(v),
                Err(m) => Err(CodecError::TargetConversionFailed { message: m }),
            },
            Err(e) => Err(e),
        }
    }
}

}
