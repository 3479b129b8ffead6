//! The `EntangloMessage` envelope.
//!
//! Its `payload` field carries the type-specific payload as base64 of the
//! payload's JSON: JSON-encode the payload, base64 it, then put it in the
//! envelope. On the wire each envelope is itself JSON, framed by a 4-byte
//! big-endian length of at most `MAX_MESSAGE_BYTES`.

use vstd::prelude::*;
use base64::Engine;
use crate::message_type::MessageType;

verus! {

/// The only protocol version this implementation speaks.
pub const PROTOCOL_VERSION: u32 = 1;

/// The largest frame either side accepts, in bytes (4 MiB).
pub const MAX_MESSAGE_BYTES: usize = 4194304;

/// The largest input the base64 encoder is given: its output length must
/// fit in `usize`.
pub const MAX_PAYLOAD_BYTES: usize = 0x3fff_ffff;

/// One envelope.
pub struct EntangloMessage {
    pub protocol_version: u32,
    pub message_type: MessageType,
    pub sender_device_id: String,
    pub session_id: String,
    /// The Unix time the message was made, in seconds, as the IEEE-754
    /// bits of the `f64` the wire carries.
    pub timestamp_bits: u64,
    /// base64 (standard alphabet, padded) of the payload's JSON.
    pub payload: String,
}

/// Why a base64 text did not decode.
#[derive(Debug, Clone, Copy, PartialEq, Eq, Structural)]
pub enum Base64Error {
    /// A byte outside the alphabet, at this offset.
    InvalidByte(usize, u8),
    /// The number of symbols cannot be a valid encoding.
    InvalidLength(usize),
    /// The last symbol has bits set that no encoding produces.
    InvalidLastSymbol(usize, u8),
    /// Padding absent or not canonical.
    InvalidPadding,
}

/// Why an envelope was refused.
#[derive(Debug, Clone, Copy, PartialEq, Eq, Structural)]
pub enum EnvelopeError {
    /// The envelope's `protocolVersion` is not `PROTOCOL_VERSION`. This is
    /// the one error on which the connection is closed.
    UnsupportedVersion(u32),
    /// The payload is not valid base64.
    Base64(Base64Error),
}

/// The standard, padded base64 text of `bytes`, as the `base64` crate's
/// `STANDARD` engine produces it.
pub uninterp spec fn base64_encoding(bytes: Seq<u8>) -> Seq<char>;

/// Whether some bytes have `text` as their base64 encoding.
pub open spec fn is_base64_of_some(text: Seq<char>) -> bool {
    exists|b: Seq<u8>| #[trigger] base64_encoding(b) == text
}

/// `base64::engine::general_purpose::STANDARD.encode`: the result is the
/// standard padded base64 text of the input, named `base64_encoding`.
#[verifier::external_body]
fn base64_standard_encode(bytes: &[u8]) -> (text: String)
    requires
        bytes@.len() <= MAX_PAYLOAD_BYTES,
    ensures
        text@ == base64_encoding(bytes@),
{
    base64::engine::general_purpose::STANDARD.encode(bytes)
}

/// `base64::engine::general_purpose::STANDARD.decode`. The engine requires
/// canonical padding and rejects trailing bits, so it accepts exactly the
/// texts that `encode` produces, and gives back the bytes encoded: on
/// success the result re-encodes to the input, and the encoding of any
/// bytes decodes to those bytes. Which error a refused text gets is not
/// stated.
#[verifier::external_body]
fn base64_standard_decode(text: &str) -> (result: Result<Vec<u8>, Base64Error>)
    ensures
        is_base64_of_some(text@) ==> result is Ok,
        result matches Ok(bytes) ==> base64_encoding(bytes@) == text@,
        result matches Ok(bytes) ==> forall|b: Seq<u8>| #[trigger]
            base64_encoding(b) == text@ ==> b == bytes@,
{
    match base64::engine::general_purpose::STANDARD.decode(text) {
        Ok(bytes) => Ok(bytes),
        Err(base64::DecodeError::InvalidByte(offset, byte)) => Err(
            Base64Error::InvalidByte(offset, byte),
        ),
        Err(base64::DecodeError::InvalidLength(len)) => Err(Base64Error::InvalidLength(len)),
        Err(base64::DecodeError::InvalidLastSymbol(offset, byte)) => Err(
            Base64Error::InvalidLastSymbol(offset, byte),
        ),
        Err(base64::DecodeError::InvalidPadding) => Err(Base64Error::InvalidPadding),
    }
}

/// The base64 text of `bytes`, standard alphabet, padded.
pub fn encode_base64(bytes: &[u8]) -> (text: String)
    requires
        bytes@.len() <= MAX_PAYLOAD_BYTES,
    ensures
        text@ == base64_encoding(bytes@),
{
    base64_standard_encode(bytes)
}

/// The bytes whose standard padded base64 text is `text`. Any text that
/// is the encoding of some bytes decodes to exactly those bytes; any other
/// text is refused.
pub fn decode_base64(text: &str) -> (result: Result<Vec<u8>, Base64Error>)
    ensures
        result is Ok <==> is_base64_of_some(text@),
        result matches Ok(bytes) ==> base64_encoding(bytes@) == text@,
        forall|b: Seq<u8>| #[trigger]
            base64_encoding(b) == text@ ==> (result matches Ok(bytes) && bytes@ == b),
{
    let result = base64_standard_decode(text);
    proof {
        assert forall|b: Seq<u8>| #[trigger]
            base64_encoding(b) == text@ implies (result matches Ok(bytes) && bytes@ == b) by {
            assert(is_base64_of_some(text@));
        }
    }
    result
}

impl EntangloMessage {
    /// A version-`PROTOCOL_VERSION` envelope of type `message_type` from
    /// this device, whose payload is the base64 of `payload_json`.
    /// `timestamp_bits` is the clock reading for the envelope.
    pub fn encode_payload(
        message_type: MessageType,
        sender_device_id: String,
        session_id: String,
        payload_json: &[u8],
        timestamp_bits: u64,
    ) -> (msg: EntangloMessage)
        requires
            payload_json@.len() <= MAX_PAYLOAD_BYTES,
        ensures
            msg.protocol_version == PROTOCOL_VERSION,
            msg.message_type == message_type,
            msg.sender_device_id == sender_device_id,
            msg.session_id == session_id,
            msg.timestamp_bits == timestamp_bits,
            msg.payload@ == base64_encoding(payload_json@),
    {
        EntangloMessage {
            protocol_version: PROTOCOL_VERSION,
            message_type,
            sender_device_id,
            session_id,
            timestamp_bits,
            payload: encode_base64(payload_json),
        }
    }

    /// Accepts a received envelope only if it speaks `PROTOCOL_VERSION`.
    pub fn validate_version(self) -> (result: Result<EntangloMessage, EnvelopeError>)
        ensures
            self.protocol_version == PROTOCOL_VERSION ==> result == Ok::<
                EntangloMessage,
                EnvelopeError,
            >(self),
            self.protocol_version != PROTOCOL_VERSION ==> result == Err::<
                EntangloMessage,
                EnvelopeError,
            >(EnvelopeError::UnsupportedVersion(self.protocol_version)),
    {
        if self.protocol_version != PROTOCOL_VERSION {
            return Err(EnvelopeError::UnsupportedVersion(self.protocol_version));
        }
        Ok(self)
    }

    /// The payload's JSON bytes: the base64 decoding of `payload`. The
    /// payload made by `encode_payload` from some JSON decodes back to
    /// exactly that JSON.
    pub fn decode_payload(&self) -> (result: Result<Vec<u8>, EnvelopeError>)
        ensures
            result is Ok <==> is_base64_of_some(self.payload@),
            result matches Ok(json) ==> base64_encoding(json@) == self.payload@,
            forall|json: Seq<u8>| #[trigger]
                base64_encoding(json) == self.payload@ ==> (result matches Ok(bytes) && bytes@
                    == json),
            result matches Err(e) ==> e is Base64,
    {
        match decode_base64(self.payload.as_str()) {
            Ok(bytes) => Ok(bytes),
            Err(e) => Err(EnvelopeError::Base64(e)),
        }
    }
}

} // verus!
