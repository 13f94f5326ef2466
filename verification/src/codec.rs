use crate::errors::GutterError;
use vstd::bytes::lemma_auto_spec_u64_to_from_le_bytes;
use vstd::bytes::spec_u64_from_le_bytes;
use vstd::bytes::spec_u64_to_le_bytes;
use vstd::bytes::u64_from_le_bytes;
use vstd::bytes::u64_to_le_bytes;
use vstd::prelude::*;

verus! {

/// Number of bytes in the wire form of one value.
pub const VALUE_LEN: usize = 8;

/// Number of bytes in the wire form of one acknowledgement.
pub const ACK_LEN: usize = 1;

/// The single byte that stands for an acknowledgement on the wire.
pub const ACK_BYTE: u8 = 0;

/// The wire form of one value: its 64 bits, little-endian.
pub open spec fn wire_value(bits: u64) -> Seq<u8> {
    spec_u64_to_le_bytes(bits)
}

/// The value (as its raw 64 bits) carried by an 8-byte wire form.
pub open spec fn value_of_wire(bytes: Seq<u8>) -> u64
    recommends
        bytes.len() == VALUE_LEN,
{
    spec_u64_from_le_bytes(bytes)
}

/// The wire form of one acknowledgement: the single marker byte.
pub open spec fn wire_ack() -> Seq<u8> {
    seq![ACK_BYTE]
}

/// Encode one value, given as its raw 64 bits, into its fixed 8-byte wire
/// form.
pub fn encode_value(bits: u64) -> (r: Vec<u8>)
    ensures
        r@ == wire_value(bits),
        r@.len() == VALUE_LEN,
{
    u64_to_le_bytes(bits)
}

/// Decode an 8-byte wire form back into the raw 64 bits of the value it
/// carries.
pub fn decode_value(bytes: &[u8]) -> (r: u64)
    requires
        bytes@.len() == VALUE_LEN,
    ensures
        r == value_of_wire(bytes@),
{
    u64_from_le_bytes(bytes)
}

/// Encode one acknowledgement into its single-byte wire form.
pub fn encode_ack() -> (r: Vec<u8>)
    ensures
        r@ == wire_ack(),
        r@.len() == ACK_LEN,
{
    let mut bytes: Vec<u8> = Vec::new();
    bytes.push(ACK_BYTE);
    proof {
        assert(bytes@ =~= wire_ack());
    }
    bytes
}

/// Check that the received bytes are exactly the acknowledgement marker.
/// Anything else — wrong length or wrong byte — is rejected as a protocol
/// violation rather than silently accepted.
pub fn decode_ack(bytes: &[u8]) -> (r: Result<(), GutterError>)
    ensures
        r is Ok <==> bytes@ == wire_ack(),
        r is Err ==> r == Err::<(), GutterError>(GutterError::Protocol),
{
    if bytes.len() == ACK_LEN && bytes[0] == ACK_BYTE {
        proof {
            assert(bytes@ =~= wire_ack());
        }
        Ok(())
    } else {
        Err(GutterError::Protocol)
    }
}

/// Law: decoding the wire form of a value reproduces it exactly. This holds
/// for every 64-bit pattern, hence for every double a caller can hand over
/// — finite, infinite, either signed zero, or any NaN, payload bits
/// included.
pub proof fn lemma_value_round_trip(bits: u64)
    ensures
        value_of_wire(wire_value(bits)) == bits,
{
    lemma_auto_spec_u64_to_from_le_bytes();
}

/// Law: re-encoding a decoded 8-byte wire form reproduces the same bytes,
/// so each value has exactly one wire form and each 8-byte wire form
/// carries exactly one value.
pub proof fn lemma_wire_round_trip(bytes: Seq<u8>)
    requires
        bytes.len() == VALUE_LEN,
    ensures
        wire_value(value_of_wire(bytes)) == bytes,
{
    lemma_auto_spec_u64_to_from_le_bytes();
}

} // verus!
