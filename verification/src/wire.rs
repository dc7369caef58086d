//! The byte forms that cross the module boundary: validation parameters go
//! in, a validation result comes out. Both are SCALE encodings, written and
//! read by `parity-scale-codec` for the types of `polkadot-parachain`.

use vstd::prelude::*;
use parity_scale_codec::{Decode, Encode};
use polkadot_parachain::primitives::{BlockData, HeadData, ValidationParams, ValidationResult};
use crate::error::HarnessError;

verus! {

/// The first `width` bytes of `value`, least significant first.
pub open spec fn le_bytes(value: nat, width: nat) -> Seq<u8>
    decreases width,
{
    if width == 0 {
        Seq::empty()
    } else {
        seq![(value % 256) as u8] + le_bytes(value / 256, (width - 1) as nat)
    }
}

/// The compact form in which SCALE writes a length of at most 32 bits: one,
/// two or four bytes whose two lowest bits tell the width, or a marker byte
/// and four bytes.
pub open spec fn compact_length(n: nat) -> Seq<u8>
    recommends
        n <= u32::MAX,
{
    if n < 0x40 {
        le_bytes(4 * n, 1)
    } else if n < 0x4000 {
        le_bytes(4 * n + 1, 2)
    } else if n < 0x4000_0000 {
        le_bytes(4 * n + 2, 4)
    } else {
        seq![3u8] + le_bytes(n, 4)
    }
}

/// The encoding of validation parameters: the parent head and the block
/// data, each behind its compact length, the relay parent's number in four
/// bytes, and a storage root of 32 zero bytes.
pub open spec fn validation_params_encoding(
    parent_head: Seq<u8>,
    block_data: Seq<u8>,
    relay_parent_number: u32,
) -> Seq<u8>
    recommends
        parent_head.len() <= u32::MAX,
        block_data.len() <= u32::MAX,
{
    compact_length(parent_head.len()) + parent_head + compact_length(block_data.len())
        + block_data + le_bytes(relay_parent_number as nat, 4) + Seq::new(32, |i: int| 0u8)
}

/// The relay parent's number that goes with a head of sequence number
/// `number`: one more than the low 32 bits of `number`.
pub open spec fn relay_parent_number_spec(number: u64) -> int {
    number as int % 0x1_0000_0000 + 1
}

/// The head data of the validation result that `bytes` start with, or `None`
/// where they start with none. Bytes after the result do not count.
pub uninterp spec fn decoded_head_data(bytes: Seq<u8>) -> Option<Seq<u8>>;

/// The error of `parity-scale-codec`, `parity_scale_codec::Error`. Nothing is
/// known of what it holds.
#[verifier::external_type_specification]
#[verifier::external_body]
pub struct ExCodecError(parity_scale_codec::Error);

/// What a module's result decodes to.
#[derive(Debug, PartialEq, Eq)]
pub struct ValidationOutput {
    /// The encoded new head, as the module returned it.
    pub head_data: Vec<u8>,
}

/// Calls `Encode::encode` of `parity-scale-codec` on a
/// `polkadot_parachain::primitives::ValidationParams` made of the arguments
/// and a default storage root. Trusted: the result is the fields' encodings
/// in the order of declaration, a byte vector being its compact length and
/// its bytes, a `u32` its four bytes from the lowest, the root its 32 bytes.
/// The crate panics on a vector of more than `u32::MAX` bytes.
#[verifier::external_body]
fn encode_params(parent_head: Vec<u8>, block_data: Vec<u8>, relay_parent_number: u32) -> (bytes:
    Vec<u8>)
    requires
        parent_head@.len() <= u32::MAX,
        block_data@.len() <= u32::MAX,
    ensures
        bytes@ == validation_params_encoding(parent_head@, block_data@, relay_parent_number),
{
    ValidationParams {
        parent_head: HeadData(parent_head),
        block_data: BlockData(block_data),
        relay_parent_number,
        relay_parent_storage_root: Default::default(),
    }.encode()
}

/// Calls `Decode::decode` of `parity-scale-codec` for
/// `polkadot_parachain::primitives::ValidationResult` on `bytes` and keeps
/// the head data. Trusted: whether it succeeds, and with which head data,
/// depends on `bytes` alone.
#[verifier::external_body]
fn decode_result(bytes: &[u8]) -> (outcome: Result<Vec<u8>, parity_scale_codec::Error>)
    ensures
        outcome is Ok <==> decoded_head_data(bytes@) is Some,
        outcome matches Ok(head_data) ==> decoded_head_data(bytes@) == Some(head_data@),
{
    let mut input: &[u8] = bytes;
    ValidationResult::decode(&mut input).map(|result| result.head_data.0)
}

/// The relay parent's number for a head of sequence number `number`.
pub fn relay_parent_number(number: u64) -> (relay: u32)
    requires
        relay_parent_number_spec(number) <= u32::MAX,
    ensures
        relay == relay_parent_number_spec(number),
{
    let low: u32 = (number & 0xFFFF_FFFF) as u32;
    assert(number & 0xFFFF_FFFF == number % 0x1_0000_0000) by (bit_vector);
    low + 1
}

/// Encodes the validation parameters for one cycle: the encoded parent head
/// of sequence number `number`, the encoded block data, and the relay
/// parent's number that goes with `number`.
pub fn encode_validation_params(parent_head: Vec<u8>, block_data: Vec<u8>, number: u64) -> (bytes:
    Vec<u8>)
    requires
        parent_head@.len() <= u32::MAX,
        block_data@.len() <= u32::MAX,
        relay_parent_number_spec(number) <= u32::MAX,
    ensures
        bytes@ == validation_params_encoding(
            parent_head@,
            block_data@,
            relay_parent_number_spec(number) as u32,
        ),
{
    let relay: u32 = relay_parent_number(number);
    encode_params(parent_head, block_data, relay)
}

/// Decodes the bytes that a module returned.
pub fn decode_validation_result(bytes: &[u8]) -> (outcome: Result<ValidationOutput, HarnessError>)
    ensures
        outcome is Ok <==> decoded_head_data(bytes@) is Some,
        outcome matches Ok(output) ==> decoded_head_data(bytes@) == Some(output.head_data@),
        outcome matches Err(e) ==> e == HarnessError::DecodeError,
{
    match decode_result(bytes) {
        Ok(head_data) => Ok(ValidationOutput { head_data }),
        Err(_) => Err(HarnessError::DecodeError),
    }
}

} // verus!
