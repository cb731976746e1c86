//! Reading typed fields out of a sequence of field elements.
//!
//! Each reader takes the sequence and the offset of the field's first
//! element. What a reader returns is stated by a spec function of the same
//! sequence and offset.

use vstd::prelude::*;
use cainome::cairo_serde::CairoSerde;
use crate::decimal::{limb_base, U256};
use crate::event::{ByteArray, ByteArrayModel, ContractAddress, DecodeError};
use crate::felt::FieldElement;

verus! {

/// The largest number that a word of 31 bytes holds, `2^248 - 1`.
pub open spec fn word_max() -> nat {
    0xff_ffff_ffff_ffff_ffff_ffff_ffff_ffff_ffff_ffff_ffff_ffff_ffff_ffff_ffff_ffffnat
}

/// The low 128 bits of a field element: the number in its last 16 bytes.
pub open spec fn low_limb(felt: FieldElement) -> u128 {
    (felt.value() % limb_base()) as u128
}

/// The 256-bit integer whose limbs are the low halves of two field elements.
pub open spec fn u256_of(low: FieldElement, high: FieldElement) -> U256 {
    U256 { low: low_limb(low), high: low_limb(high) }
}

/// The field element at `offset`.
pub open spec fn felt_at(felts: Seq<FieldElement>, offset: int) -> Result<
    FieldElement,
    DecodeError,
> {
    if 0 <= offset < felts.len() {
        Ok(felts[offset])
    } else {
        Err(DecodeError::Truncated)
    }
}

/// The address at `offset`: one element, taken whole.
pub open spec fn address_at(felts: Seq<FieldElement>, offset: int) -> Result<
    ContractAddress,
    DecodeError,
> {
    if 0 <= offset < felts.len() {
        Ok(ContractAddress(felts[offset]))
    } else {
        Err(DecodeError::Truncated)
    }
}

/// The boolean at `offset`: true for the element one, false for any other.
pub open spec fn bool_at(felts: Seq<FieldElement>, offset: int) -> Result<bool, DecodeError> {
    if 0 <= offset < felts.len() {
        Ok(felts[offset].value() == 1)
    } else {
        Err(DecodeError::Truncated)
    }
}

/// The 256-bit integer at `offset`: the low limb, then the high limb.
pub open spec fn u256_at(felts: Seq<FieldElement>, offset: int) -> Result<U256, DecodeError> {
    if 0 <= offset && offset + 1 < felts.len() {
        Ok(u256_of(felts[offset], felts[offset + 1]))
    } else {
        Err(DecodeError::Truncated)
    }
}

/// The list of 256-bit integers at `offset`: its length, then two elements
/// for each item.
pub open spec fn u256_array_at(felts: Seq<FieldElement>, offset: int) -> Result<
    Seq<U256>,
    DecodeError,
> {
    if 0 <= offset < felts.len() && offset + 2 * felts[offset].value() < felts.len() {
        Ok(
            Seq::new(
                felts[offset].value(),
                |i: int| u256_of(felts[offset + 1 + 2 * i], felts[offset + 2 + 2 * i]),
            ),
        )
    } else {
        Err(DecodeError::Truncated)
    }
}

/// The byte array at `offset`: the number of full words, the words, the last
/// word and its length. A full word above `2^248 - 1` is out of range. The
/// length of the last word is taken modulo `2^32`.
pub open spec fn byte_array_at(felts: Seq<FieldElement>, offset: int) -> Result<
    ByteArrayModel,
    DecodeError,
> {
    if !(0 <= offset < felts.len()) {
        Err(DecodeError::Truncated)
    } else {
        let words = felts[offset].value();
        if offset + words >= felts.len() {
            Err(DecodeError::Truncated)
        } else if exists|i: int|
            0 <= i < words && (#[trigger] felts[offset + 1 + i]).value() > word_max() {
            Err(DecodeError::OutOfRange)
        } else if offset + words + 2 >= felts.len() {
            Err(DecodeError::Truncated)
        } else {
            Ok(
                ByteArrayModel {
                    data: felts.subrange(offset + 1, offset + 1 + words),
                    pending_word: felts[offset + 1 + words],
                    pending_word_len: (felts[offset + 2 + words].value() % 0x1_0000_0000) as u32,
                },
            )
        }
    }
}

/// Calls `Felt::cairo_deserialize`: the element at `offset`, or an error where
/// the sequence ends at or before `offset`.
#[verifier::external_body]
pub(crate) fn read_felt(felts: &Vec<FieldElement>, offset: usize) -> (r: Result<FieldElement, DecodeError>)
    ensures
        r == felt_at(felts@, offset as int),
{
    let raw: Vec<_> = felts.iter().map(|f| starknet::core::types::Felt::from_bytes_be(&f.bytes())).collect();
    match starknet::core::types::Felt::cairo_deserialize(&raw, offset) {
        Ok(f) => Ok(FieldElement::from_canonical_bytes(f.to_bytes_be())),
        Err(_) => Err(DecodeError::Truncated),
    }
}

/// Calls `ContractAddress::cairo_deserialize`: the element at `offset` as an
/// address, or an error where the sequence ends at or before `offset`.
#[verifier::external_body]
pub(crate) fn read_address(felts: &Vec<FieldElement>, offset: usize) -> (r: Result<
    ContractAddress,
    DecodeError,
>)
    ensures
        r == address_at(felts@, offset as int),
{
    let raw: Vec<_> = felts.iter().map(|f| starknet::core::types::Felt::from_bytes_be(&f.bytes())).collect();
    match cainome::cairo_serde::ContractAddress::cairo_deserialize(&raw, offset) {
        Ok(a) => Ok(ContractAddress(FieldElement::from_canonical_bytes(a.0.to_bytes_be()))),
        Err(_) => Err(DecodeError::Truncated),
    }
}

/// Calls `bool::cairo_deserialize`: whether the element at `offset` is one,
/// or an error where the sequence ends at or before `offset`.
#[verifier::external_body]
pub(crate) fn read_bool(felts: &Vec<FieldElement>, offset: usize) -> (r: Result<bool, DecodeError>)
    ensures
        r == bool_at(felts@, offset as int),
{
    let raw: Vec<_> = felts.iter().map(|f| starknet::core::types::Felt::from_bytes_be(&f.bytes())).collect();
    match bool::cairo_deserialize(&raw, offset) {
        Ok(b) => Ok(b),
        Err(_) => Err(DecodeError::Truncated),
    }
}

/// Calls `U256::cairo_deserialize`: the low 128 bits of the element at
/// `offset` and of the one after it, or an error where the sequence ends
/// before both.
#[verifier::external_body]
pub(crate) fn read_u256(felts: &Vec<FieldElement>, offset: usize) -> (r: Result<U256, DecodeError>)
    ensures
        r == u256_at(felts@, offset as int),
{
    let raw: Vec<_> = felts.iter().map(|f| starknet::core::types::Felt::from_bytes_be(&f.bytes())).collect();
    match cainome::cairo_serde::U256::cairo_deserialize(&raw, offset) {
        Ok(v) => Ok(U256 { low: v.low, high: v.high }),
        Err(_) => Err(DecodeError::Truncated),
    }
}

/// Calls `Vec::<U256>::cairo_deserialize`: the element at `offset` is the
/// number of items, each item is read as `U256::cairo_deserialize` reads it,
/// and the call fails where the sequence ends before the last item. The
/// outside function adds the number of items to `offset` unchecked, so that
/// sum has to stay within the sequence.
#[verifier::external_body]
fn read_u256_array(felts: &Vec<FieldElement>, offset: usize) -> (r: Result<Vec<U256>, DecodeError>)
    requires
        offset < felts.len(),
        offset + felts[offset as int].value() < felts.len(),
    ensures
        match r {
            Ok(v) => u256_array_at(felts@, offset as int) == Ok::<Seq<U256>, DecodeError>(v@),
            Err(e) => u256_array_at(felts@, offset as int) == Err::<Seq<U256>, DecodeError>(e),
        },
{
    let raw: Vec<_> = felts.iter().map(|f| starknet::core::types::Felt::from_bytes_be(&f.bytes())).collect();
    match Vec::<cainome::cairo_serde::U256>::cairo_deserialize(&raw, offset) {
        Ok(v) => Ok(v.iter().map(|u| U256 { low: u.low, high: u.high }).collect()),
        Err(_) => Err(DecodeError::Truncated),
    }
}

/// Calls `ByteArray::cairo_deserialize`: the element at `offset` is the
/// number of full words; then come the words, each at most `2^248 - 1`, the
/// last word, and its length, of which the low 32 bits are kept. The first
/// word out of range or the first missing element decides the error. The
/// outside function adds the number of words to `offset` unchecked, so that
/// sum has to stay within the sequence.
#[verifier::external_body]
fn read_byte_array(felts: &Vec<FieldElement>, offset: usize) -> (r: Result<ByteArray, DecodeError>)
    requires
        offset < felts.len(),
        offset + felts[offset as int].value() < felts.len(),
    ensures
        match r {
            Ok(v) => byte_array_at(felts@, offset as int) == Ok::<ByteArrayModel, DecodeError>(v@),
            Err(e) => byte_array_at(felts@, offset as int) == Err::<ByteArrayModel, DecodeError>(e),
        },
{
    let raw: Vec<_> = felts.iter().map(|f| starknet::core::types::Felt::from_bytes_be(&f.bytes())).collect();
    match cainome::cairo_serde::ByteArray::cairo_deserialize(&raw, offset) {
        Ok(b) => Ok(ByteArray {
            data: b.data.iter().map(|w| FieldElement::from_canonical_bytes(w.felt().to_bytes_be())).collect(),
            pending_word: FieldElement::from_canonical_bytes(b.pending_word.to_bytes_be()),
            pending_word_len: b.pending_word_len as u32,
        }),
        Err(cainome::cairo_serde::Error::Bytes31OutOfRange) => Err(DecodeError::OutOfRange),
        Err(_) => Err(DecodeError::Truncated),
    }
}

/// The list of 256-bit integers at `offset` of `felts`. A length that reaches
/// past the end of the sequence is an error.
pub fn u256_array_field(felts: &Vec<FieldElement>, offset: usize) -> (r: Result<
    Vec<U256>,
    DecodeError,
>)
    ensures
        match r {
            Ok(v) => u256_array_at(felts@, offset as int) == Ok::<Seq<U256>, DecodeError>(v@),
            Err(e) => u256_array_at(felts@, offset as int) == Err::<Seq<U256>, DecodeError>(e),
        },
{
    if offset >= felts.len() {
        return Err(DecodeError::Truncated);
    }
    match felts[offset].to_index(felts.len() - offset) {
        Some(_) => read_u256_array(felts, offset),
        None => Err(DecodeError::Truncated),
    }
}

/// The byte array at `offset` of `felts`. A number of words that reaches past
/// the end of the sequence is an error.
pub fn byte_array_field(felts: &Vec<FieldElement>, offset: usize) -> (r: Result<
    ByteArray,
    DecodeError,
>)
    ensures
        match r {
            Ok(v) => byte_array_at(felts@, offset as int) == Ok::<ByteArrayModel, DecodeError>(v@),
            Err(e) => byte_array_at(felts@, offset as int) == Err::<ByteArrayModel, DecodeError>(e),
        },
{
    if offset >= felts.len() {
        return Err(DecodeError::Truncated);
    }
    match felts[offset].to_index(felts.len() - offset) {
        Some(_) => read_byte_array(felts, offset),
        None => Err(DecodeError::Truncated),
    }
}

} // verus!
