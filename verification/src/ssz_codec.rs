//! The SSZ codec for the primitive fields of a key encoding.
//!
//! The canonical key layout is assembled and checked by verified code;
//! each primitive field crosses through the `ssz` crate, whose encoding
//! of an unsigned integer is its fixed-width little-endian form and
//! whose byte lists serialize as exactly their own bytes.

use vstd::prelude::*;
use crate::le_bytes::u32_le_bytes;
use crate::le_bytes::u64_le_bytes;

verus! {

/// Relies on `ssz`'s `Encode` for `u64`: SSZ serializes a `u64` as its
/// 8-byte little-endian form.
#[verifier::external_body]
pub(crate) fn ssz_encode_u64(x: u64) -> (r: Vec<u8>)
    ensures
        r@ == u64_le_bytes(x),
{
    ssz::Encode::as_ssz_bytes(&x)
}

/// Relies on `ssz`'s `Decode` for `u64`: exactly 8 bytes decode, and
/// the value read is the one whose little-endian form is the input.
#[verifier::external_body]
pub(crate) fn ssz_decode_u64(bytes: &[u8]) -> (r: Option<u64>)
    ensures
        r is Some <==> bytes@.len() == 8,
        r matches Some(x) ==> u64_le_bytes(x) == bytes@,
{
    match <u64 as ssz::Decode>::from_ssz_bytes(bytes) {
        Ok(x) => Some(x),
        Err(_) => None,
    }
}

/// Relies on `ssz`'s `Encode` for `u32`: SSZ serializes a `u32` as its
/// 4-byte little-endian form.
#[verifier::external_body]
pub(crate) fn ssz_encode_u32(x: u32) -> (r: Vec<u8>)
    ensures
        r@ == u32_le_bytes(x),
{
    ssz::Encode::as_ssz_bytes(&x)
}

/// Relies on `ssz`'s `Decode` for `u32`: exactly 4 bytes decode, and
/// the value read is the one whose little-endian form is the input.
#[verifier::external_body]
pub(crate) fn ssz_decode_u32(bytes: &[u8]) -> (r: Option<u32>)
    ensures
        r is Some <==> bytes@.len() == 4,
        r matches Some(x) ==> u32_le_bytes(x) == bytes@,
{
    match <u32 as ssz::Decode>::from_ssz_bytes(bytes) {
        Ok(x) => Some(x),
        Err(_) => None,
    }
}

/// Relies on `ssz`'s `Encode` for `Vec<u8>`: an SSZ byte list
/// serializes as exactly its own bytes.
#[verifier::external_body]
pub(crate) fn ssz_encode_byte_list(v: &Vec<u8>) -> (r: Vec<u8>)
    ensures
        r@ == v@,
{
    ssz::Encode::as_ssz_bytes(v)
}

/// Relies on `ssz`'s `Decode` for `Vec<u8>`: every byte string decodes,
/// to the byte list holding exactly those bytes.
#[verifier::external_body]
pub(crate) fn ssz_decode_byte_list(bytes: &[u8]) -> (r: Option<Vec<u8>>)
    ensures
        r is Some,
        r matches Some(v) ==> v@ == bytes@,
{
    match <Vec<u8> as ssz::Decode>::from_ssz_bytes(bytes) {
        Ok(v) => Some(v),
        Err(_) => None,
    }
}

} // verus!
