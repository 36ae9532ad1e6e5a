//! The canonical binary layout of a key: fixed-size fields at fixed
//! offsets, and an offset table locating the one variable-length field.
//!
//! A public key encodes to a fixed-size layout: the two epoch-window
//! fields followed by the fixed-length root material. A secret key
//! encodes to the two epoch-window fields, then a 4-byte offset table
//! entry locating the variable-length key material, then the material
//! itself. Decoding accepts exactly the byte strings this layout
//! produces and rejects everything else.

use vstd::prelude::*;
use crate::keys::LeanPublicKey;
use crate::keys::LeanSecretKey;
use crate::keys::PublicKeyModel;
use crate::keys::SecretKeyModel;
use crate::keys::PUBLIC_ROOT_BYTES;
use crate::keys::public_wf;
use crate::le_bytes::u32_le_bytes;
use crate::le_bytes::u64_le_bytes;
use crate::le_bytes::lemma_u32_le_bytes_injective;
use crate::le_bytes::lemma_u64_le_bytes_injective;
use crate::ssz_codec::ssz_decode_byte_list;
use crate::ssz_codec::ssz_decode_u32;
use crate::ssz_codec::ssz_decode_u64;
use crate::ssz_codec::ssz_encode_byte_list;
use crate::ssz_codec::ssz_encode_u32;
use crate::ssz_codec::ssz_encode_u64;
use vstd::slice::slice_subrange;

verus! {

/// Total length in bytes of an encoded public key.
pub const PUBLIC_ENCODING_BYTES: usize = 48;

/// Length in bytes of the fixed part of an encoded secret key: two
/// 8-byte epoch-window fields and one 4-byte offset table entry.
pub const SECRET_FIXED_BYTES: usize = 20;

/// The offset at which a secret key's variable-length material starts;
/// the encoding's single offset table entry must hold exactly this.
pub const SECRET_MATERIAL_OFFSET: u32 = 20;

/// The canonical encoding of a public key.
pub open spec fn spec_encode_public(m: PublicKeyModel) -> Seq<u8> {
    u64_le_bytes(m.activation_epoch) + u64_le_bytes(m.num_active_epochs) + m.root
}

/// The byte strings that decode as a public key: exactly the
/// fixed-size layout's length.
pub open spec fn public_encoding_valid(b: Seq<u8>) -> bool {
    b.len() == PUBLIC_ENCODING_BYTES
}

/// The canonical encoding of a secret key.
pub open spec fn spec_encode_secret(m: SecretKeyModel) -> Seq<u8> {
    u64_le_bytes(m.activation_epoch) + u64_le_bytes(m.num_active_epochs)
        + u32_le_bytes(SECRET_MATERIAL_OFFSET) + m.material
}

/// The byte strings that decode as a secret key: a complete fixed
/// part whose offset table entry locates the material right after it.
pub open spec fn secret_encoding_valid(b: Seq<u8>) -> bool {
    b.len() >= SECRET_FIXED_BYTES && b.subrange(16, 20) == u32_le_bytes(SECRET_MATERIAL_OFFSET)
}

/// How an encoded public key splits into its fields.
pub proof fn lemma_public_encoding_parts(m: PublicKeyModel)
    ensures
        spec_encode_public(m).len() == 16 + m.root.len(),
        spec_encode_public(m).subrange(0, 8) == u64_le_bytes(m.activation_epoch),
        spec_encode_public(m).subrange(8, 16) == u64_le_bytes(m.num_active_epochs),
        spec_encode_public(m).subrange(16, spec_encode_public(m).len() as int) == m.root,
{
    assert(spec_encode_public(m).subrange(0, 8) =~= u64_le_bytes(m.activation_epoch));
    assert(spec_encode_public(m).subrange(8, 16) =~= u64_le_bytes(m.num_active_epochs));
    assert(spec_encode_public(m).subrange(16, spec_encode_public(m).len() as int) =~= m.root);
}

/// How an encoded secret key splits into its fields.
pub proof fn lemma_secret_encoding_parts(m: SecretKeyModel)
    ensures
        spec_encode_secret(m).len() == 20 + m.material.len(),
        spec_encode_secret(m).subrange(0, 8) == u64_le_bytes(m.activation_epoch),
        spec_encode_secret(m).subrange(8, 16) == u64_le_bytes(m.num_active_epochs),
        spec_encode_secret(m).subrange(16, 20) == u32_le_bytes(SECRET_MATERIAL_OFFSET),
        spec_encode_secret(m).subrange(20, spec_encode_secret(m).len() as int) == m.material,
{
    assert(spec_encode_secret(m).subrange(0, 8) =~= u64_le_bytes(m.activation_epoch));
    assert(spec_encode_secret(m).subrange(8, 16) =~= u64_le_bytes(m.num_active_epochs));
    assert(spec_encode_secret(m).subrange(16, 20) =~= u32_le_bytes(SECRET_MATERIAL_OFFSET));
    assert(spec_encode_secret(m).subrange(20, spec_encode_secret(m).len() as int) =~= m.material);
}

/// A well-formed public key's encoding is accepted by decoding.
pub proof fn lemma_encode_public_valid(m: PublicKeyModel)
    requires
        public_wf(m),
    ensures
        public_encoding_valid(spec_encode_public(m)),
{
    lemma_public_encoding_parts(m);
}

/// A secret key's encoding is accepted by decoding.
pub proof fn lemma_encode_secret_valid(m: SecretKeyModel)
    ensures
        secret_encoding_valid(spec_encode_secret(m)),
{
    lemma_secret_encoding_parts(m);
}

/// Public keys with the same encoding are the same key.
pub proof fn lemma_encode_public_injective(m1: PublicKeyModel, m2: PublicKeyModel)
    requires
        spec_encode_public(m1) == spec_encode_public(m2),
    ensures
        m1 == m2,
{
    lemma_public_encoding_parts(m1);
    lemma_public_encoding_parts(m2);
    lemma_u64_le_bytes_injective(m1.activation_epoch, m2.activation_epoch);
    lemma_u64_le_bytes_injective(m1.num_active_epochs, m2.num_active_epochs);
    assert(m1 =~= m2);
}

/// Secret keys with the same encoding are the same key.
pub proof fn lemma_encode_secret_injective(m1: SecretKeyModel, m2: SecretKeyModel)
    requires
        spec_encode_secret(m1) == spec_encode_secret(m2),
    ensures
        m1 == m2,
{
    lemma_secret_encoding_parts(m1);
    lemma_secret_encoding_parts(m2);
    lemma_u64_le_bytes_injective(m1.activation_epoch, m2.activation_epoch);
    lemma_u64_le_bytes_injective(m1.num_active_epochs, m2.num_active_epochs);
    assert(m1 =~= m2);
}

/// Corruption rejection at the offset table: flipping any single byte
/// of a valid secret-key encoding's offset table entry makes decoding
/// reject the buffer.
pub proof fn lemma_secret_offset_corruption_rejected(m: SecretKeyModel, i: int, v: u8)
    requires
        16 <= i < 20,
        v != spec_encode_secret(m)[i],
    ensures
        !secret_encoding_valid(spec_encode_secret(m).update(i, v)),
{
    let b = spec_encode_secret(m);
    let c = b.update(i, v);
    lemma_secret_encoding_parts(m);
    if secret_encoding_valid(c) {
        assert(c.subrange(16, 20)[i - 16] == v);
        assert(b.subrange(16, 20)[i - 16] == b[i]);
        assert(c.subrange(16, 20) == u32_le_bytes(SECRET_MATERIAL_OFFSET));
        assert(b.subrange(16, 20) == u32_le_bytes(SECRET_MATERIAL_OFFSET));
        assert(false);
    }
}

impl LeanPublicKey {
    /// Encodes this public key in the canonical fixed-size layout.
    pub fn to_ssz_bytes(&self) -> (r: Vec<u8>)
        ensures
            r@ == spec_encode_public(self@),
    {
        let mut out = ssz_encode_u64(self.activation_epoch);
        let mut tail = ssz_encode_u64(self.num_active_epochs);
        out.append(&mut tail);
        let mut root_bytes = ssz_encode_byte_list(&self.root);
        out.append(&mut root_bytes);
        proof {
            assert(out@ =~= spec_encode_public(self@));
        }
        out
    }

    /// Decodes a public key from its canonical layout; rejects any
    /// buffer of the wrong length.
    pub fn from_ssz_bytes(bytes: &[u8]) -> (r: Option<LeanPublicKey>)
        ensures
            r is Some <==> public_encoding_valid(bytes@),
            r matches Some(k) ==> spec_encode_public(k@) == bytes@ && public_wf(k@),
    {
        if bytes.len() != PUBLIC_ENCODING_BYTES {
            return None;
        }
        let activation_epoch = match ssz_decode_u64(slice_subrange(bytes, 0, 8)) {
            Some(x) => x,
            None => {
                return None;
            },
        };
        let num_active_epochs = match ssz_decode_u64(slice_subrange(bytes, 8, 16)) {
            Some(x) => x,
            None => {
                return None;
            },
        };
        let root = match ssz_decode_byte_list(
            slice_subrange(bytes, 16, PUBLIC_ENCODING_BYTES),
        ) {
            Some(v) => v,
            None => {
                return None;
            },
        };
        let k = LeanPublicKey { activation_epoch, num_active_epochs, root };
        proof {
            assert(spec_encode_public(k@) =~= bytes@);
            assert(k@.root.len() == PUBLIC_ROOT_BYTES);
        }
        Some(k)
    }
}

impl LeanSecretKey {
    /// Encodes this secret key in the canonical layout with its offset
    /// table entry.
    pub fn to_ssz_bytes(&self) -> (r: Vec<u8>)
        ensures
            r@ == spec_encode_secret(self@),
    {
        let mut out = ssz_encode_u64(self.activation_epoch);
        let mut tail = ssz_encode_u64(self.num_active_epochs);
        out.append(&mut tail);
        let mut offset_bytes = ssz_encode_u32(SECRET_MATERIAL_OFFSET);
        out.append(&mut offset_bytes);
        let mut material_bytes = ssz_encode_byte_list(&self.material);
        out.append(&mut material_bytes);
        proof {
            assert(out@ =~= spec_encode_secret(self@));
        }
        out
    }

    /// Decodes a secret key from its canonical layout; rejects a
    /// truncated fixed part and any mislocated offset table entry.
    pub fn from_ssz_bytes(bytes: &[u8]) -> (r: Option<LeanSecretKey>)
        ensures
            r is Some <==> secret_encoding_valid(bytes@),
            r matches Some(k) ==> spec_encode_secret(k@) == bytes@,
    {
        if bytes.len() < SECRET_FIXED_BYTES {
            return None;
        }
        let activation_epoch = match ssz_decode_u64(slice_subrange(bytes, 0, 8)) {
            Some(x) => x,
            None => {
                return None;
            },
        };
        let num_active_epochs = match ssz_decode_u64(slice_subrange(bytes, 8, 16)) {
            Some(x) => x,
            None => {
                return None;
            },
        };
        let offset = match ssz_decode_u32(slice_subrange(bytes, 16, SECRET_FIXED_BYTES)) {
            Some(x) => x,
            None => {
                return None;
            },
        };
        if offset != SECRET_MATERIAL_OFFSET {
            proof {
                if secret_encoding_valid(bytes@) {
                    lemma_u32_le_bytes_injective(offset, SECRET_MATERIAL_OFFSET);
                }
            }
            return None;
        }
        let material = match ssz_decode_byte_list(
            slice_subrange(bytes, SECRET_FIXED_BYTES, bytes.len()),
        ) {
            Some(v) => v,
            None => {
                return None;
            },
        };
        let k = LeanSecretKey { activation_epoch, num_active_epochs, material };
        proof {
            assert(spec_encode_secret(k@) =~= bytes@);
        }
        Some(k)
    }
}

} // verus!
