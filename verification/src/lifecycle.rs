//! The boundary surface of the key-pair lifecycle: generation from a
//! seed, null-propagating accessors, exactly-once destruction, and
//! reconstruction from encoded bytes.
//!
//! The null sentinel of the boundary is `None`; an owning handle is an
//! owned `Keypair` value and a borrowed sub-handle is a reference into
//! it, so a sub-handle cannot outlive its key pair and a key pair
//! cannot be destroyed twice.

use vstd::prelude::*;
use crate::codec::public_encoding_valid;
use crate::codec::secret_encoding_valid;
use crate::codec::spec_encode_public;
use crate::codec::spec_encode_secret;
use crate::codec::lemma_encode_public_injective;
use crate::codec::lemma_encode_public_valid;
use crate::codec::lemma_encode_secret_injective;
use crate::codec::lemma_encode_secret_valid;
use crate::keys::Keypair;
use crate::keys::KeypairModel;
use crate::keys::LeanPublicKey;
use crate::keys::LeanSecretKey;
use crate::keys::PublicKey;
use crate::keys::PublicKeyModel;
use crate::keys::SecretKey;
use crate::keys::SecretKeyModel;
use crate::keys::PUBLIC_ROOT_BYTES;
use crate::keys::SECRET_MATERIAL_BYTES;
use crate::keys::public_wf;
use crate::seed_stream::SEED_STREAM_BYTES;
use crate::seed_stream::derive_key_material;
use crate::seed_stream::rng_stream;
use vstd::slice::slice_subrange;
use vstd::slice::slice_to_vec;

verus! {

/// The key pair that generation derives from a seed and an epoch
/// window: the first half of the seed's byte stream becomes the public
/// root material, the second half the secret key material, and the
/// window is embedded unchanged in both keys.
pub open spec fn spec_generated_keypair(
    seed: u64,
    activation_epoch: u64,
    num_active_epochs: u64,
) -> KeypairModel {
    KeypairModel {
        public_key: PublicKeyModel {
            activation_epoch: activation_epoch,
            num_active_epochs: num_active_epochs,
            root: rng_stream(seed).subrange(0, PUBLIC_ROOT_BYTES as int),
        },
        secret_key: SecretKeyModel {
            activation_epoch: activation_epoch,
            num_active_epochs: num_active_epochs,
            material: rng_stream(seed).subrange(
                PUBLIC_ROOT_BYTES as int,
                SEED_STREAM_BYTES as int,
            ),
        },
    }
}

/// Produces a fresh owned key pair from a seed and an epoch window.
///
/// The window is passed through unchanged and never range-checked
/// here; generation always succeeds at this layer.
pub fn leansig_keypair_generate(
    seed: u64,
    activation_epoch: usize,
    num_active_epochs: usize,
) -> (kp: Keypair)
    ensures
        kp@ == spec_generated_keypair(
            seed,
            activation_epoch as u64,
            num_active_epochs as u64,
        ),
        public_wf(kp@.public_key),
        kp@.secret_key.material.len() == SECRET_MATERIAL_BYTES,
{
    let stream = derive_key_material(seed);
    let root = slice_to_vec(slice_subrange(stream.as_slice(), 0, PUBLIC_ROOT_BYTES));
    let material = slice_to_vec(
        slice_subrange(stream.as_slice(), PUBLIC_ROOT_BYTES, SEED_STREAM_BYTES),
    );
    let public_key = PublicKey::new(LeanPublicKey {
        activation_epoch: activation_epoch as u64,
        num_active_epochs: num_active_epochs as u64,
        root,
    });
    let secret_key = SecretKey::new(LeanSecretKey {
        activation_epoch: activation_epoch as u64,
        num_active_epochs: num_active_epochs as u64,
        material,
    });
    let kp = Keypair { public_key, secret_key };
    proof {
        assert(kp@ =~= spec_generated_keypair(
            seed,
            activation_epoch as u64,
            num_active_epochs as u64,
        ));
    }
    kp
}

/// Borrows the public key of a key pair; the null sentinel propagates.
pub fn leansig_keypair_get_public_key(keypair: Option<&Keypair>) -> (r: Option<&PublicKey>)
    ensures
        r is Some <==> keypair is Some,
        keypair matches Some(kp) ==> (r matches Some(pk) && pk@ == kp.public_key@),
{
    match keypair {
        None => None,
        Some(kp) => Some(&kp.public_key),
    }
}

/// Borrows the secret key of a key pair; the null sentinel propagates.
pub fn leansig_keypair_get_private_key(keypair: Option<&Keypair>) -> (r: Option<&SecretKey>)
    ensures
        r is Some <==> keypair is Some,
        keypair matches Some(kp) ==> (r matches Some(sk) && sk@ == kp.secret_key@),
{
    match keypair {
        None => None,
        Some(kp) => Some(&kp.secret_key),
    }
}

/// Destroys a key pair. The null sentinel is a no-op; a real handle is
/// consumed, so a second destruction of the same key pair, or any
/// later use of a sub-handle borrowed from it, cannot be written.
pub fn leansig_keypair_free(key_pair: Option<Keypair>) {
    match key_pair {
        None => (),
        Some(_kp) => (),
    }
}

/// Rebuilds an owned key pair from two independently encoded byte
/// buffers, without invoking key generation.
///
/// Fails to the null sentinel if either buffer is the null sentinel or
/// either decode rejects its bytes; nothing partial is ever returned.
/// The two keys are not cross-validated against each other.
pub fn leansig_keypair_from_ssz_bytes(
    secret_key_bytes: Option<&[u8]>,
    public_key_bytes: Option<&[u8]>,
) -> (r: Option<Keypair>)
    ensures
        r is Some <==> (secret_key_bytes matches Some(sb) && public_key_bytes matches Some(pb)
            && secret_encoding_valid(sb@) && public_encoding_valid(pb@)),
        r matches Some(kp) ==> (secret_key_bytes matches Some(sb)
            && public_key_bytes matches Some(pb)
            && spec_encode_secret(kp.secret_key@) == sb@
            && spec_encode_public(kp.public_key@) == pb@
            && public_wf(kp.public_key@)),
{
    let sk_slice = match secret_key_bytes {
        Some(s) => s,
        None => {
            return None;
        },
    };
    let pk_slice = match public_key_bytes {
        Some(p) => p,
        None => {
            return None;
        },
    };
    let pk = match LeanPublicKey::from_ssz_bytes(pk_slice) {
        Some(key) => key,
        None => {
            return None;
        },
    };
    let sk = match LeanSecretKey::from_ssz_bytes(sk_slice) {
        Some(key) => key,
        None => {
            return None;
        },
    };
    Some(Keypair { public_key: PublicKey::new(pk), secret_key: SecretKey::new(sk) })
}

/// Determinism: two key pairs generated from the same seed and the
/// same epoch window have byte-identical public-key encodings and
/// byte-identical secret-key encodings.
pub proof fn lemma_generate_deterministic(
    k1: KeypairModel,
    k2: KeypairModel,
    seed: u64,
    activation_epoch: u64,
    num_active_epochs: u64,
)
    requires
        k1 == spec_generated_keypair(seed, activation_epoch, num_active_epochs),
        k2 == spec_generated_keypair(seed, activation_epoch, num_active_epochs),
    ensures
        spec_encode_public(k1.public_key) == spec_encode_public(k2.public_key),
        spec_encode_secret(k1.secret_key) == spec_encode_secret(k2.secret_key),
{
}

/// Round trip: a well-formed key pair's two encodings are both
/// accepted by decoding, and any key pair that re-encodes to those
/// same bytes is that key pair itself — so reconstructing a key pair
/// from its encodings yields the key pair back.
pub proof fn lemma_keypair_round_trip(kp: KeypairModel, other: KeypairModel)
    requires
        public_wf(kp.public_key),
        spec_encode_public(other.public_key) == spec_encode_public(kp.public_key),
        spec_encode_secret(other.secret_key) == spec_encode_secret(kp.secret_key),
    ensures
        public_encoding_valid(spec_encode_public(kp.public_key)),
        secret_encoding_valid(spec_encode_secret(kp.secret_key)),
        other == kp,
{
    lemma_encode_public_valid(kp.public_key);
    lemma_encode_secret_valid(kp.secret_key);
    lemma_encode_public_injective(other.public_key, kp.public_key);
    lemma_encode_secret_injective(other.secret_key, kp.secret_key);
    assert(other =~= kp);
}

} // verus!
