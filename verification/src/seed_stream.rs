//! Deterministic derivation of key material from a 64-bit seed.
//!
//! Key generation must be reproducible: identical seeds must yield
//! byte-identical key material on every call. The stream of bytes a
//! seeded generator produces is named, not written out, since it is a
//! function of the seed alone.

use vstd::prelude::*;
use rand::Rng;
use rand::SeedableRng;

verus! {

/// Length in bytes of the stream drawn for one key pair.
pub const SEED_STREAM_BYTES: usize = 64;

/// The byte stream that a generator seeded from `seed` produces.
pub uninterp spec fn rng_stream(seed: u64) -> Seq<u8>;

/// Relies on rand's `StdRng::seed_from_u64` and `Rng::fill_bytes`: a
/// `StdRng` is a pure pseudorandom generator, so the bytes it yields
/// are a function of the seed alone, and the buffer filled here has
/// exactly `SEED_STREAM_BYTES` of them.
#[verifier::external_body]
pub(crate) fn derive_key_material(seed: u64) -> (r: Vec<u8>)
    ensures
        r@ == rng_stream(seed),
        r@.len() == SEED_STREAM_BYTES,
{
    let mut rng = rand::rngs::StdRng::seed_from_u64(seed);
    let mut buf = vec![0u8; SEED_STREAM_BYTES];
    rng.fill_bytes(&mut buf);
    buf
}

} // verus!
