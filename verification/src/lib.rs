//! An epoch-bounded hash-based signature key-pair lifecycle layer:
//! deterministic key-pair generation from a seed, null-propagating
//! accessors, exactly-once destruction, and reconstruction of a key
//! pair from its canonical SSZ byte encodings.

pub mod codec;
pub mod keys;
pub mod le_bytes;
pub mod lifecycle;
pub mod seed_stream;
mod ssz_codec;

pub use keys::Keypair;
pub use keys::LeanPublicKey;
pub use keys::LeanSecretKey;
pub use keys::PublicKey;
pub use keys::SecretKey;
pub use lifecycle::leansig_keypair_free;
pub use lifecycle::leansig_keypair_from_ssz_bytes;
pub use lifecycle::leansig_keypair_generate;
pub use lifecycle::leansig_keypair_get_private_key;
pub use lifecycle::leansig_keypair_get_public_key;
