//! The key types of the lifecycle layer and their mathematical models.
//!
//! A key pair owns one public key and one secret key. Each key carries
//! the epoch window it was created for and the scheme's key material as
//! plain bytes; the window denotes the half-open epoch range
//! `[activation_epoch, activation_epoch + num_active_epochs)` and is
//! never validated by this layer.

use vstd::prelude::*;

verus! {

/// Length in bytes of the public key's root material.
pub const PUBLIC_ROOT_BYTES: usize = 32;

/// Length in bytes of the secret key material a fresh key pair carries.
pub const SECRET_MATERIAL_BYTES: usize = 32;

/// Mathematical model of a public key.
#[verifier::ext_equal]
pub ghost struct PublicKeyModel {
    pub activation_epoch: u64,
    pub num_active_epochs: u64,
    pub root: Seq<u8>,
}

/// Mathematical model of a secret key.
#[verifier::ext_equal]
pub ghost struct SecretKeyModel {
    pub activation_epoch: u64,
    pub num_active_epochs: u64,
    pub material: Seq<u8>,
}

/// Mathematical model of a key pair.
#[verifier::ext_equal]
pub ghost struct KeypairModel {
    pub public_key: PublicKeyModel,
    pub secret_key: SecretKeyModel,
}

/// A public key produced by a key pair: an epoch window and the
/// scheme's public root material.
pub struct LeanPublicKey {
    pub activation_epoch: u64,
    pub num_active_epochs: u64,
    pub root: Vec<u8>,
}

/// A secret key produced by a key pair: an epoch window and the
/// scheme's secret key material.
pub struct LeanSecretKey {
    pub activation_epoch: u64,
    pub num_active_epochs: u64,
    pub material: Vec<u8>,
}

/// The public half of a key pair, as handed across the boundary.
pub struct PublicKey {
    pub inner: LeanPublicKey,
}

/// The secret half of a key pair, as handed across the boundary.
pub struct SecretKey {
    pub inner: LeanSecretKey,
}

/// The sole owned aggregate: exactly one public key and one secret key,
/// both set at construction and never mutated afterward.
pub struct Keypair {
    pub public_key: PublicKey,
    pub secret_key: SecretKey,
}

impl View for LeanPublicKey {
    type V = PublicKeyModel;

    open spec fn view(&self) -> PublicKeyModel {
        PublicKeyModel {
            activation_epoch: self.activation_epoch,
            num_active_epochs: self.num_active_epochs,
            root: self.root@,
        }
    }
}

impl View for LeanSecretKey {
    type V = SecretKeyModel;

    open spec fn view(&self) -> SecretKeyModel {
        SecretKeyModel {
            activation_epoch: self.activation_epoch,
            num_active_epochs: self.num_active_epochs,
            material: self.material@,
        }
    }
}

impl View for PublicKey {
    type V = PublicKeyModel;

    open spec fn view(&self) -> PublicKeyModel {
        self.inner@
    }
}

impl View for SecretKey {
    type V = SecretKeyModel;

    open spec fn view(&self) -> SecretKeyModel {
        self.inner@
    }
}

impl View for Keypair {
    type V = KeypairModel;

    open spec fn view(&self) -> KeypairModel {
        KeypairModel { public_key: self.public_key@, secret_key: self.secret_key@ }
    }
}

/// A public key is well formed when its root material has the scheme's
/// fixed length.
pub open spec fn public_wf(m: PublicKeyModel) -> bool {
    m.root.len() == PUBLIC_ROOT_BYTES
}

impl PublicKey {
    /// Wraps a scheme public key for hand-off across the boundary.
    pub fn new(inner: LeanPublicKey) -> (r: Self)
        ensures
            r@ == inner@,
    {
        Self { inner }
    }
}

impl SecretKey {
    /// Wraps a scheme secret key for hand-off across the boundary.
    pub fn new(inner: LeanSecretKey) -> (r: Self)
        ensures
            r@ == inner@,
    {
        Self { inner }
    }
}

} // verus!
