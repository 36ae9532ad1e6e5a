use leansig_ffi::Keypair;
use leansig_ffi::LeanPublicKey;
use leansig_ffi::LeanSecretKey;
use leansig_ffi::PublicKey;
use leansig_ffi::SecretKey;
use leansig_ffi::leansig_keypair_free;
use leansig_ffi::leansig_keypair_from_ssz_bytes;
use leansig_ffi::leansig_keypair_generate;
use leansig_ffi::leansig_keypair_get_private_key;
use leansig_ffi::leansig_keypair_get_public_key;

fn keypair_encodings(kp: &Keypair) -> (Vec<u8>, Vec<u8>) {
    (kp.secret_key.inner.to_ssz_bytes(), kp.public_key.inner.to_ssz_bytes())
}

#[test]
fn generate_yields_handle_and_views() {
    let kp = leansig_keypair_generate(42, 0, 1024);
    let pk = leansig_keypair_get_public_key(Some(&kp));
    assert!(pk.is_some());
    assert_eq!(pk.unwrap().inner.root.len(), 32);
    let sk = leansig_keypair_get_private_key(Some(&kp));
    assert!(sk.is_some());
    assert_eq!(sk.unwrap().inner.material.len(), 32);
    leansig_keypair_free(Some(kp));
}

#[test]
fn generate_embeds_epoch_window() {
    let kp = leansig_keypair_generate(9, 17, 33);
    assert_eq!(kp.public_key.inner.activation_epoch, 17);
    assert_eq!(kp.public_key.inner.num_active_epochs, 33);
    assert_eq!(kp.secret_key.inner.activation_epoch, 17);
    assert_eq!(kp.secret_key.inner.num_active_epochs, 33);
}

#[test]
fn null_handle_propagates() {
    assert!(leansig_keypair_get_public_key(None).is_none());
    assert!(leansig_keypair_get_private_key(None).is_none());
    leansig_keypair_free(None);
}

#[test]
fn generate_is_deterministic() {
    let kp1 = leansig_keypair_generate(1, 0, 1);
    let kp2 = leansig_keypair_generate(1, 0, 1);
    let (sk1, pk1) = keypair_encodings(&kp1);
    let (sk2, pk2) = keypair_encodings(&kp2);
    assert_eq!(sk1, sk2);
    assert_eq!(pk1, pk2);
}

#[test]
fn distinct_seeds_give_distinct_keys() {
    let kp1 = leansig_keypair_generate(1, 0, 1);
    let kp2 = leansig_keypair_generate(2, 0, 1);
    let (sk1, pk1) = keypair_encodings(&kp1);
    let (sk2, pk2) = keypair_encodings(&kp2);
    assert_ne!(sk1, sk2);
    assert_ne!(pk1, pk2);
}

#[test]
fn round_trip_reencodes_identically() {
    let kp = leansig_keypair_generate(42, 0, 1024);
    let (sk_bytes, pk_bytes) = keypair_encodings(&kp);
    let rebuilt = leansig_keypair_from_ssz_bytes(Some(&sk_bytes), Some(&pk_bytes));
    assert!(rebuilt.is_some());
    let rebuilt = rebuilt.unwrap();
    let (sk_again, pk_again) = keypair_encodings(&rebuilt);
    assert_eq!(sk_again, sk_bytes);
    assert_eq!(pk_again, pk_bytes);
    assert_eq!(rebuilt.secret_key.inner.material, kp.secret_key.inner.material);
    assert_eq!(rebuilt.public_key.inner.root, kp.public_key.inner.root);
}

#[test]
fn empty_buffers_are_rejected() {
    let empty: [u8; 0] = [];
    assert!(leansig_keypair_from_ssz_bytes(Some(&empty), Some(&empty)).is_none());
}

#[test]
fn null_buffers_are_rejected() {
    let kp = leansig_keypair_generate(5, 0, 8);
    let (sk_bytes, pk_bytes) = keypair_encodings(&kp);
    assert!(leansig_keypair_from_ssz_bytes(None, Some(&pk_bytes)).is_none());
    assert!(leansig_keypair_from_ssz_bytes(Some(&sk_bytes), None).is_none());
    assert!(leansig_keypair_from_ssz_bytes(None, None).is_none());
}

#[test]
fn corrupt_offset_table_is_rejected() {
    let kp = leansig_keypair_generate(11, 2, 4);
    let (sk_bytes, pk_bytes) = keypair_encodings(&kp);
    for i in 16..20 {
        let mut corrupt = sk_bytes.clone();
        corrupt[i] ^= 0x01;
        assert!(leansig_keypair_from_ssz_bytes(Some(&corrupt), Some(&pk_bytes)).is_none());
    }
}

#[test]
fn truncated_buffers_are_rejected() {
    let kp = leansig_keypair_generate(11, 2, 4);
    let (sk_bytes, pk_bytes) = keypair_encodings(&kp);
    assert!(leansig_keypair_from_ssz_bytes(Some(&sk_bytes[..19]), Some(&pk_bytes)).is_none());
    assert!(leansig_keypair_from_ssz_bytes(Some(&sk_bytes), Some(&pk_bytes[..47])).is_none());
    let mut long_pk = pk_bytes.clone();
    long_pk.push(0);
    assert!(leansig_keypair_from_ssz_bytes(Some(&sk_bytes), Some(&long_pk)).is_none());
}

#[test]
fn secret_key_encoding_has_exact_layout() {
    let sk = SecretKey::new(LeanSecretKey {
        activation_epoch: 1,
        num_active_epochs: 0x0203,
        material: vec![0xaa, 0xbb],
    });
    let bytes = sk.inner.to_ssz_bytes();
    let expected: Vec<u8> = vec![
        1, 0, 0, 0, 0, 0, 0, 0, // activation epoch, little endian
        0x03, 0x02, 0, 0, 0, 0, 0, 0, // number of active epochs, little endian
        20, 0, 0, 0, // offset table entry: material starts at byte 20
        0xaa, 0xbb, // material
    ];
    assert_eq!(bytes, expected);
}

#[test]
fn public_key_encoding_has_exact_layout() {
    let pk = PublicKey::new(LeanPublicKey {
        activation_epoch: 7,
        num_active_epochs: 256,
        root: vec![0x11; 32],
    });
    let bytes = pk.inner.to_ssz_bytes();
    let mut expected: Vec<u8> = vec![7, 0, 0, 0, 0, 0, 0, 0, 0, 1, 0, 0, 0, 0, 0, 0];
    expected.extend_from_slice(&[0x11; 32]);
    assert_eq!(bytes, expected);
}

#[test]
fn secret_key_decodes_exact_bytes() {
    let mut bytes: Vec<u8> = vec![
        5, 0, 0, 0, 0, 0, 0, 0, // activation epoch 5
        9, 0, 0, 0, 0, 0, 0, 0, // 9 active epochs
        20, 0, 0, 0, // offset table entry
    ];
    bytes.extend_from_slice(&[1, 2, 3]);
    let sk = LeanSecretKey::from_ssz_bytes(&bytes).unwrap();
    assert_eq!(sk.activation_epoch, 5);
    assert_eq!(sk.num_active_epochs, 9);
    assert_eq!(sk.material, vec![1, 2, 3]);

    // An empty material section is still a complete encoding.
    let fixed_only = &bytes[..20];
    let sk2 = LeanSecretKey::from_ssz_bytes(fixed_only).unwrap();
    assert_eq!(sk2.material, Vec::<u8>::new());

    // A misplaced offset table entry is rejected.
    let mut bad_offset = bytes.clone();
    bad_offset[16] = 21;
    assert!(LeanSecretKey::from_ssz_bytes(&bad_offset).is_none());
}

#[test]
fn public_key_decodes_exact_bytes() {
    let mut bytes: Vec<u8> = vec![3, 0, 0, 0, 0, 0, 0, 0, 2, 0, 0, 0, 0, 0, 0, 0];
    bytes.extend_from_slice(&[0x42; 32]);
    let pk = LeanPublicKey::from_ssz_bytes(&bytes).unwrap();
    assert_eq!(pk.activation_epoch, 3);
    assert_eq!(pk.num_active_epochs, 2);
    assert_eq!(pk.root, vec![0x42; 32]);
    assert!(LeanPublicKey::from_ssz_bytes(&bytes[..31]).is_none());
}

#[test]
fn mismatched_keys_are_not_cross_validated() {
    // Pairing the secret key of one identity with the public key of
    // another is accepted: this layer does not detect correspondence.
    let kp1 = leansig_keypair_generate(100, 0, 16);
    let kp2 = leansig_keypair_generate(200, 0, 16);
    let sk_bytes = kp1.secret_key.inner.to_ssz_bytes();
    let pk_bytes = kp2.public_key.inner.to_ssz_bytes();
    let mixed = leansig_keypair_from_ssz_bytes(Some(&sk_bytes), Some(&pk_bytes));
    assert!(mixed.is_some());
}

#[test]
fn allocation_hygiene_sequences() {
    let kp = leansig_keypair_generate(13, 1, 2);
    leansig_keypair_free(Some(kp));

    let kp = leansig_keypair_generate(13, 1, 2);
    {
        let pk = leansig_keypair_get_public_key(Some(&kp));
        assert!(pk.is_some());
    }
    leansig_keypair_free(Some(kp));
}
