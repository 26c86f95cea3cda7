use base64::engine::general_purpose::STANDARD as B64;
use base64::Engine;
use serde_json::Value;

use vocechat_e2ee::deferred::{
    ct_eq, deferred_decrypt, deferred_encrypt, deferred_encrypt_with, deferred_metadata_commitment,
    deferred_unwrap_key, deferred_verify_metadata, deferred_wrap_key, DeferredLocalIdentity, DEFERRED_ALG,
};
use vocechat_e2ee::error::E2eError;
use vocechat_e2ee::identity::IdentitySecret;
use vocechat_e2ee::x3dh::PreKeyBundle;

/// Canonical metadata bytes: serde_json writes object keys in sorted order.
fn metadata(pairs: Vec<(&str, Value)>) -> Vec<u8> {
    let mut m = serde_json::Map::new();
    for (k, v) in pairs {
        m.insert(k.to_string(), v);
    }
    serde_json::to_vec(&Value::Object(m)).unwrap()
}

fn sample_metadata() -> Vec<u8> {
    metadata(vec![
        ("chat_id", Value::from(42)),
        ("sender_device_id", Value::from("device-a")),
        ("content_type", Value::from("text/plain")),
    ])
}

fn recipient() -> (PreKeyBundle, DeferredLocalIdentity) {
    let (sec, pub_) = IdentitySecret::generate();
    let (spk_sec, spk_pub) = sec.generate_signed_prekey(1).unwrap();
    let bundle = PreKeyBundle {
        identity: pub_,
        signed_prekey: spk_pub,
        one_time_prekey_b64: None,
        one_time_prekey_id: None,
    };
    let local = DeferredLocalIdentity {
        ik_secret: sec.x25519,
        spk_secret: spk_sec.secret,
        otk_secret: None,
    };
    (bundle, local)
}

#[test]
fn unit_round_trip() {
    let (bundle, local) = recipient();
    let enc = deferred_encrypt(b"unit body", &metadata(vec![("k", Value::from("v"))])).unwrap();
    let envelope = deferred_wrap_key(&enc.content_key, &bundle).unwrap();
    let key = deferred_unwrap_key(&envelope, &local).unwrap();
    let pt = deferred_decrypt(&enc.ciphertext, &key, &enc.nonce, &enc.sha256).unwrap();
    assert_eq!(pt, b"unit body");
}

#[test]
fn unit_one_time_prekey_is_used_when_present() {
    let (sec, pub_) = IdentitySecret::generate();
    let (spk_sec, spk_pub) = sec.generate_signed_prekey(1).unwrap();
    let otk = x25519_dalek::StaticSecret::random_from_rng(rand::rngs::OsRng);
    let otk_pub = x25519_dalek::PublicKey::from(&otk);
    let bundle = PreKeyBundle {
        identity: pub_,
        signed_prekey: spk_pub,
        one_time_prekey_b64: Some(B64.encode(otk_pub.as_bytes())),
        one_time_prekey_id: Some(9),
    };
    let local = DeferredLocalIdentity {
        ik_secret: sec.x25519,
        spk_secret: spk_sec.secret,
        otk_secret: Some(otk.to_bytes()),
    };

    let enc = deferred_encrypt(b"otk body", &metadata(vec![])).unwrap();
    let envelope = deferred_wrap_key(&enc.content_key, &bundle).unwrap();
    assert_eq!(envelope.x3dh_initial.used_one_time_prekey_id, Some(9));
    let key = deferred_unwrap_key(&envelope, &local).unwrap();
    assert_eq!(key, enc.content_key);
}

#[test]
fn round_trip_encrypt_wrap_unwrap_decrypt() {
    let (bundle, local) = recipient();
    let body = b"hello from the deferred flow";
    let metadata = sample_metadata();

    let enc = deferred_encrypt(body, &metadata).expect("encrypt");
    assert_ne!(enc.ciphertext, body, "ciphertext must not equal plaintext");

    let envelope = deferred_wrap_key(&enc.content_key, &bundle).expect("wrap");
    assert_eq!(envelope.alg, DEFERRED_ALG);

    let unwrapped_key = deferred_unwrap_key(&envelope, &local).expect("unwrap");
    assert_eq!(unwrapped_key, enc.content_key);

    let decrypted = deferred_decrypt(&enc.ciphertext, &unwrapped_key, &enc.nonce, &enc.sha256).expect("decrypt");
    assert_eq!(decrypted, body);
}

#[test]
fn tampered_ciphertext_fails_to_decrypt() {
    let enc = deferred_encrypt(b"secret body", &sample_metadata()).expect("encrypt");
    let mut tampered = enc.ciphertext.clone();
    tampered[0] ^= 0x01;
    let result = deferred_decrypt(&tampered, &enc.content_key, &enc.nonce, &enc.sha256);
    assert!(result.is_err(), "tampered ciphertext must not decrypt");
}

#[test]
fn tampered_metadata_binding_fails_to_decrypt() {
    let enc = deferred_encrypt(b"secret body", &sample_metadata()).expect("encrypt");
    let tampered_metadata = metadata(vec![
        ("chat_id", Value::from(42)),
        ("sender_device_id", Value::from("device-a")),
        ("content_type", Value::from("image/png")),
    ]);
    let retagged = deferred_encrypt(b"secret body", &tampered_metadata).expect("encrypt");
    assert_ne!(enc.sha256, retagged.sha256);
    let result = deferred_decrypt(&enc.ciphertext, &enc.content_key, &enc.nonce, &retagged.sha256);
    assert!(result.is_err(), "decrypting with a different metadata commitment must fail (AAD binding)");
}

#[test]
fn metadata_key_order_does_not_change_binding() {
    let a = metadata(vec![("chat_id", Value::from(1)), ("kind", Value::from("dm"))]);
    let b = metadata(vec![("kind", Value::from("dm")), ("chat_id", Value::from(1))]);
    let enc_a = deferred_encrypt(b"same body", &a).unwrap();
    let enc_b = deferred_encrypt(b"same body", &b).unwrap();
    assert_eq!(enc_a.sha256, enc_b.sha256);
}

#[test]
fn wrong_recipient_cannot_unwrap_content_key() {
    let (bundle, _correct_local) = recipient();
    let (_other_bundle, wrong_local) = recipient();
    let enc = deferred_encrypt(b"body", &sample_metadata()).unwrap();
    let envelope = deferred_wrap_key(&enc.content_key, &bundle).unwrap();
    let result = deferred_unwrap_key(&envelope, &wrong_local);
    assert!(
        result.is_err() || result.unwrap() != enc.content_key,
        "unwrap with the wrong recipient identity must not yield the real content key"
    );
}

#[test]
fn duplicate_envelope_unwrap_is_idempotent() {
    let (bundle, local) = recipient();
    let enc = deferred_encrypt(b"body", &sample_metadata()).unwrap();
    let envelope = deferred_wrap_key(&enc.content_key, &bundle).unwrap();
    let first = deferred_unwrap_key(&envelope, &local).expect("first unwrap");
    let second = deferred_unwrap_key(&envelope, &local).expect("second unwrap (redelivery)");
    assert_eq!(first, enc.content_key);
    assert_eq!(second, enc.content_key);
}

#[test]
fn metadata_commitment_matches_encrypt_output() {
    let metadata = sample_metadata();
    let enc = deferred_encrypt(b"body", &metadata).unwrap();
    let recomputed = deferred_metadata_commitment(&metadata).unwrap();
    assert_eq!(recomputed, enc.sha256);
    assert!(deferred_verify_metadata(&metadata, &enc.sha256).unwrap());
}

#[test]
fn spoofed_metadata_detected_even_when_ciphertext_and_sha256_are_valid() {
    let real_metadata = sample_metadata();
    let enc = deferred_encrypt(b"body", &real_metadata).unwrap();
    assert!(deferred_decrypt(&enc.ciphertext, &enc.content_key, &enc.nonce, &enc.sha256).is_ok());
    let spoofed_metadata = metadata(vec![
        ("chat_id", Value::from(999)),
        ("sender_device_id", Value::from("attacker")),
        ("content_type", Value::from("text/plain")),
    ]);
    assert!(!deferred_verify_metadata(&spoofed_metadata, &enc.sha256).unwrap());
    assert_ne!(deferred_metadata_commitment(&spoofed_metadata).unwrap(), enc.sha256);
}

#[test]
fn rejects_envelope_with_wrong_algorithm_label() {
    let (bundle, local) = recipient();
    let enc = deferred_encrypt(b"body", &sample_metadata()).unwrap();
    let mut envelope = deferred_wrap_key(&enc.content_key, &bundle).unwrap();
    envelope.alg = "DR+AES-GCM".to_string();
    assert!(deferred_unwrap_key(&envelope, &local).is_err());
}

#[test]
fn commitment_is_sha256_of_canonical_bytes() {
    let c = deferred_metadata_commitment(b"{}").unwrap();
    let expected: [u8; 32] = [
        0x44, 0x13, 0x6f, 0xa3, 0x55, 0xb3, 0x67, 0x8a, 0x11, 0x46, 0xad, 0x16, 0xf7, 0xe8, 0x64, 0x9e,
        0x94, 0xfb, 0x4f, 0xc2, 0x1f, 0xe7, 0x7e, 0x83, 0x10, 0xc0, 0x60, 0xf6, 0x1c, 0xaa, 0xff, 0x8a,
    ];
    assert_eq!(c, expected);
}

#[test]
fn encrypt_with_fixed_key_and_nonce_is_deterministic() {
    let m = sample_metadata();
    let a = deferred_encrypt_with(b"body", &m, [1u8; 32], [2u8; 12]).unwrap();
    let b = deferred_encrypt_with(b"body", &m, [1u8; 32], [2u8; 12]).unwrap();
    assert_eq!(a.ciphertext, b.ciphertext);
    assert_eq!(a.content_key, [1u8; 32]);
    assert_eq!(a.nonce, [2u8; 12]);
    assert_eq!(a.ciphertext.len(), 4 + 16);
    assert_eq!(deferred_decrypt(&a.ciphertext, &[1u8; 32], &[2u8; 12], &a.sha256).unwrap(), b"body");
    assert_eq!(deferred_decrypt(&a.ciphertext, &[3u8; 32], &[2u8; 12], &a.sha256), Err(E2eError::DecryptFailed));
}

#[test]
fn ct_eq_compares_all_bytes() {
    let a = [7u8; 32];
    let mut b = [7u8; 32];
    assert!(ct_eq(&a, &b));
    b[31] = 8;
    assert!(!ct_eq(&a, &b));
}
