use vocechat_e2ee::bytes::trim_text;
use base64::engine::general_purpose::STANDARD as B64;
use base64::Engine;

use vocechat_e2ee::error::E2eError;
use vocechat_e2ee::identity::{decode_x25519_pub, safety_number, verify_signed_prekey, IdentitySecret};
use vocechat_e2ee::pad::{framed_payload, next_bucket, pad_message, unpad_legacy, unpad_with_parsed};
use vocechat_e2ee::ratchet::RatchetState;
use vocechat_e2ee::sender_keys::SenderKey;
use vocechat_e2ee::v1_compat::{decrypt_v1_envelope, encrypt_v1_p256_envelope, p256_spki_b64_from_secret, v1_packed_bytes};
use vocechat_e2ee::version;
use vocechat_e2ee::x3dh::{x3dh_initiator, x3dh_responder, PreKeyBundle};

fn inner_fields(payload: &[u8]) -> (String, String) {
    let v: serde_json::Value = serde_json::from_slice(payload).unwrap();
    (v["m"].as_str().unwrap().to_string(), v["c"].as_str().unwrap().to_string())
}

fn unpad_message(blob: &[u8]) -> Result<(String, String), E2eError> {
    let parsed = framed_payload(blob).and_then(|payload| {
        let v: serde_json::Value = serde_json::from_slice(&payload).ok()?;
        Some((v["m"].as_str()?.to_string(), v["c"].as_str()?.to_string()))
    });
    unpad_with_parsed(blob, parsed)
}

#[test]
fn version_is_non_empty() {
    assert!(!version().is_empty());
}

#[test]
fn pad_roundtrip_and_bucket() {
    let padded = pad_message("text/plain", "hi").unwrap();
    assert_eq!(padded.len(), 64);
    let (m, c) = unpad_message(&padded).unwrap();
    assert_eq!(m, "text/plain");
    assert_eq!(c, "hi");
    let payload = framed_payload(&padded).unwrap();
    assert_eq!(inner_fields(&payload), (m, c));
}

#[test]
fn legacy_utf8_still_decrypts() {
    assert!(framed_payload(b"hello legacy").is_none());
    assert!(unpad_legacy(b"hello legacy").is_ok());
    let (m, c) = unpad_message(b"hello legacy").unwrap();
    assert_eq!(m, "text/plain");
    assert_eq!(c, "hello legacy");
}

#[test]
fn same_bucket_for_nearby_lengths() {
    let a = pad_message("text/plain", "a").unwrap();
    let b = pad_message("text/plain", "abcd").unwrap();
    assert_eq!(a.len(), b.len());
}

#[test]
fn pad_frames_exact_inner_json() {
    let padded = pad_message("text/plain", "hi").unwrap();
    assert_eq!(&padded[0..4], &[0u8, 0, 0, 27]);
    assert_eq!(&padded[4..31], br#"{"m":"text/plain","c":"hi"}"#.as_slice());
}

#[test]
fn pad_bucket_grows_by_doubling_and_caps() {
    assert_eq!(next_bucket(1).unwrap(), 64);
    assert_eq!(next_bucket(64).unwrap(), 64);
    assert_eq!(next_bucket(65).unwrap(), 128);
    assert_eq!(next_bucket(256 * 1024).unwrap(), 256 * 1024);
    assert!(matches!(next_bucket(256 * 1024 + 1), Err(E2eError::InvalidKey(_))));
    let big = "x".repeat(300 * 1024);
    assert!(pad_message("text/plain", &big).is_err());
}

#[test]
fn legacy_rejects_invalid_utf8() {
    assert!(matches!(unpad_legacy(&[0xff, 0xfe]), Err(E2eError::InvalidKey(_))));
}

#[test]
fn ratchet_roundtrip() {
    let (alice_sec, alice_pub) = IdentitySecret::generate();
    let (bob_sec, bob_pub) = IdentitySecret::generate();
    let (spk_sec, spk_pub) = bob_sec.generate_signed_prekey(1).unwrap();
    let bundle = PreKeyBundle {
        identity: bob_pub,
        signed_prekey: spk_pub.clone(),
        one_time_prekey_b64: None,
        one_time_prekey_id: None,
    };
    let (sk_a, msg, _) = x3dh_initiator(&alice_sec.x25519, &alice_pub, &bundle).unwrap();
    let sk_b = x3dh_responder(&bob_sec.x25519, &spk_sec.secret, None, &msg).unwrap();
    assert_eq!(sk_a.0, sk_b.0);

    let bob_spk_pub = decode_x25519_pub(&spk_pub.dh_pub_b64).unwrap();
    let mut alice = RatchetState::init_alice(sk_a.0, &bob_spk_pub).unwrap();
    let mut bob = RatchetState::init_bob(sk_b.0, spk_sec.secret);

    let (h1, c1) = alice.encrypt(b"hello bob").unwrap();
    let p1 = bob.decrypt(&h1, &c1).unwrap();
    assert_eq!(p1, b"hello bob");

    let (h2, c2) = bob.encrypt(b"hello alice").unwrap();
    let p2 = alice.decrypt(&h2, &c2).unwrap();
    assert_eq!(p2, b"hello alice");
}

fn session() -> (RatchetState, RatchetState) {
    let (bob_sec, _) = IdentitySecret::generate();
    let (spk_sec, spk_pub) = bob_sec.generate_signed_prekey(1).unwrap();
    let sk = [5u8; 32];
    let bob_spk_pub = decode_x25519_pub(&spk_pub.dh_pub_b64).unwrap();
    let alice = RatchetState::init_alice(sk, &bob_spk_pub).unwrap();
    let bob = RatchetState::init_bob(sk, spk_sec.secret);
    (alice, bob)
}

#[test]
fn ratchet_out_of_order_messages_use_skipped_keys() {
    let (mut alice, mut bob) = session();
    let (h1, c1) = alice.encrypt(b"one").unwrap();
    let (h2, c2) = alice.encrypt(b"two").unwrap();
    let (h3, c3) = alice.encrypt(b"three").unwrap();
    assert_eq!((h1.n, h2.n, h3.n), (0, 1, 2));
    assert_eq!(bob.decrypt(&h3, &c3).unwrap(), b"three");
    assert_eq!(bob.mkskipped.len(), 2);
    assert_eq!(bob.decrypt(&h1, &c1).unwrap(), b"one");
    assert_eq!(bob.decrypt(&h2, &c2).unwrap(), b"two");
    assert!(bob.mkskipped.is_empty());
}

#[test]
fn ratchet_replayed_message_is_refused() {
    let (mut alice, mut bob) = session();
    let (h1, c1) = alice.encrypt(b"once").unwrap();
    assert_eq!(bob.decrypt(&h1, &c1).unwrap(), b"once");
    assert!(bob.decrypt(&h1, &c1).is_err());
}

#[test]
fn ratchet_tampered_ciphertext_fails() {
    let (mut alice, mut bob) = session();
    let (h1, mut c1) = alice.encrypt(b"msg").unwrap();
    c1[0] ^= 1;
    assert_eq!(bob.decrypt(&h1, &c1), Err(E2eError::DecryptFailed));
}

#[test]
fn ratchet_too_many_skipped_is_refused() {
    let (mut alice, mut bob) = session();
    let mut last = None;
    for _ in 0..102 {
        last = Some(alice.encrypt(b"x").unwrap());
    }
    let (h, c) = last.unwrap();
    assert!(matches!(bob.decrypt(&h, &c), Err(E2eError::Ratchet(_))));
}

#[test]
fn ratchet_state_dto_roundtrip() {
    let (mut alice, mut bob) = session();
    let (h1, c1) = alice.encrypt(b"before save").unwrap();
    let dto = alice.to_dto();
    let mut restored = RatchetState::from_dto(&dto).unwrap();
    assert_eq!(bob.decrypt(&h1, &c1).unwrap(), b"before save");
    let (h2, c2) = restored.encrypt(b"after restore").unwrap();
    assert_eq!(h2.n, 1);
    assert_eq!(bob.decrypt(&h2, &c2).unwrap(), b"after restore");
}

#[test]
fn ratchet_header_associated_data_is_exact() {
    let h = vocechat_e2ee::ratchet::RatchetHeader { dh_pub_b64: "AB".to_string(), pn: 1, n: 258 };
    let ad = vocechat_e2ee::ratchet::associated_data(&h);
    assert_eq!(ad, b"v2|AB|1|258".to_vec());
}

#[test]
fn sender_key_roundtrip_and_rotate() {
    let mut send = SenderKey::generate("sk-1");
    let mut recv = SenderKey {
        skid: send.skid.clone(),
        chain_key: send.chain_key,
        iteration: 0,
    };
    let (h, c) = send.encrypt(b"channel hi").unwrap();
    assert_eq!(recv.decrypt(&h, &c).unwrap(), b"channel hi");
    send.rotate("sk-2");
    assert_ne!(send.skid, "sk-1");
}

#[test]
fn sender_key_catches_up_and_refuses_replay() {
    let mut send = SenderKey::with_chain_key("sk", [1u8; 32]);
    let mut recv = SenderKey::with_chain_key("sk", [1u8; 32]);
    let (h0, c0) = send.encrypt(b"zero").unwrap();
    let (h1, c1) = send.encrypt(b"one").unwrap();
    assert_eq!(h1.iteration, 1);
    assert_eq!(recv.decrypt(&h1, &c1).unwrap(), b"one");
    assert_eq!(recv.iteration, 2);
    assert!(matches!(recv.decrypt(&h0, &c0), Err(E2eError::Replay(0))));
    let mut other = SenderKey::with_chain_key("other", [1u8; 32]);
    assert!(matches!(other.decrypt(&h0, &c0), Err(E2eError::InvalidKey(_))));
}

#[test]
fn sender_key_rotate_resets_iteration() {
    let mut k = SenderKey::with_chain_key("a", [2u8; 32]);
    k.encrypt(b"x").unwrap();
    k.rotate_with_chain_key("b", [3u8; 32]);
    assert_eq!(k.skid, "b");
    assert_eq!(k.iteration, 0);
    assert_eq!(k.chain_key, [3u8; 32]);
}

#[test]
fn v1_p256_roundtrip() {
    let a = p256::SecretKey::random(&mut rand::rngs::OsRng);
    let b = p256::SecretKey::random(&mut rand::rngs::OsRng);
    let a_d = a.to_bytes();
    let b_d = b.to_bytes();
    let a_spki = p256_spki_b64_from_secret(a_d.as_slice()).unwrap();
    let b_spki = p256_spki_b64_from_secret(b_d.as_slice()).unwrap();
    let env = encrypt_v1_p256_envelope(a_d.as_slice(), &a_spki, &b_spki, "secret v1", [4u8; 16], [6u8; 12]).unwrap();
    let pt = decrypt_v1_envelope(b_d.as_slice(), &b_spki, &env).unwrap();
    assert_eq!(pt, "secret v1");
}

#[test]
fn v1_spki_has_fixed_prefix_and_length() {
    let a = p256::SecretKey::random(&mut rand::rngs::OsRng);
    let spki = B64.decode(p256_spki_b64_from_secret(a.to_bytes().as_slice()).unwrap()).unwrap();
    assert_eq!(spki.len(), 91);
    assert_eq!(&spki[0..4], &[0x30, 0x59, 0x30, 0x13]);
    assert_eq!(spki[26], 0x04);
    assert!(p256_spki_b64_from_secret(&[0u8; 32]).is_err());
}

#[test]
fn v1_unknown_algorithm_is_refused() {
    let a = p256::SecretKey::random(&mut rand::rngs::OsRng);
    let a_d = a.to_bytes();
    let a_spki = p256_spki_b64_from_secret(a_d.as_slice()).unwrap();
    let mut env = encrypt_v1_p256_envelope(a_d.as_slice(), &a_spki, &a_spki, "t", [0u8; 16], [0u8; 12]).unwrap();
    env.alg = "RSA".to_string();
    assert!(decrypt_v1_envelope(a_d.as_slice(), &a_spki, &env).is_err());
}

#[test]
fn x3dh_alice_bob_agree() {
    let (alice_sec, alice_pub) = IdentitySecret::generate();
    let (bob_sec, bob_pub) = IdentitySecret::generate();
    let (spk_sec, spk_pub) = bob_sec.generate_signed_prekey(1).unwrap();
    let otk = x25519_dalek::StaticSecret::random_from_rng(rand::rngs::OsRng);
    let otk_pub = x25519_dalek::PublicKey::from(&otk);

    let bundle = PreKeyBundle {
        identity: bob_pub,
        signed_prekey: spk_pub,
        one_time_prekey_b64: Some(B64.encode(otk_pub.as_bytes())),
        one_time_prekey_id: Some(7),
    };

    let (sk_a, msg, _) = x3dh_initiator(&alice_sec.x25519, &alice_pub, &bundle).unwrap();
    let sk_b = x3dh_responder(&bob_sec.x25519, &spk_sec.secret, Some(&otk.to_bytes()), &msg).unwrap();
    assert_eq!(sk_a.0, sk_b.0);
}

#[test]
fn x3dh_rejects_forged_prekey_signature() {
    let (alice_sec, alice_pub) = IdentitySecret::generate();
    let (bob_sec, bob_pub) = IdentitySecret::generate();
    let (_, mut spk_pub) = bob_sec.generate_signed_prekey(1).unwrap();
    let (_, other_spk) = bob_sec.generate_signed_prekey(2).unwrap();
    spk_pub.signature_b64 = other_spk.signature_b64;
    assert!(verify_signed_prekey(&bob_pub, &spk_pub).is_err());
    let bundle = PreKeyBundle {
        identity: bob_pub,
        signed_prekey: spk_pub,
        one_time_prekey_b64: None,
        one_time_prekey_id: None,
    };
    assert!(matches!(x3dh_initiator(&alice_sec.x25519, &alice_pub, &bundle), Err(E2eError::InvalidKey(_))));
}

#[test]
fn x3dh_responder_needs_otk_secret_when_used() {
    let (alice_sec, alice_pub) = IdentitySecret::generate();
    let (bob_sec, bob_pub) = IdentitySecret::generate();
    let (spk_sec, spk_pub) = bob_sec.generate_signed_prekey(1).unwrap();
    let otk = x25519_dalek::StaticSecret::random_from_rng(rand::rngs::OsRng);
    let otk_pub = x25519_dalek::PublicKey::from(&otk);
    let bundle = PreKeyBundle {
        identity: bob_pub,
        signed_prekey: spk_pub,
        one_time_prekey_b64: Some(B64.encode(otk_pub.as_bytes())),
        one_time_prekey_id: Some(3),
    };
    let (_, msg, _) = x3dh_initiator(&alice_sec.x25519, &alice_pub, &bundle).unwrap();
    assert_eq!(msg.used_one_time_prekey_id, Some(3));
    assert!(matches!(
        x3dh_responder(&bob_sec.x25519, &spk_sec.secret, None, &msg),
        Err(E2eError::X3dh(m)) if m == "missing OTK secret"
    ));
}

#[test]
fn safety_number_is_symmetric() {
    let (_, a) = IdentitySecret::generate();
    let (_, b) = IdentitySecret::generate();
    assert_eq!(safety_number(&a, &b), safety_number(&b, &a));
}

#[test]
fn identity_from_fixed_secrets_is_deterministic() {
    let (s1, p1) = IdentitySecret::from_secrets([9u8; 32], [8u8; 32]);
    let (_, p2) = IdentitySecret::from_secrets([9u8; 32], [8u8; 32]);
    assert_eq!(p1, p2);
    assert_eq!(s1.public().unwrap(), p1);
    let expected = x25519_dalek::PublicKey::from(&x25519_dalek::StaticSecret::from([9u8; 32]));
    assert_eq!(p1.identity_dh_pub_b64, B64.encode(expected.as_bytes()));
}

#[test]
fn error_messages_match_display() {
    assert_eq!(E2eError::UnsupportedVersion(3).to_string(), "unsupported E2EE version: 3");
    assert_eq!(E2eError::Replay(12).to_string(), "replay detected (n=12)");
    assert_eq!(E2eError::DecryptFailed.to_string(), "decryption failed");
    assert_eq!(E2eError::X3dh("x".to_string()).to_string(), "x3dh failed: x");
}

#[test]
fn trim_text_strips_unicode_white_space_at_both_ends() {
    assert_eq!(trim_text("\u{3000} a b \n\t"), "a b");
    assert_eq!(trim_text(" \u{2028} "), "");
    assert_eq!(trim_text("x"), "x");
    assert_eq!(trim_text("\u{200B}x"), "\u{200B}x".trim());
}

#[test]
fn v1_packed_content_is_base64_of_the_envelope_json() {
    assert_eq!(v1_packed_bytes("e30=").unwrap(), b"{}".to_vec());
    assert!(matches!(v1_packed_bytes("%%%"), Err(E2eError::InvalidEnvelope(_))));
}
