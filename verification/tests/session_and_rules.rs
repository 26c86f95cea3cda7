use base64::engine::general_purpose::STANDARD as B64;
use base64::Engine;

use vocechat_e2ee::bot_e2ee::{
    decode_inbound_wire, generate_material, inbound_text, open_inbound_envelope, rotate_material, take_one_time_prekey,
    to_usable_device, BotE2eeError, DeviceWrap, PeekedOtp, WrapAction, OTP_BATCH_SIZE,
};
use vocechat_e2ee::deferred::{deferred_encrypt, deferred_wrap_key};
use vocechat_e2ee::dm_session::{dm_session_open_initiator, dm_session_open_responder};
use vocechat_e2ee::e2e_api::{
    check_backup_upload, check_bundle, check_dm_setting, check_identity_upload, check_pending_envelope,
    check_prekeys_upload, E2eApiRejection,
};
use vocechat_e2ee::e2ee_v2::{E2eProperties, PropValue};
use vocechat_e2ee::error::E2eError;
use vocechat_e2ee::ffi_args::{b64_or_text, decode12, decode32};
use vocechat_e2ee::identity::IdentitySecret;
use vocechat_e2ee::message::{
    ChatMessageContent, ChatMessagePayload, DateTime, MessageDetail, MessageNormal, MessageReaction,
    MessageReactionDetail, MessageReactionEdit, MessageReactionLike, MessageTarget,
};
use vocechat_e2ee::mls::application::PayloadKind;
use vocechat_e2ee::mls::commands::{
    application_kind_number, application_payload, check_count, decode, identity_item, key_package_item,
    metadata_key, required_string,
};
use vocechat_e2ee::send_rules::{
    dm_notify_tokens, e2e_requirement, group_notify_tokens, group_send_targets, merged_update, replace_all,
    required_by_setting, E2eRequirement, MergedUpdate, NotifyCandidate,
};
use vocechat_e2ee::x3dh::PreKeyBundle;

#[test]
fn ffi_dm_session_roundtrip() {
    let (alice_sec, alice_pub) = IdentitySecret::generate();
    let (bob_sec, bob_pub) = IdentitySecret::generate();
    let (spk_sec, spk_pub) = bob_sec.generate_signed_prekey(1).unwrap();
    let bundle = PreKeyBundle {
        identity: bob_pub,
        signed_prekey: spk_pub,
        one_time_prekey_b64: None,
        one_time_prekey_id: None,
    };
    let mut open = dm_session_open_initiator(&alice_sec.x25519, &alice_pub, &bundle, b"hello bob").unwrap();
    assert_eq!(open.used_signed_prekey_id, 1);
    let (mut bob_state, pt) = dm_session_open_responder(
        &bob_sec.x25519,
        &spk_sec.secret,
        None,
        &open.x3dh_initial,
        &open.header,
        &open.ciphertext,
    )
    .unwrap();
    assert_eq!(pt, b"hello bob");
    let (h, c) = bob_state.encrypt(b"hello alice").unwrap();
    assert_eq!(open.state.decrypt(&h, &c).unwrap(), b"hello alice");
}

#[test]
fn dm_session_refuses_unusable_bundle_and_missing_otk() {
    let (alice_sec, alice_pub) = IdentitySecret::generate();
    let (bob_sec, bob_pub) = IdentitySecret::generate();
    let (spk_sec, spk_pub) = bob_sec.generate_signed_prekey(1).unwrap();
    let mut bad = PreKeyBundle {
        identity: bob_pub.clone(),
        signed_prekey: spk_pub.clone(),
        one_time_prekey_b64: Some("not base64".to_string()),
        one_time_prekey_id: Some(1),
    };
    assert!(matches!(
        dm_session_open_initiator(&alice_sec.x25519, &alice_pub, &bad, b"x"),
        Err(E2eError::InvalidKey(_))
    ));
    let otk = x25519_dalek::StaticSecret::random_from_rng(rand::rngs::OsRng);
    bad.one_time_prekey_b64 = Some(B64.encode(x25519_dalek::PublicKey::from(&otk).as_bytes()));
    let open = dm_session_open_initiator(&alice_sec.x25519, &alice_pub, &bad, b"x").unwrap();
    assert!(dm_session_open_responder(&bob_sec.x25519, &spk_sec.secret, None, &open.x3dh_initial, &open.header, &open.ciphertext)
        .is_err());
    let (_, pt) = dm_session_open_responder(
        &bob_sec.x25519,
        &spk_sec.secret,
        Some(&otk.to_bytes()),
        &open.x3dh_initial,
        &open.header,
        &open.ciphertext,
    )
    .unwrap();
    assert_eq!(pt, b"x");
}

#[test]
fn ffi_argument_decoding() {
    let k = B64.encode([1u8; 32]);
    assert_eq!(decode32(Some(&k), "key").unwrap(), [1u8; 32]);
    assert_eq!(decode32(None, "key").unwrap_err(), "missing key");
    assert_eq!(decode32(Some(&B64.encode([1u8; 31])), "key").unwrap_err(), "key must be 32 bytes");
    assert!(decode32(Some("@@"), "key").is_err());
    assert_eq!(decode12(Some(&B64.encode([2u8; 12])), "nonce").unwrap(), [2u8; 12]);
    assert_eq!(decode12(Some(&k), "nonce").unwrap_err(), "nonce must be 12 bytes");
    assert_eq!(b64_or_text(Some("aGk="), Some("ignored")).unwrap(), b"hi");
    assert_eq!(b64_or_text(None, Some("plain")).unwrap(), b"plain");
    assert_eq!(b64_or_text(None, None).unwrap(), b"");
}

#[test]
fn mls_command_argument_rules() {
    assert_eq!(decode(Some("aGk="), "body_b64", 2).unwrap(), b"hi");
    assert_eq!(decode(None, "body_b64", 2).unwrap_err().0, "missing body_b64");
    assert_eq!(decode(Some("!"), "body_b64", 2).unwrap_err().0, "invalid base64 in body_b64");
    assert_eq!(decode(Some("aGk="), "body_b64", 1).unwrap_err().0, "body_b64 exceeds maximum length");
    assert_eq!(required_string(Some("p"), "path").unwrap(), "p");
    assert_eq!(required_string(Some(""), "path").unwrap_err().0, "missing path");
    assert!(check_count(1, "c").is_ok());
    assert_eq!(check_count(0, "invalid identity count").unwrap_err().0, "invalid identity count");
    assert!(check_count(1025, "c").is_err());
    assert_eq!(identity_item(Some("")).unwrap_err().0, "invalid identity length");
    assert_eq!(identity_item(None).unwrap_err().0, "identity must be base64");
    assert_eq!(key_package_item(Some("??")).unwrap_err().0, "invalid KeyPackage base64");
    assert_eq!(application_kind_number(Some(300)).unwrap_err().0, "invalid application kind");
    assert_eq!(application_kind_number(Some(8)).unwrap(), 8);
}

#[test]
fn metadata_keys_parse_as_u16() {
    assert_eq!(metadata_key("1").unwrap(), 1);
    assert_eq!(metadata_key("+42").unwrap(), 42);
    assert_eq!(metadata_key("0065535").unwrap(), 65535);
    for bad in ["", "+", "-1", "65536", "1a", " 1", "99999999999"] {
        assert_eq!(metadata_key(bad).unwrap_err().0, "metadata keys must be u16 integers", "{bad}");
        assert!(bad.parse::<u16>().is_err());
    }
}

#[test]
fn application_payload_from_command_arguments() {
    let entries = vec![
        ("2".to_string(), Some("AQ==".to_string())),
        ("1".to_string(), Some("dGV4dA==".to_string())),
        ("01".to_string(), Some("eA==".to_string())),
    ];
    let p = application_payload(1, b"body".to_vec(), Some(Some(entries))).unwrap();
    assert_eq!(p.kind, PayloadKind::Text);
    assert_eq!(p.metadata, std::collections::BTreeMap::from([(1, b"x".to_vec()), (2, vec![1])]));
    assert_eq!(application_payload(1, vec![], Some(None)).unwrap_err().0, "metadata must be an object");
    let bad = vec![("k".to_string(), Some("AQ==".to_string()))];
    assert_eq!(application_payload(1, vec![], Some(Some(bad))).unwrap_err().0, "metadata keys must be u16 integers");
    let not_string = vec![("3".to_string(), None)];
    assert_eq!(
        application_payload(1, vec![], Some(Some(not_string))).unwrap_err().0,
        "metadata values must be base64 strings"
    );
    assert_eq!(application_payload(12, vec![], None).unwrap_err().0, "unknown application payload kind");
    let many: Vec<(String, Option<String>)> = (0..33).map(|i| (i.to_string(), Some("AQ==".to_string()))).collect();
    assert_eq!(application_payload(1, vec![], Some(Some(many))).unwrap_err().0, "too many metadata entries");
}

fn bot_device_and_material() -> (vocechat_e2ee::bot_e2ee::UsableDevice, vocechat_e2ee::bot_e2ee::GeneratedMaterial) {
    let g = generate_material().unwrap();
    let device = to_usable_device(
        7,
        "bot:7".to_string(),
        1,
        Some(g.identity_public.clone()),
        Some(g.signed_prekey_public.dh_pub_b64.clone()),
        Some(g.signed_prekey_public.signature_b64.clone()),
    )
    .unwrap();
    (device, g)
}

#[test]
fn bot_inbound_envelope_opens_and_consumes_the_one_time_prekey() {
    let (device, mut g) = bot_device_and_material();
    let metadata = br#"{"content_type":"text/plain"}"#;
    let enc = deferred_encrypt(b"secret hello for the bot", metadata).unwrap();
    let (key_id, otk_pub) = g.otp_publics[2].clone();
    let bundle = PreKeyBundle {
        identity: device.identity.clone(),
        signed_prekey: device.signed_prekey.clone(),
        one_time_prekey_b64: Some(otk_pub),
        one_time_prekey_id: Some(key_id),
    };
    let envelope = deferred_wrap_key(&enc.content_key, &bundle).unwrap();
    let (ct, nonce) = decode_inbound_wire(&B64.encode(&enc.ciphertext), &B64.encode(enc.nonce)).unwrap();
    let before = g.secret.one_time_prekeys.len();
    let pt = open_inbound_envelope(&mut g.secret, &envelope, &ct, &nonce, metadata).unwrap();
    assert_eq!(inbound_text(pt).unwrap(), "secret hello for the bot");
    assert_eq!(g.secret.one_time_prekeys.len(), before - 1);
    assert!(g.secret.one_time_prekeys.iter().all(|o| o.key_id != key_id));
    assert!(matches!(
        open_inbound_envelope(&mut g.secret, &envelope, &ct, &nonce, metadata),
        Err(BotE2eeError::OneTimePrekeyUnavailable)
    ));
}

#[test]
fn bot_inbound_rejects_changed_metadata_and_bad_wire() {
    let (device, mut g) = bot_device_and_material();
    let enc = deferred_encrypt(b"body", b"{}").unwrap();
    let bundle = PreKeyBundle {
        identity: device.identity.clone(),
        signed_prekey: device.signed_prekey.clone(),
        one_time_prekey_b64: None,
        one_time_prekey_id: None,
    };
    let envelope = deferred_wrap_key(&enc.content_key, &bundle).unwrap();
    assert!(matches!(
        open_inbound_envelope(&mut g.secret, &envelope, &enc.ciphertext, &enc.nonce, br#"{"x":1}"#),
        Err(BotE2eeError::Crypto(_))
    ));
    assert!(matches!(decode_inbound_wire("!", "AA=="), Err(BotE2eeError::Crypto(m)) if m == "bad ciphertext_b64"));
    assert!(matches!(decode_inbound_wire("AA==", "AA=="), Err(BotE2eeError::Crypto(m)) if m == "bad nonce length"));
    assert!(matches!(inbound_text(vec![0xff]), Err(BotE2eeError::Crypto(_))));
}

#[test]
fn rotation_keeps_identity_and_replaces_prekeys() {
    let (_, g) = bot_device_and_material();
    let (rotated, spk, otps) = rotate_material(&g.secret);
    assert_eq!(rotated.identity_x25519, g.secret.identity_x25519);
    assert_eq!(rotated.identity_ed25519, g.secret.identity_ed25519);
    assert_eq!(rotated.mls_seed, g.secret.mls_seed);
    assert_ne!(rotated.signed_prekey_secret, g.secret.signed_prekey_secret);
    assert_ne!(spk.dh_pub_b64, g.signed_prekey_public.dh_pub_b64);
    assert_eq!(otps.len(), OTP_BATCH_SIZE as usize);
    assert_eq!(otps[0].0, 1);
}

#[test]
fn taking_a_one_time_prekey_removes_the_first_match() {
    let (_, mut g) = bot_device_and_material();
    let wanted = g.secret.one_time_prekeys[4].secret;
    assert_eq!(take_one_time_prekey(&mut g.secret, 5).unwrap(), wanted);
    assert_eq!(g.secret.one_time_prekeys.len(), OTP_BATCH_SIZE as usize - 1);
    assert!(matches!(take_one_time_prekey(&mut g.secret, 5), Err(BotE2eeError::OneTimePrekeyUnavailable)));
}

#[test]
fn device_wrap_claims_only_after_a_successful_wrap() {
    let (device, g) = bot_device_and_material();
    let key = [9u8; 32];
    let mut w = DeviceWrap::new();
    let otp = PeekedOtp { id: 77, key_id: g.otp_publics[0].0, public_key: g.otp_publics[0].1.clone() };
    match w.on_peek(&key, &device, Some(otp.clone())) {
        WrapAction::Claim(id) => assert_eq!(id, 77),
        _ => panic!("expected a claim"),
    }
    match w.on_claim(&key, &device, true) {
        WrapAction::Finish(Some(env)) => assert_eq!(env.x3dh_initial.used_one_time_prekey_id, Some(1)),
        _ => panic!("expected the envelope"),
    }
    let mut w = DeviceWrap::new();
    let corrupt = PeekedOtp { id: 3, key_id: 9, public_key: "!!!not-a-valid-x25519-public-key!!!".to_string() };
    assert!(matches!(w.on_peek(&key, &device, Some(corrupt)), WrapAction::Finish(None)));
    let mut w = DeviceWrap::new();
    assert!(matches!(w.on_peek(&key, &device, None), WrapAction::Finish(Some(_))));
}

#[test]
fn device_wrap_falls_back_after_lost_claims() {
    let (device, g) = bot_device_and_material();
    let key = [9u8; 32];
    let otp = PeekedOtp { id: 1, key_id: g.otp_publics[0].0, public_key: g.otp_publics[0].1.clone() };
    let mut w = DeviceWrap::new();
    let mut peeks = 0;
    loop {
        match w.on_peek(&key, &device, Some(otp.clone())) {
            WrapAction::Claim(_) => peeks += 1,
            _ => panic!("expected a claim"),
        }
        match w.on_claim(&key, &device, false) {
            WrapAction::Peek => continue,
            WrapAction::Finish(Some(env)) => {
                assert_eq!(env.x3dh_initial.used_one_time_prekey_id, None);
                break;
            }
            _ => panic!("unexpected step"),
        }
    }
    assert_eq!(peeks, 8);
}

fn payload(detail: MessageDetail, target: MessageTarget) -> ChatMessagePayload {
    ChatMessagePayload { from_uid: 1, created_at: DateTime(5), target, detail }
}

fn content(content_type: &str, text: &str) -> ChatMessageContent {
    ChatMessageContent { properties: None, content_type: content_type.to_string(), content: text.to_string() }
}

#[test]
fn e2e_requirement_rules() {
    let plain = payload(
        MessageDetail::Normal(MessageNormal { content: content("text/plain", "x"), expires_in: None }),
        MessageTarget::user(2),
    );
    assert_eq!(e2e_requirement(true, &plain), E2eRequirement::Required);
    assert_eq!(e2e_requirement(false, &plain), E2eRequirement::BySetting);
    let e2e = payload(
        MessageDetail::Normal(MessageNormal {
            content: content("application/vnd.vocechat.e2ee.v2", "x"),
            expires_in: None,
        }),
        MessageTarget::user(2),
    );
    assert_eq!(e2e_requirement(true, &e2e), E2eRequirement::Allowed);
    let like = payload(
        MessageDetail::Reaction(MessageReaction {
            mid: 3,
            detail: MessageReactionDetail::Like(MessageReactionLike { action: "x".to_string() }),
        }),
        MessageTarget::user(2),
    );
    assert_eq!(e2e_requirement(true, &like), E2eRequirement::Required);
    assert_eq!(e2e_requirement(false, &like), E2eRequirement::Allowed);
    assert!(required_by_setting(None));
    assert!(!required_by_setting(Some(false)));
}

#[test]
fn group_targets_and_notifications() {
    assert_eq!(group_send_targets(false, &vec![1, 2], &vec![1, 2, 3], 3), None);
    assert_eq!(group_send_targets(false, &vec![1, 2], &vec![1, 2, 3], 2), Some(vec![1, 2]));
    assert_eq!(group_send_targets(true, &vec![1, 2], &vec![1, 2, 3], 9), Some(vec![1, 2, 3]));
    let cands = vec![
        NotifyCandidate { uid: 1, normal: true, group_muted: false, device_tokens: vec!["s".to_string()] },
        NotifyCandidate { uid: 2, normal: true, group_muted: true, device_tokens: vec!["m".to_string()] },
        NotifyCandidate { uid: 3, normal: true, group_muted: true, device_tokens: vec!["t1".to_string(), "t2".to_string()] },
        NotifyCandidate { uid: 4, normal: false, group_muted: false, device_tokens: vec!["f".to_string()] },
        NotifyCandidate { uid: 5, normal: true, group_muted: false, device_tokens: vec!["u".to_string()] },
    ];
    assert_eq!(group_notify_tokens(&cands, 1, &vec![3]), vec!["t1", "t2", "u"]);
    assert!(dm_notify_tokens(true, &vec!["a".to_string()]).is_empty());
    assert_eq!(dm_notify_tokens(false, &vec!["a".to_string()]), vec!["a"]);
}

#[test]
fn notify_text_replaces_mentions_and_hides_encrypted_content() {
    let c = content("text/plain", "hi @12 and @12 bye @3 x");
    let names = vec![(12i64, "Bob".to_string()), (-3i64, "Neg".to_string())];
    assert_eq!(c.notify_message(&names).unwrap(), "hi @Bob and @Bob bye @3 x");
    assert_eq!(content("text/markdown", "**x**").notify_message(&vec![]).unwrap(), "You have a new message");
    assert_eq!(content("vocechat/file", "p").notify_message(&vec![]).unwrap(), "You have a new file");
    assert_eq!(
        content("application/vnd.vocechat.e2ee.v2", "c").notify_message(&vec![]).unwrap(),
        "You have a new message"
    );
    assert!(content("vocechat/archive", "a").notify_message(&vec![]).is_none());
    let mut flagged = content("application/octet-stream", "c");
    let mut props = E2eProperties {
        e2e: Some(PropValue::Bool(true)),
        e2e_version: None,
        protocol: None,
        wire_class: None,
        sender_device_id: None,
        recipient_device_id: None,
        local_id: None,
        mls_epoch: None,
        mls_generation: None,
        mls_handshake_kind: None,
        mls_commit_id: None,
        algorithm: None,
        other: vec![],
    };
    flagged.properties = Some(props.clone());
    assert_eq!(flagged.notify_message(&vec![]).unwrap(), "You have a new message");
    props.e2e = None;
    flagged.properties = Some(props);
    assert!(flagged.notify_message(&vec![]).is_none());
    assert_eq!(replace_all("aaaa", "aa", "b"), "bb");
    assert_eq!(replace_all("abcab", "ab", "xyz"), "xyzcxyz");
    assert_eq!(replace_all("ab", "abc", "x"), "ab");
    assert_eq!(replace_all("héllo héllo", "é", "e"), "hello hello");
}

#[test]
fn merged_store_updates() {
    let normal = payload(
        MessageDetail::Normal(MessageNormal { content: content("text/plain", "v1"), expires_in: None }),
        MessageTarget::group(4),
    );
    match merged_update(10, &normal) {
        MergedUpdate::Insert(id, m) => {
            assert_eq!(id, 10);
            assert_eq!(m.content.content, "v1");
            assert_eq!(m.created_at, DateTime(5));
        }
        _ => panic!("expected insert"),
    }
    let edit = payload(
        MessageDetail::Reaction(MessageReaction {
            mid: 10,
            detail: MessageReactionDetail::Edit(MessageReactionEdit { content: content("text/plain", "v2") }),
        }),
        MessageTarget::group(4),
    );
    match merged_update(11, &edit) {
        MergedUpdate::ReplaceContent(id, c) => {
            assert_eq!(id, 10);
            assert_eq!(c.content, "v2");
        }
        _ => panic!("expected replacement"),
    }
}

#[test]
fn e2e_api_request_checks() {
    assert_eq!(check_identity_upload("d1", "d2", "k", None, None, false), Err(E2eApiRejection::DeviceMismatch));
    assert_eq!(check_identity_upload("", "", "k", None, None, false), Err(E2eApiRejection::BadRequest));
    assert_eq!(
        check_identity_upload("d", "d", "k", Some("  "), Some("sig"), true),
        Err(E2eApiRejection::SignedPrekeyRequired { on_fetch: false })
    );
    assert_eq!(check_identity_upload("d", "d", "k", None, None, false), Ok(()));
    assert_eq!(check_prekeys_upload("d", "e"), Err(E2eApiRejection::DeviceMismatch));
    let r = check_bundle(true, Some("spk"), None).unwrap_err();
    assert_eq!(r.status(), 409);
    assert_eq!(r.code(), Some("E2E_SIGNED_PREKEY_REQUIRED"));
    assert_eq!(check_dm_setting(3, 3, true), Err(E2eApiRejection::BadRequest));
    assert_eq!(check_dm_setting(3, 1, false), Err(E2eApiRejection::NotFound));
    assert_eq!(check_dm_setting(3, 1, true), Ok((1, 3)));
    assert_eq!(check_pending_envelope(1, 2, "", "e", Some((1, 2)), 1), Err(E2eApiRejection::BadRequest));
    assert_eq!(check_pending_envelope(1, 2, "d", "e", None, 1), Err(E2eApiRejection::NotFound));
    assert_eq!(check_pending_envelope(5, 2, "d", "e", Some((1, 2)), 1), Err(E2eApiRejection::PendingForbidden));
    assert_eq!(check_pending_envelope(1, 3, "d", "e", Some((1, 2)), 1), Err(E2eApiRejection::PendingWrongRecipient));
    assert_eq!(check_pending_envelope(1, 2, "d", "e", Some((1, 2)), 0), Err(E2eApiRejection::PendingUnknownDevice));
    assert_eq!(check_pending_envelope(1, 2, "d", "e", Some((1, 2)), 1), Ok((1, 2)));
    let blob = B64.encode([0u8; 40]);
    assert_eq!(check_backup_upload(2, &format!(" {blob}\n"), 5000, Some(1000)).unwrap().len(), 40);
    assert_eq!(check_backup_upload(2, &blob, 1500, Some(1000)), Err(E2eApiRejection::TooManyRequests));
    assert_eq!(check_backup_upload(1, &blob, 5000, None), Err(E2eApiRejection::BadRequest));
    assert_eq!(check_backup_upload(2, "%%%", 5000, None), Err(E2eApiRejection::BadRequest));
    assert_eq!(E2eApiRejection::TooManyRequests.status(), 429);
}

#[test]
fn merged_store_keeps_every_property() {
    let mut c = content("vocechat/file", "path/a.txt");
    c.properties = Some(E2eProperties {
        e2e: None,
        e2e_version: None,
        protocol: None,
        wire_class: None,
        sender_device_id: None,
        recipient_device_id: None,
        local_id: Some(PropValue::Str("l-1".to_string())),
        mls_epoch: None,
        mls_generation: None,
        mls_handshake_kind: None,
        mls_commit_id: None,
        algorithm: None,
        other: vec![("name".to_string(), "\"a.txt\"".to_string()), ("size".to_string(), "12".to_string())],
    });
    let normal = payload(MessageDetail::Normal(MessageNormal { content: c, expires_in: None }), MessageTarget::group(4));
    match merged_update(20, &normal) {
        MergedUpdate::Insert(_, m) => {
            let p = m.content.properties.expect("properties kept");
            assert_eq!(p.other, vec![("name".to_string(), "\"a.txt\"".to_string()), ("size".to_string(), "12".to_string())]);
            assert!(matches!(p.local_id, Some(PropValue::Str(ref s)) if s == "l-1"));
        }
        _ => panic!("expected insert"),
    }
}
