use base64::Engine;
use vocechat_e2ee::bot_e2ee::{bot_device_id, decode_master_key, next_key_version, open, seal, seal_with_nonce, BotE2eeError};
use vocechat_e2ee::e2e_api::{backup_accepted, backup_too_soon, dm_pair, is_e2e_chat_message};
use vocechat_e2ee::e2ee_v2::{
    application_ok, commit_epoch_ok, mls_sequence_row, plan_mls_sequence, properties_json_bytes, validate_authenticated_device, validate_authenticated_sender,
    validate_properties, welcome_ok, E2eProperties, E2eV2Error, MlsSequenceConflict, MlsSequenceRow, MlsSequenceStep, PropValue, Protocol, WireClass,
    CONTENT_TYPE,
};
use vocechat_e2ee::message::{
    enforce_e2e_v2_target_protocol, message_matches_query, ChatMessage, ChatMessageContent, ChatMessagePayload,
    DateTime, MessageDetail, MessageNormal, MessageReaction, MessageReactionDelete, MessageReactionDetail,
    MessageReactionLike, MessageTarget, SendRejection,
};
use vocechat_e2ee::mls_delivery::{
    artifact_cursor, claim_outcome, frame_artifacts, is_foreign_key_violation, mark_outcome, validate_blob,
    validate_device_id, validate_route, DeliveryStatus,
};

fn empty_props() -> E2eProperties {
    E2eProperties {
        e2e: None,
        e2e_version: None,
        protocol: None,
        wire_class: None,
        sender_device_id: None,
        recipient_device_id: None,
        local_id: None,
        mls_epoch: None,
        mls_generation: None,
        mls_handshake_kind: None,
        mls_commit_id: None,
        algorithm: None,
        other: vec![],
    }
}

fn s(v: &str) -> Option<PropValue> {
    Some(PropValue::Str(v.to_string()))
}

fn n(v: u64) -> Option<PropValue> {
    Some(PropValue::UInt(v))
}

fn base(protocol: &str, wire_class: &str, sender: &str, local: &str) -> E2eProperties {
    let mut p = empty_props();
    p.e2e_version = n(2);
    p.protocol = s(protocol);
    p.wire_class = s(wire_class);
    p.sender_device_id = s(sender);
    p.local_id = s(local);
    p
}

#[test]
fn accepts_dr_envelope() {
    assert_eq!(CONTENT_TYPE, "application/vnd.vocechat.e2ee.v2");
    let mut p = base("dr", "dr_envelope", "device-a", "018f8dd2-c87e-7b40-bf45-4df46c08e591");
    p.recipient_device_id = s("device-b");
    let route = validate_properties(&p).unwrap();
    assert_eq!(route.protocol, Protocol::Dr);
    assert_eq!(route.wire_class, WireClass::DrEnvelope);
}

#[test]
fn accepts_mls_routes() {
    for wire_class in ["mls_handshake", "mls_application"] {
        let mut p = base("mls", wire_class, "device-a", "018f8dd2-c87e-7b40-bf45-4df46c08e591");
        p.mls_epoch = n(7);
        p.mls_generation = n(3);
        if wire_class == "mls_handshake" {
            p.mls_generation = n(0);
            p.mls_handshake_kind = s("commit");
            p.mls_commit_id = s("commit-7");
        }
        let route = validate_properties(&p).unwrap();
        assert_eq!(route.protocol, Protocol::Mls);
        assert_eq!(route.mls_epoch, Some(7));
    }
}

#[test]
fn rejects_protocol_class_mismatch_and_missing_ids() {
    let a = base("dr", "mls_application", "a", "c");
    let mut b = base("mls", "mls_application", "", "c");
    b.mls_epoch = n(0);
    b.mls_generation = n(0);
    let mut c = base("dr", "dr_envelope", "a", "c");
    c.e2e_version = n(1);
    for value in [a, b, c] {
        assert!(validate_properties(&value).is_err());
    }
}

#[test]
fn rejects_missing_protocol_specific_fields_and_invalid_numbers() {
    let a = base("dr", "dr_envelope", "a", "c");
    let mut b = base("mls", "mls_application", "a", "c");
    b.mls_epoch = n(0);
    let mut c = base("mls", "mls_application", "a", "c");
    c.mls_epoch = Some(PropValue::Other);
    c.mls_generation = n(0);
    let mut d = base("mls", "mls_application", "a", "c");
    d.mls_epoch = n(0);
    d.mls_generation = n(4294967296);
    for value in [a, b, c, d] {
        assert!(validate_properties(&value).is_err());
    }
}

#[test]
fn mls_handshake_requires_kind_and_commit_id() {
    let mut missing_kind = base("mls", "mls_handshake", "device-a", "local-commit-1");
    missing_kind.mls_epoch = n(8);
    missing_kind.mls_generation = n(0);
    assert!(validate_properties(&missing_kind).is_err());

    for kind in ["commit", "welcome"] {
        let local = format!("local-{kind}-1");
        let mut p = base("mls", "mls_handshake", "device-a", &local);
        p.mls_handshake_kind = s(kind);
        p.mls_commit_id = s("commit-018f8dd2");
        p.mls_epoch = n(8);
        p.mls_generation = n(0);
        let route = validate_properties(&p).unwrap();
        assert_eq!(route.mls_commit_id.as_deref(), Some("commit-018f8dd2"));
    }
}

#[test]
fn validation_reports_the_first_problem() {
    let mut p = base("dr", "dr_envelope", "a", "c");
    p.e2e_version = s("2");
    assert_eq!(validate_properties(&p).unwrap_err(), E2eV2Error::InvalidProperty("e2e_version"));
    let p = base("tls", "dr_envelope", "a", "c");
    assert_eq!(validate_properties(&p).unwrap_err(), E2eV2Error::InvalidProperty("protocol"));
    let p = base("dr", "mls_application", "a", "c");
    assert_eq!(validate_properties(&p).unwrap_err(), E2eV2Error::ProtocolMismatch);
    let p = base("dr", "dr_envelope", "a", "c");
    assert_eq!(validate_properties(&p).unwrap_err(), E2eV2Error::InvalidProperty("recipient_device_id"));
    let mut p = base("mls", "mls_handshake", "a", "c");
    p.mls_epoch = n(1);
    p.mls_generation = n(2);
    p.mls_handshake_kind = s("commit");
    p.mls_commit_id = s("x");
    assert_eq!(validate_properties(&p).unwrap_err(), E2eV2Error::InvalidProperty("mls_generation"));
    assert_eq!(
        E2eV2Error::InvalidProperty("local_id").to_string(),
        "missing or invalid E2EE v2 property: local_id"
    );
}

#[test]
fn dr_pending_route_needs_no_recipient_device() {
    let p = base("dr-pending", "dr_envelope", "a", "c");
    let route = validate_properties(&p).unwrap();
    assert_eq!(route.protocol, Protocol::DrPending);
    assert_eq!(route.recipient_device_id, None);
}

#[test]
fn authenticated_sender_must_match_device() {
    let mut p = base("dr", "dr_envelope", "device-a", "c");
    p.recipient_device_id = s("device-b");
    assert!(validate_authenticated_sender(&p, "device-a").is_ok());
    assert_eq!(validate_authenticated_sender(&p, "device-z").unwrap_err(), E2eV2Error::DeviceMismatch);
    assert!(validate_authenticated_device("x", "x").is_ok());
    assert_eq!(validate_authenticated_device("x", "y"), Err(E2eV2Error::DeviceMismatch));
}

#[test]
fn mls_sequence_plan_and_checks() {
    let mut p = base("mls", "mls_handshake", "a", "c");
    p.mls_epoch = n(4);
    p.mls_generation = n(0);
    p.mls_handshake_kind = s("welcome");
    p.mls_commit_id = s("commit-4");
    let route = validate_properties(&p).unwrap();
    match plan_mls_sequence(&route).unwrap() {
        MlsSequenceStep::Welcome { epoch, commit_id } => {
            assert_eq!(epoch, 4);
            assert_eq!(commit_id, "commit-4");
        }
        other => panic!("unexpected step {other:?}"),
    }
    let mut q = base("mls", "mls_application", "a", "c");
    q.mls_epoch = n(4);
    q.mls_generation = n(9);
    let route = validate_properties(&q).unwrap();
    assert!(matches!(plan_mls_sequence(&route).unwrap(), MlsSequenceStep::Application { epoch: 4, generation: 9 }));
    assert!(commit_epoch_ok(1, None));
    assert!(commit_epoch_ok(5, Some(4)));
    assert!(!commit_epoch_ok(6, Some(4)));
    assert!(welcome_ok(1));
    assert!(!welcome_ok(2));
    assert!(application_ok(0, None, 0, None));
    assert!(application_ok(3, Some(3), 2, Some(1)));
    assert!(!application_ok(3, Some(3), 1, Some(1)));
    assert!(!application_ok(2, Some(3), 2, Some(1)));
}

fn e2e_v2_payload(target: MessageTarget, protocol: &str) -> ChatMessagePayload {
    let mut properties = base(protocol, "dr_envelope", "device-a", "local-1");
    if protocol == "dr" {
        properties.recipient_device_id = s("device-b");
    }
    ChatMessagePayload {
        from_uid: 1,
        created_at: DateTime(0),
        target,
        detail: MessageDetail::Normal(MessageNormal {
            content: ChatMessageContent {
                properties: Some(properties),
                content_type: CONTENT_TYPE.to_string(),
                content: "opaque".to_string(),
            },
            expires_in: None,
        }),
    }
}

#[test]
fn dr_pending_allowed_only_for_dm_target() {
    let dm = e2e_v2_payload(MessageTarget::user(2), "dr-pending");
    assert_eq!(enforce_e2e_v2_target_protocol(&dm).unwrap(), Some(2));

    let group = e2e_v2_payload(MessageTarget::group(9), "dr-pending");
    assert!(enforce_e2e_v2_target_protocol(&group).is_err());
}

#[test]
fn dr_and_mls_do_not_report_a_pending_dm_target() {
    let dm = e2e_v2_payload(MessageTarget::user(2), "dr");
    assert_eq!(enforce_e2e_v2_target_protocol(&dm).unwrap(), None);
}

#[test]
fn e2e_content_without_properties_is_refused() {
    let mut dm = e2e_v2_payload(MessageTarget::user(2), "dr");
    if let MessageDetail::Normal(n) = &mut dm.detail {
        n.content.properties = None;
    }
    assert!(matches!(enforce_e2e_v2_target_protocol(&dm), Err(SendRejection::MissingProperties)));
    let group_dr = e2e_v2_payload(MessageTarget::group(3), "dr");
    let r = enforce_e2e_v2_target_protocol(&group_dr);
    assert!(matches!(r, Err(SendRejection::ProtocolTargetMismatch)));
    assert_eq!(r.unwrap_err().status(), 400);
}

#[test]
fn as_normal_mut_edits_only_normal_messages() {
    let mut dm = e2e_v2_payload(MessageTarget::user(2), "dr");
    match dm.detail.as_normal_mut() {
        Some(n) => n.content.content = "edited".to_string(),
        None => panic!("a normal message has a normal part"),
    }
    match &dm.detail {
        MessageDetail::Normal(n) => assert_eq!(n.content.content, "edited"),
        _ => panic!("still a normal message"),
    }
    let mut reaction = MessageDetail::Reaction(MessageReaction {
        mid: 7,
        detail: MessageReactionDetail::Delete(MessageReactionDelete {}),
    });
    assert!(reaction.as_normal_mut().is_none());
}

fn check_like_emoji(s: &str, r: bool) {
    assert_eq!(MessageReactionLike { action: s.to_string() }.check(), r);
}

#[test]
fn like_emoji() {
    check_like_emoji("a", false);
    check_like_emoji("ab", false);
    check_like_emoji("❤️", true);
    check_like_emoji("😄", true);
    check_like_emoji("😄❤️", false);
}

#[test]
fn search_matches_plain_text_but_not_e2e_content() {
    let plain = ChatMessage {
        mid: 1,
        payload: ChatMessagePayload {
            from_uid: 1,
            created_at: DateTime(0),
            target: MessageTarget::user(2),
            detail: MessageDetail::Normal(MessageNormal {
                content: ChatMessageContent {
                    properties: None,
                    content_type: "text/plain".to_string(),
                    content: "hello world".to_string(),
                },
                expires_in: None,
            }),
        },
    };
    assert!(message_matches_query(&plain, "lo wo"));
    assert!(!message_matches_query(&plain, "bye"));
    assert!(!is_e2e_chat_message(&plain));
    let e2e = ChatMessage { mid: 2, payload: e2e_v2_payload(MessageTarget::user(2), "dr") };
    assert!(is_e2e_chat_message(&e2e));
    assert!(!message_matches_query(&e2e, "opaque"));
}

#[test]
fn legacy_e2e_flag_marks_message_as_e2e() {
    let mut props = empty_props();
    props.e2e = Some(PropValue::Bool(true));
    let m = ChatMessage {
        mid: 3,
        payload: ChatMessagePayload {
            from_uid: 1,
            created_at: DateTime(0),
            target: MessageTarget::group(1),
            detail: MessageDetail::Normal(MessageNormal {
                content: ChatMessageContent {
                    properties: Some(props),
                    content_type: "text/plain".to_string(),
                    content: "ciphertext".to_string(),
                },
                expires_in: None,
            }),
        },
    };
    assert!(is_e2e_chat_message(&m));
}

#[test]
fn e2e_api_rules() {
    assert_eq!(dm_pair(5, 3), (3, 5));
    assert_eq!(dm_pair(3, 5), (3, 5));
    assert!(backup_accepted(2, 32));
    assert!(!backup_accepted(2, 31));
    assert!(!backup_accepted(1, 64));
    assert!(!backup_accepted(2, 8 * 1024 * 1024 + 1));
    assert!(backup_too_soon(1500, Some(1000)));
    assert!(!backup_too_soon(2000, Some(1000)));
    assert!(!backup_too_soon(0, None));
}

#[test]
fn delivery_validation_rules() {
    assert!(validate_device_id("phone_1-A").is_ok());
    assert_eq!(validate_device_id("../credential"), Err(DeliveryStatus::BadRequest));
    assert_eq!(validate_device_id(""), Err(DeliveryStatus::BadRequest));
    assert_eq!(validate_device_id(&"a".repeat(129)), Err(DeliveryStatus::BadRequest));
    assert!(validate_blob(b"x", 1).is_ok());
    assert_eq!(validate_blob(b"", 10), Err(DeliveryStatus::PayloadTooLarge));
    assert_eq!(validate_blob(b"xy", 1), Err(DeliveryStatus::PayloadTooLarge));
    assert!(validate_route("0123456789abcdefABCDEF0123456789").is_ok());
    assert!(validate_route("0123456789abcdef").is_err());
    assert!(validate_route("0123456789abcdefABCDEF012345678g").is_err());
    assert_eq!(DeliveryStatus::PayloadTooLarge.code(), 413);
    assert_eq!(mark_outcome(1), Ok(()));
    assert_eq!(mark_outcome(0), Err(DeliveryStatus::Conflict));
    assert_eq!(claim_outcome(true, None, None, 1, "d"), 2);
    assert_eq!(claim_outcome(false, Some(1), Some("d"), 1, "d"), 1);
    assert_eq!(claim_outcome(false, Some(1), Some("e"), 1, "d"), 0);
    assert!(is_foreign_key_violation("error: FOREIGN KEY constraint failed"));
    assert!(!is_foreign_key_violation("UNIQUE constraint failed"));
    assert_eq!(artifact_cursor(-5), 0);
    assert_eq!(artifact_cursor(7), 7);
}

#[test]
fn artifacts_are_framed_with_sequence_and_length() {
    let rows = vec![(1i64, b"ab".to_vec()), (258i64, vec![])];
    let out = frame_artifacts(&rows);
    assert_eq!(
        out,
        vec![0, 0, 0, 0, 0, 0, 0, 1, 0, 0, 0, 2, b'a', b'b', 0, 0, 0, 0, 0, 0, 1, 2, 0, 0, 0, 0]
    );
    let big = vec![(1i64, vec![0u8; 8 * 1024 * 1024])];
    assert!(frame_artifacts(&big).is_empty());
}

#[test]
fn master_key_missing_env_fails_closed() {
    assert!(matches!(decode_master_key(None), Err(BotE2eeError::MissingMasterKey)));
}

#[test]
fn master_key_wrong_length_fails_closed() {
    let text = base64::engine::general_purpose::STANDARD.encode([1u8; 16]);
    assert!(matches!(decode_master_key(Some(&text)), Err(BotE2eeError::InvalidMasterKey)));
    assert!(matches!(decode_master_key(Some("not base64!")), Err(BotE2eeError::InvalidMasterKey)));
}

#[test]
fn master_key_valid_loads_exact_bytes() {
    let key = [7u8; 32];
    let text = base64::engine::general_purpose::STANDARD.encode(key);
    assert_eq!(decode_master_key(Some(&text)).unwrap(), key);
}

#[test]
fn vault_seal_open_roundtrip_and_wrong_key_fails() {
    let key_a = [3u8; 32];
    let key_b = [9u8; 32];
    let plaintext = b"bot secret material for unit test";
    let (nonce, ciphertext) = seal(&key_a, plaintext).unwrap();
    assert_ne!(ciphertext, plaintext.to_vec(), "must not store plaintext at rest");
    assert!(!ciphertext.windows(plaintext.len()).any(|w| w == plaintext));
    let opened = open(&key_a, &nonce, &ciphertext).unwrap();
    assert_eq!(opened, plaintext);
    assert!(matches!(open(&key_b, &nonce, &ciphertext), Err(BotE2eeError::VaultDecryptFailed)));
}

#[test]
fn vault_seal_with_nonce_is_deterministic_and_nonce_length_checked() {
    let key = [1u8; 32];
    let (n1, c1) = seal_with_nonce(&key, b"m", [2u8; 12]).unwrap();
    let (_, c2) = seal_with_nonce(&key, b"m", [2u8; 12]).unwrap();
    assert_eq!(n1, [2u8; 12]);
    assert_eq!(c1, c2);
    assert_eq!(c1.len(), 17);
    assert!(open(&key, &[2u8; 11], &c1).is_err());
}

#[test]
fn bot_identity_helpers() {
    assert_eq!(bot_device_id(42), "bot:42");
    assert_eq!(bot_device_id(-7), "bot:-7");
    assert_eq!(next_key_version(1), 2);
    assert_eq!(BotE2eeError::MissingMasterKey.status(), 503);
    assert_eq!(BotE2eeError::MissingMasterKey.code(), "E2E_BOT_MASTER_KEY_MISSING");
}

#[test]
fn mls_sequence_rows_follow_the_group_tables() {
    let mut c = base("mls", "mls_handshake", "a", "c");
    c.mls_epoch = n(5);
    c.mls_generation = n(0);
    c.mls_handshake_kind = s("commit");
    c.mls_commit_id = s("commit-5");
    let commit = validate_properties(&c).unwrap();
    match mls_sequence_row(&commit, Some(4), 0, None) {
        Ok(MlsSequenceRow::Commit { epoch, commit_id }) => {
            assert_eq!(epoch, 5);
            assert_eq!(commit_id, "commit-5");
        }
        _ => panic!("commit of the next epoch is recorded"),
    }
    assert!(matches!(mls_sequence_row(&commit, Some(5), 0, None), Err(MlsSequenceConflict)));
    assert!(matches!(mls_sequence_row(&commit, None, 0, None), Err(MlsSequenceConflict)));

    let mut w = base("mls", "mls_handshake", "a", "c");
    w.mls_epoch = n(5);
    w.mls_generation = n(0);
    w.mls_handshake_kind = s("welcome");
    w.mls_commit_id = s("commit-5");
    let welcome = validate_properties(&w).unwrap();
    assert!(matches!(mls_sequence_row(&welcome, Some(5), 1, None), Ok(MlsSequenceRow::Welcome { epoch: 5, .. })));
    assert!(mls_sequence_row(&welcome, Some(5), 0, None).is_err());
    assert!(mls_sequence_row(&welcome, Some(5), 2, None).is_err());

    let mut a = base("mls", "mls_application", "a", "c");
    a.mls_epoch = n(5);
    a.mls_generation = n(3);
    let app = validate_properties(&a).unwrap();
    assert!(matches!(mls_sequence_row(&app, Some(5), 0, Some(2)), Ok(MlsSequenceRow::Application { epoch: 5, generation: 3 })));
    assert!(mls_sequence_row(&app, Some(5), 0, Some(3)).is_err());
    assert!(mls_sequence_row(&app, Some(4), 0, Some(2)).is_err());

    let dr = validate_properties(&base("dr", "dr_envelope", "a", "c"));
    if let Ok(route) = dr {
        assert!(mls_sequence_row(&route, Some(5), 1, Some(2)).is_err());
    }
}

#[test]
fn properties_header_bytes_are_base64_decoded() {
    assert_eq!(properties_json_bytes("eyJhIjoxfQ=="), Some(b"{\"a\":1}".to_vec()));
    assert_eq!(properties_json_bytes("not base64!"), None);
    assert_eq!(properties_json_bytes(""), Some(Vec::new()));
}
