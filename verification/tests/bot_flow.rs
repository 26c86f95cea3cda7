use vocechat_e2ee::bot_e2ee::{decode_inbound_wire, seal, BotE2eeError};
use vocechat_e2ee::bot_flow::{
    bot_dm_content, bot_dm_outcome, bot_mls_credential_bytes, bot_mls_key_package_bytes, catch_up_start, catch_up_step, channel_publications, channel_step, initialize_step,
    dr_pending_properties, rebuild_step, CatchUpStep, ChannelAction,
};
use vocechat_e2ee::deferred::DeferredEnvelope;
use vocechat_e2ee::e2ee_v2::{validate_properties, Protocol, WireClass};
use vocechat_e2ee::x3dh::X3dhInitialMessage;

fn envelope(tag: &str) -> DeferredEnvelope {
    DeferredEnvelope {
        alg: "DEFERRED+AES-GCM".to_string(),
        x3dh_initial: X3dhInitialMessage {
            identity_dh_pub_b64: tag.to_string(),
            ephemeral_pub_b64: tag.to_string(),
            used_signed_prekey_id: 1,
            used_one_time_prekey_id: None,
        },
        nonce_b64: tag.to_string(),
        wrapped_key_b64: tag.to_string(),
    }
}

#[test]
fn bot_dm_fails_closed_without_master_key() {
    let r = bot_dm_outcome(Err(BotE2eeError::MissingMasterKey), vec![Some(envelope("a"))]);
    assert!(matches!(r, Err(BotE2eeError::MissingMasterKey)));
}

#[test]
fn bot_dm_appends_every_wrap_and_keeps_the_key_only_without_one() {
    let o = bot_dm_outcome(Ok([7u8; 32]), vec![None, Some(envelope("a")), None, Some(envelope("b"))]).unwrap();
    assert_eq!(o.envelopes.len(), 2);
    assert_eq!(o.envelopes[0].nonce_b64, "a");
    assert_eq!(o.envelopes[1].nonce_b64, "b");
    assert!(!o.keep_pending_secret);

    let pending = bot_dm_outcome(Ok([7u8; 32]), vec![None, None]).unwrap();
    assert!(pending.envelopes.is_empty());
    assert!(pending.keep_pending_secret);
}

#[test]
fn bot_dm_properties_validate_as_dr_pending() {
    let p = dr_pending_properties("bot:42", "local-1");
    let route = validate_properties(&p).unwrap();
    assert_eq!(route.protocol, Protocol::DrPending);
    assert_eq!(route.wire_class, WireClass::DrEnvelope);
    assert_eq!(route.sender_device_id, "bot:42");
    assert_eq!(route.local_id, "local-1");
    assert!(matches!(p.algorithm, Some(vocechat_e2ee::e2ee_v2::PropValue::Str(ref a)) if a == "DEFERRED+AES-GCM"));
}

#[test]
fn bot_dm_content_is_read_back_by_the_inbound_decoder() {
    let ciphertext = vec![1u8, 2, 3, 250];
    let nonce = [9u8; 12];
    let metadata = br#"{"local_id":"x"}"#;
    let content = bot_dm_content(&ciphertext, &nonce, metadata);
    let v: serde_json::Value = serde_json::from_slice(&content).unwrap();
    assert_eq!(v["metadata"]["local_id"], "x");
    let (ct, n) = decode_inbound_wire(v["ciphertext_b64"].as_str().unwrap(), v["nonce_b64"].as_str().unwrap()).unwrap();
    assert_eq!(ct, ciphertext);
    assert_eq!(n, nonce);
    assert!(content.starts_with(br#"{"ciphertext_b64":"#));
}

#[test]
fn catch_up_opens_sealed_content_keys() {
    let master = [3u8; 32];
    assert!(matches!(catch_up_start(0, Err(BotE2eeError::MissingMasterKey), None), Ok(None)));
    assert!(matches!(catch_up_start(2, Err(BotE2eeError::InvalidMasterKey), None), Err(BotE2eeError::InvalidMasterKey)));
    assert!(matches!(catch_up_start(2, Ok(master), None), Err(BotE2eeError::NoUsableRecipientDevice)));

    let (n, ct) = seal(&master, &[5u8; 32]).unwrap();
    match catch_up_step(&master, &n, &ct).unwrap() {
        CatchUpStep::Wrap(k) => assert_eq!(k, [5u8; 32]),
        CatchUpStep::Skip => panic!("a 32-byte key is wrapped"),
    }
    let (n2, ct2) = seal(&master, &[5u8; 31]).unwrap();
    assert!(matches!(catch_up_step(&master, &n2, &ct2).unwrap(), CatchUpStep::Skip));
    assert!(matches!(catch_up_step(&[4u8; 32], &n, &ct), Err(BotE2eeError::VaultDecryptFailed)));
}

#[test]
fn channel_and_rebuild_checks_run_in_order() {
    assert!(matches!(channel_step(false, true, true, true, Ok([0; 32])), Err(BotE2eeError::NotBot)));
    assert!(matches!(channel_step(true, false, true, true, Ok([0; 32])), Err(BotE2eeError::NotInitialized)));
    assert!(matches!(channel_step(true, true, false, true, Ok([0; 32])), Err(BotE2eeError::ChannelNotFound)));
    assert!(matches!(
        channel_step(true, true, true, true, Err(BotE2eeError::MissingMasterKey)),
        Err(BotE2eeError::MissingMasterKey)
    ));
    assert!(matches!(channel_step(true, true, true, false, Err(BotE2eeError::MissingMasterKey)), Ok(ChannelAction::Disable)));
    assert!(matches!(channel_step(true, true, true, true, Ok([0; 32])), Ok(ChannelAction::Enable)));
    assert_eq!(channel_publications(true, false), (false, true));

    assert!(matches!(rebuild_step(false, true, Some(1), Ok([0; 32])), Err(BotE2eeError::ConfirmationRequired)));
    assert!(matches!(rebuild_step(true, true, None, Ok([0; 32])), Err(BotE2eeError::NotInitialized)));
    assert_eq!(rebuild_step(true, true, Some(4), Ok([1; 32])).unwrap(), ([1u8; 32], 5));
}

fn json_object(pairs: &[(&str, serde_json::Value)]) -> Vec<u8> {
    let mut m = serde_json::Map::new();
    for (k, v) in pairs {
        m.insert(k.to_string(), v.clone());
    }
    serde_json::to_vec(&serde_json::Value::Object(m)).unwrap()
}

#[test]
fn bot_mls_placeholders_match_the_json_serde_writes() {
    let cred = bot_mls_credential_bytes("bot:7", -12, "{\"k\":1}");
    assert_eq!(
        cred,
        json_object(&[
            ("kind", serde_json::Value::from("vocechat-bot-mls-credential-placeholder-v1")),
            ("device_id", serde_json::Value::from("bot:7")),
            ("gid", serde_json::Value::from(-12i64)),
            ("identity_key_pub", serde_json::Value::from("{\"k\":1}")),
        ])
    );
    let kp = bot_mls_key_package_bytes("bot:7", 40, "0b1d");
    assert_eq!(
        kp,
        json_object(&[
            ("kind", serde_json::Value::from("vocechat-bot-mls-key-package-placeholder-v1")),
            ("device_id", serde_json::Value::from("bot:7")),
            ("gid", serde_json::Value::from(40i64)),
            ("package_id", serde_json::Value::from("0b1d")),
        ])
    );
}

#[test]
fn initialize_runs_once_for_a_bot_with_a_master_key() {
    let key = [7u8; 32];
    assert!(matches!(initialize_step(true, false, Ok(key)), Ok(k) if k == key));
    assert!(matches!(initialize_step(true, true, Ok(key)), Err(BotE2eeError::AlreadyInitialized)));
    assert!(matches!(initialize_step(false, false, Ok(key)), Err(BotE2eeError::NotBot)));
    assert!(matches!(initialize_step(true, false, Err(BotE2eeError::MissingMasterKey)), Err(BotE2eeError::MissingMasterKey)));
    assert!(matches!(channel_step(true, false, true, true, Ok(key)), Err(BotE2eeError::NotInitialized)));
    assert!(matches!(channel_step(true, true, true, true, Ok(key)), Ok(ChannelAction::Enable)));
}
