//! The decisions of the bot's outbound DM, catch-up, channel and rebuild
//! flows. The server runs each flow (database, master-key file, message
//! plane) and asks these functions what to do next; every flow fails
//! closed when the master key is unusable.
use vstd::prelude::*;

use crate::bot_e2ee::{open, BotE2eeError, UsableDevice};
use crate::bytes::{decimal, extend, push_decimal};
use crate::deferred::DeferredEnvelope;
use crate::e2ee_v2::{spec_validate, E2eProperties, PropValue, Protocol, WireClass};
use crate::primitives::{aes_gcm_opened, b64_encode, base64_decoded, base64_of, json_string, json_string_bytes};

verus! {

/// What a bot DM send does once the content key has been wrapped for each
/// usable device of the target: the envelopes to append, in device order,
/// and whether the content key must be kept (sealed under the master key)
/// for a later catch-up.
pub struct BotDmOutcome {
    pub envelopes: Vec<DeferredEnvelope>,
    pub keep_pending_secret: bool,
}

/// The envelopes among the wrap results, in order.
pub open spec fn some_entries(wraps: Seq<Option<DeferredEnvelope>>) -> Seq<DeferredEnvelope>
    decreases wraps.len(),
{
    if wraps.len() == 0 {
        Seq::empty()
    } else {
        match wraps[0] {
            Some(e) => seq![e] + some_entries(wraps.drop_first()),
            None => some_entries(wraps.drop_first()),
        }
    }
}

/// Decide a bot DM send: an unusable master key fails the send (fail
/// closed); otherwise append every envelope that a wrap produced, and keep
/// the content key pending exactly when there is none.
pub fn bot_dm_outcome(
    master_key: Result<[u8; 32], BotE2eeError>,
    wraps: Vec<Option<DeferredEnvelope>>,
) -> (r: Result<BotDmOutcome, BotE2eeError>)
    ensures
        master_key matches Err(e) ==> r == Err::<BotDmOutcome, BotE2eeError>(e),
        master_key is Ok ==> (r matches Ok(o) && o.envelopes@ == some_entries(wraps@)
            && (o.keep_pending_secret <==> some_entries(wraps@).len() == 0)),
{
    if let Err(e) = master_key {
        return Err(e);
    }
    let mut rest = wraps;
    let mut envelopes: Vec<DeferredEnvelope> = Vec::new();
    while rest.len() > 0
        invariant
            envelopes@ + some_entries(rest@) == some_entries(wraps@),
        decreases rest@.len(),
    {
        let ghost before = rest@;
        let item = rest.remove(0);
        assert(rest@ =~= before.drop_first());
        match item {
            Some(e) => {
                assert(envelopes@.push(e) + some_entries(rest@) =~= envelopes@ + (seq![e] + some_entries(rest@)));
                envelopes.push(e);
            },
            None => {},
        }
    }
    assert(envelopes@ + some_entries(rest@) =~= envelopes@);
    let keep = envelopes.len() == 0;
    Ok(BotDmOutcome { envelopes, keep_pending_secret: keep })
}

/// The routing properties of a bot DM: E2EE v2, `dr-pending` protocol,
/// `dr_envelope` wire class, the bot's device and the message's local id,
/// with the deferred envelope algorithm named.
pub fn dr_pending_properties(sender_device_id: &str, local_id: &str) -> (p: E2eProperties)
    ensures
        p.algorithm matches Some(PropValue::Str(a)) && a@ == crate::deferred::DEFERRED_ALG@,
        sender_device_id@.len() > 0 && local_id@.len() > 0 ==> (spec_validate(p) matches Ok(route)
            && route.protocol == Protocol::DrPending
            && route.wire_class == WireClass::DrEnvelope
            && route.sender_device_id == sender_device_id@
            && route.local_id == local_id@
            && route.recipient_device_id is None),
{
    proof {
        reveal_strlit("dr-pending");
        reveal_strlit("dr_envelope");
        reveal_strlit("dr");
        reveal_strlit("mls");
        reveal_strlit("mls_handshake");
        reveal_strlit("mls_application");
    }
    let protocol = "dr-pending".to_owned();
    let wire_class = "dr_envelope".to_owned();
    let p = E2eProperties {
        e2e: None,
        e2e_version: Some(PropValue::UInt(2)),
        protocol: Some(PropValue::Str(protocol)),
        wire_class: Some(PropValue::Str(wire_class)),
        sender_device_id: Some(PropValue::Str(sender_device_id.to_owned())),
        recipient_device_id: None,
        local_id: Some(PropValue::Str(local_id.to_owned())),
        mls_epoch: None,
        mls_generation: None,
        mls_handshake_kind: None,
        mls_commit_id: None,
        algorithm: Some(PropValue::Str(crate::deferred::DEFERRED_ALG.to_owned())),
        other: Vec::new(),
    };
    proof {
        assert(crate::e2ee_v2::prop_str(p.protocol) == Some("dr-pending"@));
        assert("dr-pending"@.len() != "dr"@.len());
        assert("dr-pending"@ != "mls"@) by { assert("dr-pending"@.len() != "mls"@.len()); }
        assert(crate::e2ee_v2::spec_protocol(p.protocol) == Some(Protocol::DrPending));
        assert(crate::e2ee_v2::spec_wire_class(p.wire_class) == Some(WireClass::DrEnvelope));
    }
    p
}

/// `{"ciphertext_b64":` as bytes.
pub open spec fn content_open() -> Seq<u8> {
    seq![123u8, 34, 99, 105, 112, 104, 101, 114, 116, 101, 120, 116, 95, 98, 54, 52, 34, 58]
}

/// `,"metadata":` as bytes.
pub open spec fn content_metadata_key() -> Seq<u8> {
    seq![44u8, 34, 109, 101, 116, 97, 100, 97, 116, 97, 34, 58]
}

/// `,"nonce_b64":` as bytes.
pub open spec fn content_nonce_key() -> Seq<u8> {
    seq![44u8, 34, 110, 111, 110, 99, 101, 95, 98, 54, 52, 34, 58]
}

/// The JSON text of a bot DM's content, with keys in the order
/// `serde_json` writes them: `{"ciphertext_b64":…,"metadata":…,"nonce_b64":…}`.
pub open spec fn bot_content_json(ciphertext_text: Seq<char>, metadata: Seq<u8>, nonce_text: Seq<char>) -> Seq<u8> {
    content_open() + json_string_bytes(ciphertext_text) + content_metadata_key() + metadata
        + content_nonce_key() + json_string_bytes(nonce_text) + seq![125u8]
}

/// The content of a bot DM: the ciphertext and nonce in base64 and the
/// canonical metadata JSON. The two base64 texts decode back to the
/// ciphertext and the nonce, which is what the inbound decoding
/// ([`crate::bot_e2ee::decode_inbound_wire`]) reads from them.
pub fn bot_dm_content(ciphertext: &[u8], nonce: &[u8; 12], canonical_metadata: &[u8]) -> (r: Vec<u8>)
    ensures
        r@ == bot_content_json(base64_of(ciphertext@), canonical_metadata@, base64_of(nonce@)),
        base64_decoded(base64_of(ciphertext@)) == Some(ciphertext@),
        base64_decoded(base64_of(nonce@)) == Some(nonce@),
{
    let ct_text = b64_encode(ciphertext);
    let nonce_text = b64_encode(nonce);
    let open_key: [u8; 18] = [123, 34, 99, 105, 112, 104, 101, 114, 116, 101, 120, 116, 95, 98, 54, 52, 34, 58];
    let metadata_key: [u8; 12] = [44, 34, 109, 101, 116, 97, 100, 97, 116, 97, 34, 58];
    let nonce_key: [u8; 13] = [44, 34, 110, 111, 110, 99, 101, 95, 98, 54, 52, 34, 58];
    let close: [u8; 1] = [125];
    assert(open_key@ =~= content_open());
    assert(metadata_key@ =~= content_metadata_key());
    assert(nonce_key@ =~= content_nonce_key());
    assert(close@ =~= seq![125u8]);
    let mut out: Vec<u8> = Vec::new();
    extend(&mut out, open_key.as_slice());
    let a = json_string(ct_text.as_str());
    extend(&mut out, a.as_slice());
    extend(&mut out, metadata_key.as_slice());
    extend(&mut out, canonical_metadata);
    extend(&mut out, nonce_key.as_slice());
    let b = json_string(nonce_text.as_str());
    extend(&mut out, b.as_slice());
    extend(&mut out, close.as_slice());
    assert(out@ =~= bot_content_json(ct_text@, canonical_metadata@, nonce_text@));
    out
}

/// What catch-up does with one pending message.
pub enum CatchUpStep {
    /// The sealed secret is not a content key: leave the message.
    Skip,
    /// Wrap this content key for the device.
    Wrap([u8; 32]),
}

/// Start a catch-up for a device: nothing to do without pending messages;
/// otherwise the master key must be usable (fail closed) and the device
/// must be usable.
pub fn catch_up_start(
    pending: usize,
    master_key: Result<[u8; 32], BotE2eeError>,
    device: Option<UsableDevice>,
) -> (r: Result<Option<([u8; 32], UsableDevice)>, BotE2eeError>)
    ensures
        pending == 0 ==> r matches Ok(None),
        pending > 0 ==> match master_key {
            Err(e) => r == Err::<Option<([u8; 32], UsableDevice)>, BotE2eeError>(e),
            Ok(k) => match device {
                None => r matches Err(BotE2eeError::NoUsableRecipientDevice),
                Some(d) => r == Ok::<Option<([u8; 32], UsableDevice)>, BotE2eeError>(Some((k, d))),
            },
        },
{
    if pending == 0 {
        return Ok(None);
    }
    let key = match master_key {
        Ok(k) => k,
        Err(e) => return Err(e),
    };
    match device {
        None => Err(BotE2eeError::NoUsableRecipientDevice),
        Some(d) => Ok(Some((key, d))),
    }
}

/// Decide one pending message of a catch-up: open its sealed content key
/// with the master key; a secret of the wrong length is skipped.
pub fn catch_up_step(master_key: &[u8; 32], nonce: &[u8], sealed: &[u8]) -> (r: Result<CatchUpStep, BotE2eeError>)
    ensures
        nonce@.len() != 12 ==> (r matches Err(BotE2eeError::Crypto(m)) && m@ == "vault nonce length"@),
        nonce@.len() == 12 ==> match aes_gcm_opened(master_key@, nonce@, Seq::empty(), sealed@) {
            Some(k) => if k.len() == 32 {
                r matches Ok(CatchUpStep::Wrap(a)) && a@ == k
            } else {
                r matches Ok(CatchUpStep::Skip)
            },
            None => r matches Err(BotE2eeError::VaultDecryptFailed),
        },
{
    let key = open(master_key, nonce, sealed)?;
    if key.len() != 32 {
        return Ok(CatchUpStep::Skip);
    }
    Ok(CatchUpStep::Wrap(crate::bytes::to_array32(key.as_slice())))
}

/// The first decision of `initialize`, in the order the server checks: the
/// target must be a bot without an identity yet, and the master key must
/// load; the key is then used to seal the new material.
pub open spec fn initialize_decision(
    is_bot: bool,
    initialized: bool,
    master_key: Result<[u8; 32], BotE2eeError>,
) -> Result<[u8; 32], BotE2eeError> {
    if !is_bot {
        Err(BotE2eeError::NotBot)
    } else if initialized {
        Err(BotE2eeError::AlreadyInitialized)
    } else {
        master_key
    }
}

/// Decide whether `initialize` may create the bot's material: a non-bot is
/// refused, a bot that already has an identity is refused with
/// `AlreadyInitialized` (nothing is written), and otherwise the master key
/// that loaded (or its error) decides.
pub fn initialize_step(
    is_bot: bool,
    initialized: bool,
    master_key: Result<[u8; 32], BotE2eeError>,
) -> (r: Result<[u8; 32], BotE2eeError>)
    ensures
        r == initialize_decision(is_bot, initialized, master_key),
{
    if !is_bot {
        return Err(BotE2eeError::NotBot);
    }
    if initialized {
        return Err(BotE2eeError::AlreadyInitialized);
    }
    master_key
}

/// The channel decision of [`channel_step`].
pub open spec fn channel_decision(
    is_bot: bool,
    initialized: bool,
    group_exists: bool,
    enable: bool,
    master_key: Result<[u8; 32], BotE2eeError>,
) -> Result<ChannelAction, BotE2eeError> {
    if !is_bot {
        Err(BotE2eeError::NotBot)
    } else if !initialized {
        Err(BotE2eeError::NotInitialized)
    } else if !group_exists {
        Err(BotE2eeError::ChannelNotFound)
    } else if !enable {
        Ok(ChannelAction::Disable)
    } else {
        match master_key {
            Ok(_) => Ok(ChannelAction::Enable),
            Err(e) => Err(e),
        }
    }
}

/// Initialization happens once, and channel admission follows it: before a
/// bot is initialized, enabling a channel is refused with `NotInitialized`;
/// once `initialize` has admitted it (so the bot has its identity), a
/// second `initialize` is refused with `AlreadyInitialized`, and enabling a
/// channel of an existing group is admitted with that master key, disabling
/// it always.
pub proof fn law_initialize_once_then_channels(
    first_key: Result<[u8; 32], BotE2eeError>,
    later_key: Result<[u8; 32], BotE2eeError>,
    group_exists: bool,
    enable: bool,
)
    requires
        initialize_decision(true, false, first_key) is Ok,
    ensures
        channel_decision(true, false, group_exists, enable, later_key) == Err::<ChannelAction, BotE2eeError>(
            BotE2eeError::NotInitialized),
        initialize_decision(true, true, later_key) == Err::<[u8; 32], BotE2eeError>(BotE2eeError::AlreadyInitialized),
        group_exists ==> channel_decision(true, true, group_exists, true, first_key) == Ok::<ChannelAction, BotE2eeError>(
            ChannelAction::Enable),
        group_exists ==> channel_decision(true, true, group_exists, false, later_key) == Ok::<ChannelAction, BotE2eeError>(
            ChannelAction::Disable),
{
}

/// What enabling or disabling a bot's channel does.
pub enum ChannelAction {
    /// Mark the channel enabled and publish what is not yet published.
    Enable,
    /// Mark the channel disabled.
    Disable,
}

/// Decide a channel change, in the order the server checks: the target
/// must be a bot, initialized, and the group must exist; enabling also
/// needs a usable master key (fail closed), disabling does not.
pub fn channel_step(
    is_bot: bool,
    initialized: bool,
    group_exists: bool,
    enable: bool,
    master_key: Result<[u8; 32], BotE2eeError>,
) -> (r: Result<ChannelAction, BotE2eeError>)
    ensures
        r == channel_decision(is_bot, initialized, group_exists, enable, master_key),
        !is_bot ==> r matches Err(BotE2eeError::NotBot),
        is_bot && !initialized ==> r matches Err(BotE2eeError::NotInitialized),
        is_bot && initialized && !group_exists ==> r matches Err(BotE2eeError::ChannelNotFound),
        is_bot && initialized && group_exists ==> if enable {
            match master_key {
                Err(e) => r == Err::<ChannelAction, BotE2eeError>(e),
                Ok(_) => r matches Ok(ChannelAction::Enable),
            }
        } else {
            r matches Ok(ChannelAction::Disable)
        },
{
    if !is_bot {
        return Err(BotE2eeError::NotBot);
    }
    if !initialized {
        return Err(BotE2eeError::NotInitialized);
    }
    if !group_exists {
        return Err(BotE2eeError::ChannelNotFound);
    }
    if !enable {
        return Ok(ChannelAction::Disable);
    }
    match master_key {
        Ok(_) => Ok(ChannelAction::Enable),
        Err(e) => Err(e),
    }
}

/// Which MLS artifacts an enabled channel still has to publish: the
/// credential and the key package, each unless already published.
pub fn channel_publications(credential_published: bool, key_package_published: bool) -> (r: (bool, bool))
    ensures
        r == (!credential_published, !key_package_published),
{
    (!credential_published, !key_package_published)
}

/// Decide a destructive rebuild, in the order the server checks: it must
/// be confirmed, the target must be an initialized bot, and the master key
/// must be usable; the new material then takes the next key version.
pub fn rebuild_step(
    confirm: bool,
    is_bot: bool,
    key_version: Option<i64>,
    master_key: Result<[u8; 32], BotE2eeError>,
) -> (r: Result<([u8; 32], i64), BotE2eeError>)
    requires
        key_version matches Some(v) ==> v < i64::MAX,
    ensures
        !confirm ==> r matches Err(BotE2eeError::ConfirmationRequired),
        confirm && !is_bot ==> r matches Err(BotE2eeError::NotBot),
        confirm && is_bot && key_version is None ==> r matches Err(BotE2eeError::NotInitialized),
        confirm && is_bot ==> match key_version {
            None => r matches Err(BotE2eeError::NotInitialized),
            Some(v) => match master_key {
                Err(e) => r == Err::<([u8; 32], i64), BotE2eeError>(e),
                Ok(k) => r == Ok::<([u8; 32], i64), BotE2eeError>((k, (v + 1) as i64)),
            },
        },
{
    if !confirm {
        return Err(BotE2eeError::ConfirmationRequired);
    }
    if !is_bot {
        return Err(BotE2eeError::NotBot);
    }
    let v = match key_version {
        Some(v) => v,
        None => return Err(BotE2eeError::NotInitialized),
    };
    let k = match master_key {
        Ok(k) => k,
        Err(e) => return Err(e),
    };
    Ok((k, crate::bot_e2ee::next_key_version(v)))
}


/// `{"device_id":` as bytes.
pub open spec fn key_device_id() -> Seq<u8> {
    seq![123u8, 34, 100, 101, 118, 105, 99, 101, 95, 105, 100, 34, 58]
}

/// `,"gid":` as bytes.
pub open spec fn key_gid() -> Seq<u8> {
    seq![44u8, 34, 103, 105, 100, 34, 58]
}

/// `,"identity_key_pub":` as bytes.
pub open spec fn key_identity_key_pub() -> Seq<u8> {
    seq![44u8, 34, 105, 100, 101, 110, 116, 105, 116, 121, 95, 107, 101, 121, 95, 112, 117, 98, 34, 58]
}

/// `,"kind":` as bytes.
pub open spec fn key_kind() -> Seq<u8> {
    seq![44u8, 34, 107, 105, 110, 100, 34, 58]
}

/// `,"package_id":` as bytes.
pub open spec fn key_package_id() -> Seq<u8> {
    seq![44u8, 34, 112, 97, 99, 107, 97, 103, 101, 95, 105, 100, 34, 58]
}

/// The decimal text of an integer, as bytes (`-` before a negative one).
pub open spec fn int_bytes(n: int) -> Seq<u8> {
    if n < 0 { seq![45u8] + decimal((-n) as nat) } else { decimal(n as nat) }
}

fn push_int_bytes(out: &mut Vec<u8>, n: i64)
    ensures
        final(out)@ == old(out)@ + int_bytes(n as int),
{
    if n < 0 {
        out.push(45u8);
        let magnitude: u64 = if n == i64::MIN { 0x8000_0000_0000_0000 } else { (-n) as u64 };
        push_decimal(out, magnitude);
        assert(out@ =~= old(out)@ + int_bytes(n as int));
    } else {
        push_decimal(out, n as u64);
    }
}

/// The placeholder MLS credential a bot publishes for a channel: the JSON
/// object `{"device_id","gid","identity_key_pub","kind"}` with keys in the
/// order `serde_json` writes them.
pub fn bot_mls_credential_bytes(device_id: &str, gid: i64, identity_key_pub: &str) -> (r: Vec<u8>)
    ensures
        r@ == key_device_id() + json_string_bytes(device_id@) + key_gid() + int_bytes(gid as int)
            + key_identity_key_pub() + json_string_bytes(identity_key_pub@) + key_kind()
            + json_string_bytes("vocechat-bot-mls-credential-placeholder-v1"@) + seq![125u8],
{
    let k1: [u8; 13] = [123, 34, 100, 101, 118, 105, 99, 101, 95, 105, 100, 34, 58];
    let k2: [u8; 7] = [44, 34, 103, 105, 100, 34, 58];
    let k3: [u8; 20] = [44, 34, 105, 100, 101, 110, 116, 105, 116, 121, 95, 107, 101, 121, 95, 112, 117, 98, 34, 58];
    let k4: [u8; 8] = [44, 34, 107, 105, 110, 100, 34, 58];
    let close: [u8; 1] = [125];
    assert(k1@ =~= key_device_id());
    assert(k2@ =~= key_gid());
    assert(k3@ =~= key_identity_key_pub());
    assert(k4@ =~= key_kind());
    let mut out: Vec<u8> = Vec::new();
    extend(&mut out, k1.as_slice());
    extend(&mut out, json_string(device_id).as_slice());
    extend(&mut out, k2.as_slice());
    push_int_bytes(&mut out, gid);
    extend(&mut out, k3.as_slice());
    extend(&mut out, json_string(identity_key_pub).as_slice());
    extend(&mut out, k4.as_slice());
    extend(&mut out, json_string("vocechat-bot-mls-credential-placeholder-v1").as_slice());
    extend(&mut out, close.as_slice());
    assert(out@ =~= key_device_id() + json_string_bytes(device_id@) + key_gid() + int_bytes(gid as int)
        + key_identity_key_pub() + json_string_bytes(identity_key_pub@) + key_kind()
        + json_string_bytes("vocechat-bot-mls-credential-placeholder-v1"@) + seq![125u8]);
    out
}

/// The placeholder MLS key package a bot publishes for a channel: the
/// JSON object `{"device_id","gid","kind","package_id"}`, with the
/// package id (a fresh UUID) given.
pub fn bot_mls_key_package_bytes(device_id: &str, gid: i64, package_id: &str) -> (r: Vec<u8>)
    ensures
        r@ == key_device_id() + json_string_bytes(device_id@) + key_gid() + int_bytes(gid as int)
            + key_kind() + json_string_bytes("vocechat-bot-mls-key-package-placeholder-v1"@)
            + key_package_id() + json_string_bytes(package_id@) + seq![125u8],
{
    let k1: [u8; 13] = [123, 34, 100, 101, 118, 105, 99, 101, 95, 105, 100, 34, 58];
    let k2: [u8; 7] = [44, 34, 103, 105, 100, 34, 58];
    let k4: [u8; 8] = [44, 34, 107, 105, 110, 100, 34, 58];
    let k5: [u8; 14] = [44, 34, 112, 97, 99, 107, 97, 103, 101, 95, 105, 100, 34, 58];
    let close: [u8; 1] = [125];
    assert(k1@ =~= key_device_id());
    assert(k2@ =~= key_gid());
    assert(k4@ =~= key_kind());
    assert(k5@ =~= key_package_id());
    let mut out: Vec<u8> = Vec::new();
    extend(&mut out, k1.as_slice());
    extend(&mut out, json_string(device_id).as_slice());
    extend(&mut out, k2.as_slice());
    push_int_bytes(&mut out, gid);
    extend(&mut out, k4.as_slice());
    extend(&mut out, json_string("vocechat-bot-mls-key-package-placeholder-v1").as_slice());
    extend(&mut out, k5.as_slice());
    extend(&mut out, json_string(package_id).as_slice());
    extend(&mut out, close.as_slice());
    assert(out@ =~= key_device_id() + json_string_bytes(device_id@) + key_gid() + int_bytes(gid as int)
        + key_kind() + json_string_bytes("vocechat-bot-mls-key-package-placeholder-v1"@)
        + key_package_id() + json_string_bytes(package_id@) + seq![125u8]);
    out
}

} // verus!
