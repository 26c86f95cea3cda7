//! Rules of the E2E key directory and backup endpoints, and the decision
//! which chat messages webhooks only see redacted.
use vstd::prelude::*;

use crate::bytes::str_eq;
use vstd::string::StrSliceExecFns;
use crate::e2ee_v2::{E2eProperties, PropValue};
use crate::message::{ChatMessage, DateTime, MessageDetail};

verus! {

/// Published identity key of one device.
#[derive(Debug, Clone)]
pub struct E2eIdentity {
    pub uid: i64,
    pub device_id: String,
    /// Public identity key (client-defined encoding).
    pub identity_key_pub: String,
    pub signed_prekey_pub: Option<String>,
    pub signed_prekey_sig: Option<String>,
    pub updated_at: DateTime,
}

/// The two participants of a direct conversation, lower uid first.
pub fn dm_pair(a: i64, b: i64) -> (r: (i64, i64))
    ensures
        r == (if a < b { (a, b) } else { (b, a) }),
        r.0 <= r.1,
{
    if a < b { (a, b) } else { (b, a) }
}

/// Smallest accepted backup blob.
pub const MIN_BACKUP_BYTES: usize = 32;

/// Largest accepted backup blob.
pub const MAX_BACKUP_BYTES: usize = 8388608;

/// A backup upload is accepted: container version 2, blob of 32 bytes to
/// 8 MiB.
pub fn backup_accepted(version: i32, blob_len: usize) -> (ok: bool)
    ensures
        ok == (version == 2 && MIN_BACKUP_BYTES <= blob_len <= MAX_BACKUP_BYTES),
{
    version == 2 && blob_len >= MIN_BACKUP_BYTES && blob_len <= MAX_BACKUP_BYTES
}

/// Uploads of a user's backup come at least one second apart.
pub fn backup_too_soon(now_millis: i64, last_updated_millis: Option<i64>) -> (too_soon: bool)
    ensures
        too_soon == match last_updated_millis {
            Some(t) => now_millis - t < 1000,
            None => false,
        },
{
    match last_updated_millis {
        Some(t) => (now_millis as i128) - (t as i128) < 1000,
        None => false,
    }
}

/// The legacy `e2e` property is the JSON value `true`.
pub open spec fn e2e_flag(p: Option<E2eProperties>) -> bool {
    p matches Some(props) && props.e2e matches Some(PropValue::Bool(true))
}

/// A chat message is end-to-end encrypted: a normal message or reply with
/// the E2EE v2 content type or the `e2e` flag.
pub open spec fn is_e2e_message(m: ChatMessage) -> bool {
    match m.payload.detail {
        MessageDetail::Normal(n) => n.content.content_type@ == crate::message::e2ee_v2_content_type()
            || e2e_flag(n.content.properties),
        MessageDetail::Reply(r) => r.content.content_type@ == crate::message::e2ee_v2_content_type()
            || e2e_flag(r.content.properties),
        MessageDetail::Reaction(_) => false,
    }
}

pub(crate) fn flag_set(p: &Option<E2eProperties>) -> (b: bool)
    ensures
        b == e2e_flag(*p),
{
    match p {
        Some(props) => match &props.e2e {
            Some(PropValue::Bool(v)) => *v,
            _ => false,
        },
        None => false,
    }
}

/// Whether webhooks get this chat message only in redacted form.
pub fn is_e2e_chat_message(m: &ChatMessage) -> (b: bool)
    ensures
        b == is_e2e_message(*m),
{
    match &m.payload.detail {
        MessageDetail::Normal(n) => str_eq(n.content.content_type.as_str(), crate::e2ee_v2::CONTENT_TYPE)
            || flag_set(&n.content.properties),
        MessageDetail::Reply(r) => str_eq(r.content.content_type.as_str(), crate::e2ee_v2::CONTENT_TYPE)
            || flag_set(&r.content.properties),
        MessageDetail::Reaction(_) => false,
    }
}

} // verus!

verus! {

/// Why an E2E key directory or backup request is refused.
#[derive(Debug, Clone, Copy, PartialEq, Eq)]
pub enum E2eApiRejection {
    /// Malformed request (400).
    BadRequest,
    /// The device id is not the authenticated device (400, `E2E_DEVICE_MISMATCH`).
    DeviceMismatch,
    /// Protocol generation 2 needs a signed prekey with its signature (400
    /// on upload, 409 on bundle fetch; `E2E_SIGNED_PREKEY_REQUIRED`).
    SignedPrekeyRequired { on_fetch: bool },
    /// No such record (404).
    NotFound,
    /// Only the original sender may add envelopes (403, `E2E_PENDING_FORBIDDEN`).
    PendingForbidden,
    /// The recipient is not the pending message's target (400, `E2E_PENDING_WRONG_RECIPIENT`).
    PendingWrongRecipient,
    /// The recipient has published no such device (400, `E2E_PENDING_UNKNOWN_DEVICE`).
    PendingUnknownDevice,
    /// Backups come less than a second apart (429).
    TooManyRequests,
}

impl E2eApiRejection {
    /// HTTP status of the refusal.
    pub fn status(&self) -> (s: u16)
        ensures
            s == match *self {
                E2eApiRejection::BadRequest | E2eApiRejection::DeviceMismatch | E2eApiRejection::PendingWrongRecipient
                | E2eApiRejection::PendingUnknownDevice => 400u16,
                E2eApiRejection::SignedPrekeyRequired { on_fetch } => if on_fetch { 409u16 } else { 400u16 },
                E2eApiRejection::NotFound => 404u16,
                E2eApiRejection::PendingForbidden => 403u16,
                E2eApiRejection::TooManyRequests => 429u16,
            },
    {
        match self {
            E2eApiRejection::BadRequest | E2eApiRejection::DeviceMismatch | E2eApiRejection::PendingWrongRecipient
            | E2eApiRejection::PendingUnknownDevice => 400,
            E2eApiRejection::SignedPrekeyRequired { on_fetch } => if *on_fetch { 409 } else { 400 },
            E2eApiRejection::NotFound => 404,
            E2eApiRejection::PendingForbidden => 403,
            E2eApiRejection::TooManyRequests => 429,
        }
    }

    /// The error text of the refusal, if it carries one.
    pub fn code(&self) -> (c: Option<&'static str>)
        ensures
            match *self {
                E2eApiRejection::DeviceMismatch => c matches Some(t) && t@ == "E2E_DEVICE_MISMATCH"@,
                E2eApiRejection::SignedPrekeyRequired { .. } => c matches Some(t) && t@ == "E2E_SIGNED_PREKEY_REQUIRED"@,
                E2eApiRejection::PendingForbidden => c matches Some(t) && t@ == "E2E_PENDING_FORBIDDEN"@,
                E2eApiRejection::PendingWrongRecipient => c matches Some(t) && t@ == "E2E_PENDING_WRONG_RECIPIENT"@,
                E2eApiRejection::PendingUnknownDevice => c matches Some(t) && t@ == "E2E_PENDING_UNKNOWN_DEVICE"@,
                _ => c is None,
            },
    {
        match self {
            E2eApiRejection::DeviceMismatch => Some("E2E_DEVICE_MISMATCH"),
            E2eApiRejection::SignedPrekeyRequired { .. } => Some("E2E_SIGNED_PREKEY_REQUIRED"),
            E2eApiRejection::PendingForbidden => Some("E2E_PENDING_FORBIDDEN"),
            E2eApiRejection::PendingWrongRecipient => Some("E2E_PENDING_WRONG_RECIPIENT"),
            E2eApiRejection::PendingUnknownDevice => Some("E2E_PENDING_UNKNOWN_DEVICE"),
            _ => None,
        }
    }
}

/// The optional text is present and not blank once trimmed.
pub open spec fn filled(t: Option<&str>) -> bool {
    t matches Some(s) && crate::bytes::trimmed_text(s@).len() > 0
}

fn is_filled(t: Option<&str>) -> (b: bool)
    ensures
        b == filled(t),
{
    match t {
        Some(s) => {
            let r = crate::bytes::trim_text(s);
            r.as_str().unicode_len() > 0
        },
        None => false,
    }
}

/// Check an identity upload: the device must be the authenticated one,
/// the device id and identity key non-empty, and under protocol generation
/// 2 the signed prekey and its signature present.
pub fn check_identity_upload(
    authenticated_device: &str,
    device_id: &str,
    identity_key_pub: &str,
    signed_prekey_pub: Option<&str>,
    signed_prekey_sig: Option<&str>,
    generation_two: bool,
) -> (r: Result<(), E2eApiRejection>)
    ensures
        r == if device_id@ != authenticated_device@ {
            Err(E2eApiRejection::DeviceMismatch)
        } else if device_id@.len() == 0 || identity_key_pub@.len() == 0 {
            Err(E2eApiRejection::BadRequest)
        } else if generation_two && !(filled(signed_prekey_pub) && filled(signed_prekey_sig)) {
            Err(E2eApiRejection::SignedPrekeyRequired { on_fetch: false })
        } else {
            Ok::<(), E2eApiRejection>(())
        },
{
    if !str_eq(device_id, authenticated_device) {
        return Err(E2eApiRejection::DeviceMismatch);
    }
    if device_id.unicode_len() == 0 || identity_key_pub.unicode_len() == 0 {
        return Err(E2eApiRejection::BadRequest);
    }
    if generation_two && !(is_filled(signed_prekey_pub) && is_filled(signed_prekey_sig)) {
        return Err(E2eApiRejection::SignedPrekeyRequired { on_fetch: false });
    }
    Ok(())
}

/// Check a one-time prekey upload: the authenticated, non-empty device.
pub fn check_prekeys_upload(authenticated_device: &str, device_id: &str) -> (r: Result<(), E2eApiRejection>)
    ensures
        r == if device_id@ != authenticated_device@ {
            Err(E2eApiRejection::DeviceMismatch)
        } else if device_id@.len() == 0 {
            Err(E2eApiRejection::BadRequest)
        } else {
            Ok::<(), E2eApiRejection>(())
        },
{
    if !str_eq(device_id, authenticated_device) {
        return Err(E2eApiRejection::DeviceMismatch);
    }
    if device_id.unicode_len() == 0 {
        return Err(E2eApiRejection::BadRequest);
    }
    Ok(())
}

/// A bundle is served only with a signed prekey and signature under
/// protocol generation 2.
pub fn check_bundle(generation_two: bool, signed_prekey_pub: Option<&str>, signed_prekey_sig: Option<&str>) -> (r: Result<(), E2eApiRejection>)
    ensures
        r == if generation_two && !(filled(signed_prekey_pub) && filled(signed_prekey_sig)) {
            Err(E2eApiRejection::SignedPrekeyRequired { on_fetch: true })
        } else {
            Ok::<(), E2eApiRejection>(())
        },
{
    if generation_two && !(is_filled(signed_prekey_pub) && is_filled(signed_prekey_sig)) {
        return Err(E2eApiRejection::SignedPrekeyRequired { on_fetch: true });
    }
    Ok(())
}

/// Check a DM setting change: the peer is another, existing user.
pub fn check_dm_setting(uid: i64, peer_uid: i64, peer_exists: bool) -> (r: Result<(i64, i64), E2eApiRejection>)
    ensures
        r == if peer_uid == uid {
            Err(E2eApiRejection::BadRequest)
        } else if !peer_exists {
            Err(E2eApiRejection::NotFound)
        } else {
            Ok::<(i64, i64), E2eApiRejection>(if uid < peer_uid { (uid, peer_uid) } else { (peer_uid, uid) })
        },
{
    if peer_uid == uid {
        return Err(E2eApiRejection::BadRequest);
    }
    if !peer_exists {
        return Err(E2eApiRejection::NotFound);
    }
    Ok(dm_pair(uid, peer_uid))
}

/// Check an envelope appended to a pending DM, given the pending message's
/// (sender, target) if it exists and the number of published identities of
/// the recipient device; the event then goes to sender and recipient.
pub fn check_pending_envelope(
    uid: i64,
    recipient_uid: i64,
    device_id: &str,
    envelope: &str,
    pending: Option<(i64, i64)>,
    device_count: i64,
) -> (r: Result<(i64, i64), E2eApiRejection>)
    ensures
        r == if device_id@.len() == 0 || envelope@.len() == 0 {
            Err(E2eApiRejection::BadRequest)
        } else {
            match pending {
                None => Err(E2eApiRejection::NotFound),
                Some((sender, target)) => if sender != uid {
                    Err(E2eApiRejection::PendingForbidden)
                } else if recipient_uid != target {
                    Err(E2eApiRejection::PendingWrongRecipient)
                } else if device_count == 0 {
                    Err(E2eApiRejection::PendingUnknownDevice)
                } else {
                    Ok::<(i64, i64), E2eApiRejection>((sender, recipient_uid))
                },
            }
        },
{
    if device_id.unicode_len() == 0 || envelope.unicode_len() == 0 {
        return Err(E2eApiRejection::BadRequest);
    }
    let (sender, target) = match pending {
        Some(p) => p,
        None => return Err(E2eApiRejection::NotFound),
    };
    if sender != uid {
        return Err(E2eApiRejection::PendingForbidden);
    }
    if recipient_uid != target {
        return Err(E2eApiRejection::PendingWrongRecipient);
    }
    if device_count == 0 {
        return Err(E2eApiRejection::PendingUnknownDevice);
    }
    Ok((sender, recipient_uid))
}

/// Check a backup upload: the blob (base64, surrounding white space
/// ignored) must decode, the container be version 2 of 32 bytes to 8 MiB,
/// and the previous upload be at least a second old. Gives the blob.
pub fn check_backup_upload(version: i32, blob_base64: &str, now_millis: i64, last_updated_millis: Option<i64>) -> (r: Result<Vec<u8>, E2eApiRejection>)
    ensures
        match crate::primitives::base64_decoded(crate::bytes::trimmed_text(blob_base64@)) {
            None => r == Err::<Vec<u8>, E2eApiRejection>(E2eApiRejection::BadRequest),
            Some(raw) => if !(version == 2 && MIN_BACKUP_BYTES <= raw.len() <= MAX_BACKUP_BYTES) {
                r == Err::<Vec<u8>, E2eApiRejection>(E2eApiRejection::BadRequest)
            } else if (match last_updated_millis { Some(t) => now_millis - t < 1000, None => false }) {
                r == Err::<Vec<u8>, E2eApiRejection>(E2eApiRejection::TooManyRequests)
            } else {
                r matches Ok(b) && b@ == raw
            },
        },
{
    let text = crate::bytes::trim_text(blob_base64);
    let raw = match crate::primitives::b64_decode(text.as_str()) {
        Ok(b) => b,
        Err(_) => return Err(E2eApiRejection::BadRequest),
    };
    if !backup_accepted(version, raw.len()) {
        return Err(E2eApiRejection::BadRequest);
    }
    if backup_too_soon(now_millis, last_updated_millis) {
        return Err(E2eApiRejection::TooManyRequests);
    }
    Ok(raw)
}

} // verus!
