//! Decoding rules of the JSON IPC arguments: fixed-size base64 keys and
//! byte payloads given either as base64 or as text.
use vstd::prelude::*;

use vstd::string::StringExecFns;

use crate::bytes::{slice_range, to_array12, to_array32};
use crate::primitives::{b64_decode, base64_decoded};
use crate::ratchet::utf8;

verus! {

/// `prefix` followed by `key`.
fn prefixed(prefix: &str, key: &str) -> (s: String)
    ensures
        s@ == prefix@ + key@,
{
    let mut s = prefix.to_owned();
    s.append(key);
    s
}

/// `key` followed by `suffix`.
fn suffixed(key: &str, suffix: &str) -> (s: String)
    ensures
        s@ == key@ + suffix@,
{
    let mut s = key.to_owned();
    s.append(suffix);
    s
}

/// Decode the base64 argument `key` (its string value, if any) into exactly
/// 32 bytes. A base64 error carries the decoder's message.
pub fn decode32(value: Option<&str>, key: &str) -> (r: Result<[u8; 32], String>)
    ensures
        match value {
            None => r matches Err(m) && m@ == "missing "@ + key@,
            Some(t) => match base64_decoded(t@) {
                None => r is Err,
                Some(b) => if b.len() == 32 {
                    r matches Ok(a) && a@ == b
                } else {
                    r matches Err(m) && m@ == key@ + " must be 32 bytes"@
                },
            },
        },
{
    let text = match value {
        Some(t) => t,
        None => return Err(prefixed("missing ", key)),
    };
    let bytes = b64_decode(text)?;
    if bytes.len() != 32 {
        return Err(suffixed(key, " must be 32 bytes"));
    }
    Ok(to_array32(bytes.as_slice()))
}

/// Decode the base64 argument `key` into exactly 12 bytes.
pub fn decode12(value: Option<&str>, key: &str) -> (r: Result<[u8; 12], String>)
    ensures
        match value {
            None => r matches Err(m) && m@ == "missing "@ + key@,
            Some(t) => match base64_decoded(t@) {
                None => r is Err,
                Some(b) => if b.len() == 12 {
                    r matches Ok(a) && a@ == b
                } else {
                    r matches Err(m) && m@ == key@ + " must be 12 bytes"@
                },
            },
        },
{
    let text = match value {
        Some(t) => t,
        None => return Err(prefixed("missing ", key)),
    };
    let bytes = b64_decode(text)?;
    if bytes.len() != 12 {
        return Err(suffixed(key, " must be 12 bytes"));
    }
    Ok(to_array12(bytes.as_slice()))
}

/// The bytes of a payload given as base64 (preferred) or else as text (an
/// absent text is empty).
pub fn b64_or_text(b64: Option<&str>, text: Option<&str>) -> (r: Result<Vec<u8>, String>)
    ensures
        match b64 {
            Some(t) => match base64_decoded(t@) {
                Some(b) => r matches Ok(v) && v@ == b,
                None => r is Err,
            },
            None => r matches Ok(v) && v@ == match text {
                Some(t) => utf8(t@),
                None => Seq::<u8>::empty(),
            },
        },
{
    if let Some(t) = b64 {
        return b64_decode(t);
    }
    match text {
        Some(t) => {
            let b = t.as_bytes();
            Ok(slice_range(b, 0, b.len()))
        },
        None => Ok(Vec::new()),
    }
}

} // verus!
