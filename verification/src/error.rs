//! Error type shared by the crypto core.
use vstd::prelude::*;
use crate::bytes::{decimal_text, push_decimal_text};

verus! {

/// Failure modes of the E2EE core.
#[derive(Debug, Clone, PartialEq, Eq)]
pub enum E2eError {
    UnsupportedVersion(u8),
    InvalidEnvelope(String),
    InvalidKey(String),
    DecryptFailed,
    EncryptFailed,
    Replay(u32),
    X3dh(String),
    Ratchet(String),
    Json(String),
    NotImplemented(String),
}

/// The message an error is displayed with.
pub open spec fn error_message(e: E2eError) -> Seq<char> {
    match e {
        E2eError::UnsupportedVersion(v) => "unsupported E2EE version: "@ + decimal_text(v as nat),
        E2eError::InvalidEnvelope(d) => "invalid envelope: "@ + d@,
        E2eError::InvalidKey(d) => "invalid key material: "@ + d@,
        E2eError::DecryptFailed => "decryption failed"@,
        E2eError::EncryptFailed => "encryption failed"@,
        E2eError::Replay(n) => "replay detected (n="@ + decimal_text(n as nat) + ")"@,
        E2eError::X3dh(d) => "x3dh failed: "@ + d@,
        E2eError::Ratchet(d) => "ratchet error: "@ + d@,
        E2eError::Json(d) => "json: "@ + d@,
        E2eError::NotImplemented(d) => "not implemented: "@ + d@,
    }
}

impl E2eError {
    /// The error as it is displayed to callers.
    pub fn to_string(&self) -> (s: String)
        ensures
            s@ == error_message(*self),
    {
        match self {
            E2eError::UnsupportedVersion(v) => {
                let mut s = "unsupported E2EE version: ".to_owned();
                push_decimal_text(&mut s, *v as u64);
                s
            },
            E2eError::InvalidEnvelope(d) => {
                let mut s = "invalid envelope: ".to_owned();
                s.append(d.as_str());
                s
            },
            E2eError::InvalidKey(d) => {
                let mut s = "invalid key material: ".to_owned();
                s.append(d.as_str());
                s
            },
            E2eError::DecryptFailed => "decryption failed".to_owned(),
            E2eError::EncryptFailed => "encryption failed".to_owned(),
            E2eError::Replay(n) => {
                let mut s = "replay detected (n=".to_owned();
                push_decimal_text(&mut s, *n as u64);
                s.append(")");
                s
            },
            E2eError::X3dh(d) => {
                let mut s = "x3dh failed: ".to_owned();
                s.append(d.as_str());
                s
            },
            E2eError::Ratchet(d) => {
                let mut s = "ratchet error: ".to_owned();
                s.append(d.as_str());
                s
            },
            E2eError::Json(d) => {
                let mut s = "json: ".to_owned();
                s.append(d.as_str());
                s
            },
            E2eError::NotImplemented(d) => {
                let mut s = "not implemented: ".to_owned();
                s.append(d.as_str());
                s
            },
        }
    }
}

/// Owned copy of a static diagnostic text.
pub fn detail(s: &str) -> (r: String)
    ensures
        r@ == s@,
{
    s.to_owned()
}

} // verus!
