//! VoceChat end-to-end encryption core: key agreement, ratchets, wire
//! formats and the server-side routing rules of E2EE v2, with contracts
//! checked by Verus.
use vstd::prelude::*;

pub mod error;
pub mod primitives;
pub mod kdf;
pub mod bytes;
pub mod e2ee_v2;
pub mod skipped;
pub mod identity;
pub mod ratchet;
pub mod mls;
pub mod pad;
pub mod sender_keys;
pub mod envelope;
pub mod x3dh;
pub mod dm_session;
pub mod ffi_args;
pub mod deferred;
pub mod v1_compat;
pub mod password_hash;
pub mod message;
pub mod mls_delivery;
pub mod e2e_api;
pub mod send_rules;
pub mod bot_e2ee;
pub mod bot_flow;

verus! {

/// Library version reported to FFI / WASM callers.
pub fn version() -> (v: &'static str)
    ensures
        v@ == "0.1.0"@,
{
    let v = "0.1.0";
    proof {
        reveal_strlit("0.1.0");
    }
    v
}

} // verus!
