//! Deferred-envelope crypto (algorithm label `DEFERRED+AES-GCM`): content
//! is sealed once under a random AES-256-GCM key, with the SHA-256 of the
//! canonical JSON metadata as associated data; the content key is wrapped
//! for each recipient device with X3DH from a throwaway identity.
//!
//! Metadata enters this module as its canonical JSON bytes (sorted keys,
//! as `serde_json` writes a `Value`).
use vstd::prelude::*;

use vstd::string::StringExecFns;
use vstd::string::StringSliceAdditionalSpecFns;

use crate::bytes::{decimal_text, push_decimal_text, str_eq, to_array12, to_array32};
use crate::error::{detail, E2eError};
use crate::identity::{IdentitySecret, IdentityPublic};
use crate::kdf::hkdf_sha256;
use crate::primitives::{
    x25519_public_key, aes_gcm_open, aes_gcm_opened, aes_gcm_seal, aes_gcm_sealed, b64_decode, b64_encode,
    base64_decoded, base64_of, hkdf_sha256_okm, random_bytes, sha256, sha256_of,
};
use crate::x3dh::{x3dh_initiator_with_ephemeral, x3dh_responder, PreKeyBundle, X3dhInitialMessage};

verus! {

/// Algorithm label of deferred envelopes.
pub const DEFERRED_ALG: &'static str = "DEFERRED+AES-GCM";

/// Output of [`deferred_encrypt`]: content key, nonce, ciphertext and the
/// metadata commitment used as associated data.
pub struct DeferredEncrypted {
    pub content_key: [u8; 32],
    pub nonce: [u8; 12],
    pub ciphertext: Vec<u8>,
    pub sha256: [u8; 32],
}

/// Wire envelope carrying a wrapped content key for one recipient device.
#[derive(Debug, Clone)]
pub struct DeferredEnvelope {
    pub alg: String,
    pub x3dh_initial: X3dhInitialMessage,
    pub nonce_b64: String,
    pub wrapped_key_b64: String,
}

/// Recipient secrets needed to unwrap an envelope.
pub struct DeferredLocalIdentity {
    pub ik_secret: [u8; 32],
    pub spk_secret: [u8; 32],
    pub otk_secret: Option<[u8; 32]>,
}

/// Info label of the key-wrapping key derivation.
pub open spec fn wrap_info() -> Seq<u8> {
    "VoceChat_Deferred_WrapKey_v2".spec_bytes()
}

/// Associated data of the key-wrap AEAD.
pub open spec fn wrap_aad() -> Seq<u8> {
    "VoceChat_Deferred_WrapAad_v2".spec_bytes()
}

/// Key-wrapping key derived from an X3DH secret.
pub open spec fn wrap_key_of(sk: Seq<u8>) -> Seq<u8> {
    hkdf_sha256_okm(sk, Seq::empty(), wrap_info(), 32)
}

/// Commitment to metadata: SHA-256 of its canonical JSON bytes.
pub fn deferred_metadata_commitment(canonical_metadata: &[u8]) -> (r: Result<[u8; 32], E2eError>)
    ensures
        r matches Ok(d) && d@ == sha256_of(canonical_metadata@),
{
    Ok(sha256(canonical_metadata))
}

/// Equality of two 32-byte commitments, examining every byte.
pub fn ct_eq(a: &[u8; 32], b: &[u8; 32]) -> (r: bool)
    ensures
        r == (a@ == b@),
{
    let mut diff: u8 = 0;
    let mut i: usize = 0;
    while i < 32
        invariant
            i <= 32,
            (diff == 0) == (forall|j: int| 0 <= j < i ==> a@[j] == b@[j]),
        decreases 32 - i,
    {
        let x = a[i];
        let y = b[i];
        let d = diff;
        assert((d | (x ^ y)) == 0 <==> (d == 0 && x == y)) by (bit_vector);
        diff = diff | (x ^ y);
        i = i + 1;
    }
    proof {
        if diff == 0 {
            assert(a@ =~= b@);
        }
    }
    diff == 0
}

/// Whether metadata (canonical JSON bytes) matches a commitment.
pub fn deferred_verify_metadata(canonical_metadata: &[u8], sha256: &[u8; 32]) -> (r: Result<bool, E2eError>)
    ensures
        r matches Ok(b) && b == (sha256_of(canonical_metadata@) == sha256@),
{
    let c = deferred_metadata_commitment(canonical_metadata)?;
    Ok(ct_eq(&c, sha256))
}

/// Seal `body` under `content_key` and `nonce`, binding the metadata
/// commitment as associated data.
pub fn deferred_encrypt_with(body: &[u8], canonical_metadata: &[u8], content_key: [u8; 32], nonce: [u8; 12]) -> (r: Result<DeferredEncrypted, E2eError>)
    ensures
        r is Ok <==> body@.len() <= 0x10_0000_0000,
        r matches Err(e) ==> e is EncryptFailed,
        r matches Ok(enc) ==> {
            &&& enc.content_key == content_key
            &&& enc.nonce == nonce
            &&& enc.sha256@ == sha256_of(canonical_metadata@)
            &&& enc.ciphertext@ == aes_gcm_sealed(content_key@, nonce@, enc.sha256@, body@)
            &&& enc.ciphertext@.len() == body@.len() + 16
            &&& aes_gcm_opened(content_key@, nonce@, enc.sha256@, enc.ciphertext@) == Some(body@)
        },
{
    let sha = deferred_metadata_commitment(canonical_metadata)?;
    match aes_gcm_seal(&content_key, &nonce, sha.as_slice(), body) {
        Some(ciphertext) => Ok(DeferredEncrypted { content_key, nonce, ciphertext, sha256: sha }),
        None => Err(E2eError::EncryptFailed),
    }
}

/// Seal `body` under a fresh random content key and nonce.
pub fn deferred_encrypt(body: &[u8], canonical_metadata: &[u8]) -> (r: Result<DeferredEncrypted, E2eError>)
    ensures
        r is Ok <==> body@.len() <= 0x10_0000_0000,
        r matches Ok(enc) ==> {
            &&& enc.sha256@ == sha256_of(canonical_metadata@)
            &&& enc.ciphertext@ == aes_gcm_sealed(enc.content_key@, enc.nonce@, enc.sha256@, body@)
            &&& enc.ciphertext@.len() == body@.len() + 16
            &&& aes_gcm_opened(enc.content_key@, enc.nonce@, enc.sha256@, enc.ciphertext@) == Some(body@)
        },
{
    let k = random_bytes(32);
    let n = random_bytes(12);
    deferred_encrypt_with(body, canonical_metadata, to_array32(k.as_slice()), to_array12(n.as_slice()))
}

/// Open content sealed by [`deferred_encrypt`]; `sha256` is the commitment
/// used as associated data.
pub fn deferred_decrypt(ciphertext: &[u8], key: &[u8; 32], nonce: &[u8; 12], sha256: &[u8; 32]) -> (r: Result<Vec<u8>, E2eError>)
    ensures
        match aes_gcm_opened(key@, nonce@, sha256@, ciphertext@) {
            Some(p) => r matches Ok(v) && v@ == p,
            None => r matches Err(e) && e is DecryptFailed,
        },
{
    match aes_gcm_open(key, nonce, sha256.as_slice(), ciphertext) {
        Some(p) => Ok(p),
        None => Err(E2eError::DecryptFailed),
    }
}

/// `env` wraps content key `k` for `bundle`: it comes from the throwaway
/// identity secret `x`, the ephemeral secret `ek` and the nonce `nonce`,
/// carries their public keys, and its wrapped key opens to `k` under the
/// key derived from the initiator's X3DH secret.
pub open spec fn wrapped_for(
    env: DeferredEnvelope,
    bundle: PreKeyBundle,
    x: Seq<u8>,
    ek: Seq<u8>,
    nonce: Seq<u8>,
    k: Seq<u8>,
) -> bool {
    let ikb = crate::identity::x25519_pub_decoded(bundle.identity.identity_dh_pub_b64@).unwrap();
    let spkb = crate::identity::x25519_pub_decoded(bundle.signed_prekey.dh_pub_b64@).unwrap();
    let sk = crate::kdf::x3dh_secret(crate::x3dh::initiator_dh(x, ikb, spkb, ek, crate::x3dh::bundle_otk(bundle)));
    &&& env.alg@ == DEFERRED_ALG@
    &&& x.len() == 32 && ek.len() == 32 && nonce.len() == 12
    &&& crate::x3dh::dh_agrees(ek)
    &&& env.x3dh_initial.identity_dh_pub_b64@ == base64_of(x25519_public_key(x))
    &&& crate::identity::x25519_pub_decoded(env.x3dh_initial.identity_dh_pub_b64@) == Some(x25519_public_key(x))
    &&& env.x3dh_initial.ephemeral_pub_b64@ == base64_of(x25519_public_key(ek))
    &&& crate::identity::x25519_pub_decoded(env.x3dh_initial.ephemeral_pub_b64@) == Some(x25519_public_key(ek))
    &&& env.x3dh_initial.used_signed_prekey_id == bundle.signed_prekey.key_id
    &&& env.x3dh_initial.used_one_time_prekey_id == (if bundle.one_time_prekey_b64 is Some {
        bundle.one_time_prekey_id
    } else {
        None
    })
    &&& env.nonce_b64@ == base64_of(nonce)
    &&& base64_decoded(env.nonce_b64@) == Some(nonce)
    &&& base64_decoded(env.wrapped_key_b64@) matches Some(ct)
        && env.wrapped_key_b64@ == base64_of(ct)
        && aes_gcm_opened(wrap_key_of(sk), nonce, wrap_aad(), ct) == Some(k)
}

/// The one-time secret the responder uses for an initial message: the
/// local one, when the message names a one-time prekey.
pub open spec fn used_otk(msg: X3dhInitialMessage, local: DeferredLocalIdentity) -> Option<Seq<u8>> {
    if msg.used_one_time_prekey_id is Some {
        match local.otk_secret {
            Some(o) => Some(o@),
            None => None,
        }
    } else {
        None
    }
}

/// The content key that `env` yields to the recipient secrets `local`, or
/// `None` when unwrapping fails: the label must be right, the initial
/// message's keys must decode, a named one-time prekey must be at hand, the
/// nonce must decode to 12 bytes, the wrapped key must decode and open
/// under the responder's X3DH-derived key, to 32 bytes.
pub open spec fn unwrapped_key(env: DeferredEnvelope, local: DeferredLocalIdentity) -> Option<Seq<u8>> {
    let msg = env.x3dh_initial;
    let ika = crate::identity::x25519_pub_decoded(msg.identity_dh_pub_b64@);
    let eka = crate::identity::x25519_pub_decoded(msg.ephemeral_pub_b64@);
    if env.alg@ != DEFERRED_ALG@ || ika is None || eka is None
        || (msg.used_one_time_prekey_id is Some && local.otk_secret is None) {
        None
    } else {
        let sk = crate::kdf::x3dh_secret(
            crate::x3dh::responder_dh(local.ik_secret@, local.spk_secret@, used_otk(msg, local), ika.unwrap(), eka.unwrap()));
        match base64_decoded(env.nonce_b64@) {
            Some(n) => if n.len() != 12 {
                None
            } else {
                match base64_decoded(env.wrapped_key_b64@) {
                    Some(ct) => match aes_gcm_opened(wrap_key_of(sk), n, wrap_aad(), ct) {
                        Some(k) => if k.len() == 32 { Some(k) } else { None },
                        None => None,
                    },
                    None => None,
                }
            },
            None => None,
        }
    }
}

fn wrap_key(shared: &[u8; 32]) -> (r: Result<[u8; 32], E2eError>)
    ensures
        r matches Ok(k) && k@ == wrap_key_of(shared@),
{
    let empty: [u8; 0] = [];
    let okm = hkdf_sha256(shared.as_slice(), empty.as_slice(), "VoceChat_Deferred_WrapKey_v2".as_bytes(), 32)?;
    assert(empty@ =~= Seq::<u8>::empty());
    Ok(to_array32(okm.as_slice()))
}

/// Wrap `content_key` for the recipient bundle, with the throwaway identity
/// secrets, ephemeral secret and nonce given.
pub fn deferred_wrap_key_with(
    content_key: &[u8; 32],
    recipient_bundle: &PreKeyBundle,
    throwaway_x25519: [u8; 32],
    throwaway_ed25519: [u8; 32],
    eka: [u8; 32],
    nonce: [u8; 12],
) -> (r: Result<DeferredEnvelope, E2eError>)
    ensures
        r is Ok <==> crate::x3dh::bundle_usable(*recipient_bundle),
        r matches Err(e) ==> e is InvalidKey,
        r matches Ok(env) ==> wrapped_for(env, *recipient_bundle, throwaway_x25519@, eka@, nonce@, content_key@),
{
    let (throwaway_secret, throwaway_public) = IdentitySecret::from_secrets(throwaway_x25519, throwaway_ed25519);
    let (shared_secret, x3dh_initial, _eka) = x3dh_initiator_with_ephemeral(&throwaway_secret.x25519, &throwaway_public, recipient_bundle, eka)?;
    let key = wrap_key(&shared_secret.0)?;
    proof {
        reveal_strlit("VoceChat_Deferred_WrapAad_v2");
        crate::bytes::lemma_utf8_len_bound("VoceChat_Deferred_WrapAad_v2"@);
    }
    let wrapped = match aes_gcm_seal(&key, &nonce, "VoceChat_Deferred_WrapAad_v2".as_bytes(), content_key.as_slice()) {
        Some(w) => w,
        None => return Err(E2eError::EncryptFailed),
    };
    let env = DeferredEnvelope {
        alg: DEFERRED_ALG.to_owned(),
        x3dh_initial,
        nonce_b64: b64_encode(&nonce),
        wrapped_key_b64: b64_encode(wrapped.as_slice()),
    };
    assert(base64_decoded(env.wrapped_key_b64@) == Some(wrapped@));
    Ok(env)
}

/// Wrap `content_key` for the recipient bundle with a fresh throwaway
/// identity, ephemeral key and nonce.
pub fn deferred_wrap_key(content_key: &[u8; 32], recipient_bundle: &PreKeyBundle) -> (r: Result<DeferredEnvelope, E2eError>)
    ensures
        r is Ok <==> crate::x3dh::bundle_usable(*recipient_bundle),
        r matches Err(e) ==> e is InvalidKey,
        r matches Ok(env) ==> exists|x: Seq<u8>, ek: Seq<u8>, nonce: Seq<u8>|
            #[trigger] wrapped_for(env, *recipient_bundle, x, ek, nonce, content_key@),
{
    let x = random_bytes(32);
    let ed = random_bytes(32);
    let ek = random_bytes(32);
    let n = random_bytes(12);
    deferred_wrap_key_with(content_key, recipient_bundle, to_array32(x.as_slice()), to_array32(ed.as_slice()),
        to_array32(ek.as_slice()), to_array12(n.as_slice()))
}

/// Decode a base64 field that must hold exactly 12 bytes.
fn decode_nonce(b64: &str) -> (r: Result<[u8; 12], E2eError>)
    ensures
        match base64_decoded(b64@) {
            Some(b) => if b.len() == 12 {
                r matches Ok(n) && n@ == b
            } else {
                r matches Err(E2eError::InvalidEnvelope(m)) && m@ == "nonce_b64 must be 12 bytes, got "@ + decimal_text(b.len())
            },
            None => r matches Err(e) && e is InvalidEnvelope,
        },
{
    let bytes = match b64_decode(b64) {
        Ok(b) => b,
        Err(msg) => {
            let mut m = "nonce_b64: ".to_owned();
            m.append(msg.as_str());
            return Err(E2eError::InvalidEnvelope(m));
        },
    };
    if bytes.len() != 12 {
        let mut m = "nonce_b64 must be 12 bytes, got ".to_owned();
        push_decimal_text(&mut m, bytes.len() as u64);
        return Err(E2eError::InvalidEnvelope(m));
    }
    Ok(to_array12(bytes.as_slice()))
}

/// Unwrap the content key of an envelope with the recipient's secrets.
pub fn deferred_unwrap_key(envelope: &DeferredEnvelope, local_identity: &DeferredLocalIdentity) -> (r: Result<[u8; 32], E2eError>)
    ensures
        envelope.alg@ != DEFERRED_ALG@ ==> (r matches Err(E2eError::InvalidEnvelope(m))
            && m@ == "unexpected alg: "@ + envelope.alg@),
        r is Ok <==> unwrapped_key(*envelope, *local_identity) is Some,
        r matches Ok(k) ==> unwrapped_key(*envelope, *local_identity) == Some(k@),
{
    if !str_eq(envelope.alg.as_str(), DEFERRED_ALG) {
        let mut m = "unexpected alg: ".to_owned();
        m.append(envelope.alg.as_str());
        return Err(E2eError::InvalidEnvelope(m));
    }
    let otk = match &local_identity.otk_secret {
        Some(o) => Some(o),
        None => None,
    };
    let shared_secret = x3dh_responder(&local_identity.ik_secret, &local_identity.spk_secret, otk, &envelope.x3dh_initial)?;
    let key = wrap_key(&shared_secret.0)?;
    let nonce = decode_nonce(envelope.nonce_b64.as_str())?;
    let wrapped = match b64_decode(envelope.wrapped_key_b64.as_str()) {
        Ok(b) => b,
        Err(msg) => {
            let mut m = "wrapped_key_b64: ".to_owned();
            m.append(msg.as_str());
            return Err(E2eError::InvalidEnvelope(m));
        },
    };
    let opened = match aes_gcm_open(&key, &nonce, "VoceChat_Deferred_WrapAad_v2".as_bytes(), wrapped.as_slice()) {
        Some(p) => p,
        None => return Err(E2eError::DecryptFailed),
    };
    if opened.len() != 32 {
        return Err(E2eError::InvalidKey(detail("unwrapped content key length")));
    }
    Ok(to_array32(opened.as_slice()))
}

/// A content key wrapped for a recipient's bundle is unwrapped, with the
/// recipient's matching secrets, to that same key: the bundle's identity,
/// signed prekey and (if offered) one-time prekey are the public keys of
/// `local`'s secrets, and an offered one-time prekey carries its id.
pub proof fn law_deferred_roundtrip(
    env: DeferredEnvelope,
    bundle: PreKeyBundle,
    local: DeferredLocalIdentity,
    x: Seq<u8>,
    ek: Seq<u8>,
    nonce: Seq<u8>,
    k: Seq<u8>,
)
    requires
        wrapped_for(env, bundle, x, ek, nonce, k),
        k.len() == 32,
        crate::identity::x25519_pub_decoded(bundle.identity.identity_dh_pub_b64@) == Some(x25519_public_key(local.ik_secret@)),
        crate::identity::x25519_pub_decoded(bundle.signed_prekey.dh_pub_b64@) == Some(x25519_public_key(local.spk_secret@)),
        crate::x3dh::dh_agrees(local.spk_secret@),
        match bundle.one_time_prekey_b64 {
            Some(t) => bundle.one_time_prekey_id is Some && (local.otk_secret matches Some(o)
                && crate::identity::x25519_pub_decoded(t@) == Some(x25519_public_key(o@))),
            None => true,
        },
    ensures
        unwrapped_key(env, local) == Some(k),
{
    let otk = match bundle.one_time_prekey_b64 {
        Some(t) => Some(local.otk_secret.unwrap()@),
        None => None,
    };
    crate::x3dh::law_x3dh_agreement(x, local.ik_secret@, local.spk_secret@, ek, otk);
    assert(used_otk(env.x3dh_initial, local) == otk);
    assert(crate::x3dh::bundle_otk(bundle) == match otk { Some(o) => Some(x25519_public_key(o)), None => None });
}

} // verus!
