//! Read-only decryption of E2EE v1 messages: P-256 ECDH, HKDF-SHA256
//! ("vocechat-e2e-v1") and AES-256-GCM, either directly (`P-256+AES-GCM`)
//! or through a message key wrapped per recipient (`MK+AES-GCM`).
//!
//! The packed content is base64 of a JSON envelope; this module works on
//! the parsed envelope.
use vstd::prelude::*;

use vstd::string::StringExecFns;
use vstd::string::StringSliceAdditionalSpecFns;

use crate::bytes::{extend, slice_range, str_eq, to_array12, to_array32};
use crate::error::{detail, E2eError};
use crate::kdf::hkdf_sha256;
use crate::primitives::{
    aes_gcm_open, aes_gcm_opened, aes_gcm_seal, aes_gcm_sealed, b64_decode, b64_encode, base64_decoded,
    base64_of, hkdf_sha256_okm, p256_check_point, p256_ecdh, p256_point_valid, p256_public,
    p256_public_point, p256_secret, p256_secret_parse, p256_shared, random_bytes, utf8_to_string,
};

verus! {

/// One recipient's wrap of the message key.
#[derive(Debug)]
pub struct V1Wrap {
    pub uid: Option<i64>,
    pub rpk: String,
    pub spk: String,
    pub iv: String,
    pub ct: String,
    pub salt: String,
}

/// Parsed v1 envelope.
#[derive(Debug)]
pub struct V1Envelope {
    pub v: u8,
    pub alg: String,
    pub spk: Option<String>,
    pub rpk: Option<String>,
    pub iv: Option<String>,
    pub ct: Option<String>,
    pub salt: Option<String>,
    pub wraps: Option<Vec<V1Wrap>>,
}

/// Model of a wrap: its texts.
pub struct V1WrapView {
    pub rpk: Seq<char>,
    pub spk: Seq<char>,
    pub iv: Seq<char>,
    pub ct: Seq<char>,
    pub salt: Seq<char>,
}

impl View for V1Wrap {
    type V = V1WrapView;

    open spec fn view(&self) -> V1WrapView {
        V1WrapView { rpk: self.rpk@, spk: self.spk@, iv: self.iv@, ct: self.ct@, salt: self.salt@ }
    }
}

/// Why a v1 decryption failed.
pub enum V1Fault {
    /// Unsupported version number.
    Version(u8),
    /// Key material refused; the message comes from the decoder or curve crate.
    BadKey,
    /// Malformed envelope; `Some(text)` when the message is known.
    Envelope(Option<Seq<char>>),
    DecryptFailed,
}

/// The error value that reports `f`.
pub open spec fn v1_error(e: E2eError, f: V1Fault) -> bool {
    match f {
        V1Fault::Version(v) => e == E2eError::UnsupportedVersion(v),
        V1Fault::BadKey => e is InvalidKey,
        V1Fault::Envelope(None) => e is InvalidEnvelope,
        V1Fault::Envelope(Some(m)) => e matches E2eError::InvalidEnvelope(t) && t@ == m,
        V1Fault::DecryptFailed => e is DecryptFailed,
    }
}

/// The SEC1 point carried by a base64 SPKI (its last 65 bytes) or raw point.
pub open spec fn spki_point(bytes: Seq<u8>) -> Seq<u8> {
    if bytes.len() > 65 && bytes[0] == 0x30 {
        bytes.subrange(bytes.len() - 65, bytes.len() as int)
    } else {
        bytes
    }
}

/// The v1 AES key shared by `secret` and the peer key text, with `salt`.
pub open spec fn v1_key(secret: Seq<u8>, peer_b64: Seq<char>, salt: Seq<u8>) -> Option<Seq<u8>> {
    match base64_decoded(peer_b64) {
        None => None,
        Some(bytes) => if p256_point_valid(spki_point(bytes)) {
            Some(hkdf_sha256_okm(p256_shared(secret, spki_point(bytes)), salt, "vocechat-e2e-v1".spec_bytes(), 32))
        } else {
            None
        },
    }
}

/// AES-256-GCM decryption with a 12-byte IV and no associated data.
pub open spec fn v1_open(key: Seq<u8>, iv: Seq<u8>, ct: Seq<u8>) -> Result<Seq<u8>, V1Fault> {
    if iv.len() != 12 {
        Err(V1Fault::Envelope(Some("iv len"@)))
    } else {
        match aes_gcm_opened(key, iv, Seq::empty(), ct) {
            Some(p) => Ok(p),
            None => Err(V1Fault::DecryptFailed),
        }
    }
}

/// Wraps addressed to `my` keep their order and come first.
pub open spec fn wraps_in_order(l: Seq<V1WrapView>, my: Seq<char>, mine: bool) -> Seq<V1WrapView>
    decreases l.len(),
{
    if l.len() == 0 {
        Seq::empty()
    } else {
        wraps_in_order(l.drop_last(), my, mine) + if (l.last().rpk == my) == mine { seq![l.last()] } else { Seq::empty() }
    }
}

/// Try the wraps in order: the first that opens to a 32-byte key gives it;
/// a malformed base64 field stops the search.
pub open spec fn try_wraps(secret: Seq<u8>, l: Seq<V1WrapView>) -> Result<Seq<u8>, V1Fault>
    decreases l.len(),
{
    if l.len() == 0 {
        Err(V1Fault::DecryptFailed)
    } else {
        let w = l[0];
        match base64_decoded(w.salt) {
            None => Err(V1Fault::Envelope(None)),
            Some(salt) => match v1_key(secret, w.spk, salt) {
                None => try_wraps(secret, l.drop_first()),
                Some(k) => match base64_decoded(w.iv) {
                    None => Err(V1Fault::Envelope(None)),
                    Some(iv) => match base64_decoded(w.ct) {
                        None => Err(V1Fault::Envelope(None)),
                        Some(ct) => match v1_open(k, iv, ct) {
                            Ok(mk) => if mk.len() == 32 { Ok(mk) } else { try_wraps(secret, l.drop_first()) },
                            Err(_) => try_wraps(secret, l.drop_first()),
                        },
                    },
                },
            },
        }
    }
}

/// Decode a base64 field of the envelope.
fn decode_b64(s: &str) -> (r: Result<Vec<u8>, E2eError>)
    ensures
        match base64_decoded(s@) {
            Some(b) => r matches Ok(v) && v@ == b,
            None => r matches Err(e) && e is InvalidEnvelope,
        },
{
    match b64_decode(s) {
        Ok(b) => Ok(b),
        Err(msg) => Err(E2eError::InvalidEnvelope(msg)),
    }
}

/// The SEC1 point of a base64 SPKI or raw point, if the curve accepts it.
fn parse_p256_spki_or_raw(b64: &str) -> (r: Result<Vec<u8>, E2eError>)
    ensures
        match base64_decoded(b64@) {
            Some(bytes) => if p256_point_valid(spki_point(bytes)) {
                r matches Ok(p) && p@ == spki_point(bytes)
            } else {
                r matches Err(e) && e is InvalidKey
            },
            None => r matches Err(e) && e is InvalidKey,
        },
{
    let bytes = match b64_decode(b64) {
        Ok(b) => b,
        Err(msg) => return Err(E2eError::InvalidKey(msg)),
    };
    let point = if bytes.len() > 65 && bytes[0] == 0x30 {
        slice_range(bytes.as_slice(), bytes.len() - 65, bytes.len())
    } else {
        bytes
    };
    match p256_check_point(point.as_slice()) {
        Ok(()) => Ok(point),
        Err(msg) => Err(E2eError::InvalidKey(msg)),
    }
}

/// The v1 AES key of `secret` with the peer key text and `salt`.
fn derive_v1_aes_key(secret: &[u8; 32], peer_spki_b64: &str, salt: &[u8]) -> (r: Result<[u8; 32], E2eError>)
    requires
        exists|d: Seq<u8>| p256_secret_parse(d) == Some(secret@),
    ensures
        match v1_key(secret@, peer_spki_b64@, salt@) {
            Some(k) => r matches Ok(a) && a@ == k,
            None => r matches Err(e) && e is InvalidKey,
        },
{
    let peer = parse_p256_spki_or_raw(peer_spki_b64)?;
    let shared = p256_ecdh(secret, peer.as_slice());
    let okm = hkdf_sha256(shared.as_slice(), salt, "vocechat-e2e-v1".as_bytes(), 32)?;
    Ok(to_array32(okm.as_slice()))
}

/// AES-256-GCM decryption with a 12-byte IV and no associated data.
fn v1_aes_open(key: &[u8; 32], iv: &[u8], ct: &[u8]) -> (r: Result<Vec<u8>, E2eError>)
    ensures
        match v1_open(key@, iv@, ct@) {
            Ok(p) => r matches Ok(v) && v@ == p,
            Err(f) => r matches Err(e) && v1_error(e, f),
        },
{
    if iv.len() != 12 {
        return Err(E2eError::InvalidEnvelope(detail("iv len")));
    }
    let nonce = to_array12(iv);
    let empty: [u8; 0] = [];
    assert(empty@ =~= Seq::<u8>::empty());
    match aes_gcm_open(key, &nonce, empty.as_slice(), ct) {
        Some(p) => Ok(p),
        None => Err(E2eError::DecryptFailed),
    }
}

fn copy_wrap(w: &V1Wrap) -> (c: V1Wrap)
    ensures
        c@ == w@,
{
    V1Wrap {
        uid: w.uid,
        rpk: w.rpk.clone(),
        spk: w.spk.clone(),
        iv: w.iv.clone(),
        ct: w.ct.clone(),
        salt: w.salt.clone(),
    }
}

/// The views of a list of wraps.
pub open spec fn wrap_views(l: Seq<V1Wrap>) -> Seq<V1WrapView> {
    Seq::new(l.len(), |i: int| l[i]@)
}

/// Append the wraps that are (or are not) addressed to `my`, in order.
fn push_wraps(out: &mut Vec<V1Wrap>, wraps: &Vec<V1Wrap>, my: &str, mine: bool)
    ensures
        wrap_views(final(out)@) == wrap_views(old(out)@) + wraps_in_order(wrap_views(wraps@), my@, mine),
{
    let ghost start = wrap_views(out@);
    let ghost all = wrap_views(wraps@);
    let mut i: usize = 0;
    while i < wraps.len()
        invariant
            i <= wraps@.len(),
            all == wrap_views(wraps@),
            wrap_views(out@) == start + wraps_in_order(all.subrange(0, i as int), my@, mine),
        decreases wraps@.len() - i,
    {
        let ghost before = wrap_views(out@);
        assert(all.subrange(0, i + 1).drop_last() =~= all.subrange(0, i as int));
        assert(all.subrange(0, i + 1).last() == wraps@[i as int]@);
        if str_eq(wraps[i].rpk.as_str(), my) == mine {
            out.push(copy_wrap(&wraps[i]));
            assert(wrap_views(out@) =~= before + seq![wraps@[i as int]@]);
        } else {
            assert(wrap_views(out@) =~= before + Seq::<V1WrapView>::empty());
        }
        i = i + 1;
    }
    assert(all.subrange(0, wraps@.len() as int) =~= all);
}

/// Recover the 32-byte message key from the wraps, trying those addressed
/// to `my_spki_b64` first.
fn unwrap_mk(secret: &[u8; 32], my_spki_b64: &str, wraps: &Vec<V1Wrap>) -> (r: Result<[u8; 32], E2eError>)
    requires
        exists|d: Seq<u8>| p256_secret_parse(d) == Some(secret@),
    ensures
        ({
            let l = wraps_in_order(wrap_views(wraps@), my_spki_b64@, true)
                + wraps_in_order(wrap_views(wraps@), my_spki_b64@, false);
            match try_wraps(secret@, l) {
                Ok(k) => r matches Ok(a) && a@ == k,
                Err(f) => r matches Err(e) && v1_error(e, f),
            }
        }),
{
    let mut ordered: Vec<V1Wrap> = Vec::new();
    push_wraps(&mut ordered, wraps, my_spki_b64, true);
    push_wraps(&mut ordered, wraps, my_spki_b64, false);
    assert(wrap_views(ordered@) =~= Seq::<V1WrapView>::empty() + wraps_in_order(wrap_views(wraps@), my_spki_b64@, true)
        + wraps_in_order(wrap_views(wraps@), my_spki_b64@, false));
    let ghost l = wrap_views(ordered@);
    let mut j: usize = 0;
    assert(l.subrange(0, l.len() as int) =~= l);
    while j < ordered.len()
        invariant
            j <= ordered@.len(),
            l == wrap_views(ordered@),
            l == wraps_in_order(wrap_views(wraps@), my_spki_b64@, true)
                + wraps_in_order(wrap_views(wraps@), my_spki_b64@, false),
            exists|d: Seq<u8>| p256_secret_parse(d) == Some(secret@),
            try_wraps(secret@, l) == try_wraps(secret@, l.subrange(j as int, l.len() as int)),
        decreases ordered@.len() - j,
    {
        let ghost rest = l.subrange(j as int, l.len() as int);
        assert(rest[0] == ordered@[j as int]@);
        assert(rest.drop_first() =~= l.subrange(j + 1, l.len() as int));
        let w = &ordered[j];
        assert(rest.len() > 0);
        let salt = match decode_b64(w.salt.as_str()) {
            Ok(b) => b,
            Err(e) => return Err(e),
        };
        match derive_v1_aes_key(secret, w.spk.as_str(), salt.as_slice()) {
            Ok(wrap_key) => {
                let iv = match decode_b64(w.iv.as_str()) {
                    Ok(b) => b,
                    Err(e) => return Err(e),
                };
                let ct = match decode_b64(w.ct.as_str()) {
                    Ok(b) => b,
                    Err(e) => return Err(e),
                };
                if let Ok(mk) = v1_aes_open(&wrap_key, iv.as_slice(), ct.as_slice()) {
                    if mk.len() == 32 {
                        return Ok(to_array32(mk.as_slice()));
                    }
                }
            },
            Err(_) => {},
        }
        j = j + 1;
    }
    Err(E2eError::DecryptFailed)
}

/// The text that decrypting `env` with our secret gives (or why not).
pub open spec fn v1_decrypt_spec(private_d: Seq<u8>, my: Seq<char>, env: V1Envelope) -> Result<Seq<u8>, V1Fault> {
    if env.v != 1 {
        Err(V1Fault::Version(env.v))
    } else {
        match p256_secret_parse(private_d) {
            None => Err(V1Fault::BadKey),
            Some(secret) => {
                let key: Result<Seq<u8>, V1Fault> = if env.alg@ == "MK+AES-GCM"@ {
                    match env.wraps {
                        None => Err(V1Fault::Envelope(Some("missing wraps"@))),
                        Some(ws) => try_wraps(secret, wraps_in_order(wrap_views(ws@), my, true) + wraps_in_order(wrap_views(ws@), my, false)),
                    }
                } else if env.alg@ == "P-256+AES-GCM"@ {
                    let salt_text = match env.salt { Some(s) => s@, None => Seq::empty() };
                    match base64_decoded(salt_text) {
                        None => Err(V1Fault::Envelope(None)),
                        Some(salt) => {
                            let peer = match env.spk { Some(s) => Some(s@), None => match env.rpk { Some(r) => Some(r@), None => None } };
                            match peer {
                                None => Err(V1Fault::Envelope(Some("missing peer pub"@))),
                                Some(p) => match v1_key(secret, p, salt) {
                                    Some(k) => Ok(k),
                                    None => Err(V1Fault::BadKey),
                                },
                            }
                        },
                    }
                } else {
                    Err(V1Fault::Envelope(Some("unsupported alg "@ + env.alg@)))
                };
                match key {
                    Err(f) => Err(f),
                    Ok(k) => match env.iv {
                        None => Err(V1Fault::Envelope(Some("iv"@))),
                        Some(iv_text) => match base64_decoded(iv_text@) {
                            None => Err(V1Fault::Envelope(None)),
                            Some(iv) => match env.ct {
                                None => Err(V1Fault::Envelope(Some("ct"@))),
                                Some(ct_text) => match base64_decoded(ct_text@) {
                                    None => Err(V1Fault::Envelope(None)),
                                    Some(ct) => v1_open(k, iv, ct),
                                },
                            },
                        },
                    },
                }
            },
        }
    }
}

/// The content key of a parsed envelope.
fn v1_content_key(secret: &[u8; 32], my_spki_b64: &str, env: &V1Envelope) -> (r: Result<[u8; 32], E2eError>)
    requires
        exists|d: Seq<u8>| p256_secret_parse(d) == Some(secret@),
    ensures
        env.alg@ == "MK+AES-GCM"@ ==> match env.wraps {
            None => r matches Err(E2eError::InvalidEnvelope(m)) && m@ == "missing wraps"@,
            Some(ws) => match try_wraps(secret@, wraps_in_order(wrap_views(ws@), my_spki_b64@, true)
                + wraps_in_order(wrap_views(ws@), my_spki_b64@, false)) {
                Ok(k) => r matches Ok(a) && a@ == k,
                Err(f) => r matches Err(e) && v1_error(e, f),
            },
        },
        env.alg@ == "P-256+AES-GCM"@ ==> ({
            let salt_text = match env.salt { Some(s) => s@, None => Seq::<char>::empty() };
            match base64_decoded(salt_text) {
                None => r matches Err(e) && e is InvalidEnvelope,
                Some(salt) => {
                    let peer = match env.spk { Some(s) => Some(s@), None => match env.rpk { Some(p) => Some(p@), None => None } };
                    match peer {
                        None => r matches Err(E2eError::InvalidEnvelope(m)) && m@ == "missing peer pub"@,
                        Some(p) => match v1_key(secret@, p, salt) {
                            Some(k) => r matches Ok(a) && a@ == k,
                            None => r matches Err(e) && e is InvalidKey,
                        },
                    }
                },
            }
        }),
        env.alg@ != "MK+AES-GCM"@ && env.alg@ != "P-256+AES-GCM"@ ==> (r matches Err(E2eError::InvalidEnvelope(m))
            && m@ == "unsupported alg "@ + env.alg@),
{
    proof {
        reveal_strlit("MK+AES-GCM");
        reveal_strlit("P-256+AES-GCM");
        assert("MK+AES-GCM"@.len() != "P-256+AES-GCM"@.len());
    }
    if str_eq(env.alg.as_str(), "MK+AES-GCM") {
        match &env.wraps {
            None => Err(E2eError::InvalidEnvelope(detail("missing wraps"))),
            Some(ws) => unwrap_mk(secret, my_spki_b64, ws),
        }
    } else if str_eq(env.alg.as_str(), "P-256+AES-GCM") {
        let salt_res = match &env.salt {
            Some(s) => decode_b64(s.as_str()),
            None => {
                proof {
                    reveal_strlit("");
                    assert(""@ =~= Seq::<char>::empty());
                }
                decode_b64("")
            },
        };
        let salt = match salt_res {
            Ok(b) => b,
            Err(e) => return Err(e),
        };
        let peer = match &env.spk {
            Some(s) => s,
            None => match &env.rpk {
                Some(p) => p,
                None => return Err(E2eError::InvalidEnvelope(detail("missing peer pub"))),
            },
        };
        derive_v1_aes_key(secret, peer.as_str(), salt.as_slice())
    } else {
        let mut m = "unsupported alg ".to_owned();
        m.append(env.alg.as_str());
        Err(E2eError::InvalidEnvelope(m))
    }
}

/// Decrypt a parsed v1 envelope with our P-256 private scalar `private_d`
/// and our public SPKI (base64) for wrap matching.
pub fn decrypt_v1_envelope(private_d: &[u8], my_spki_b64: &str, env: &V1Envelope) -> (r: Result<String, E2eError>)
    ensures
        match v1_decrypt_spec(private_d@, my_spki_b64@, *env) {
            Ok(p) => if vstd::utf8::valid_utf8(p) {
                r matches Ok(s) && s@ == vstd::utf8::decode_utf8(p)
            } else {
                r matches Err(e) && e is InvalidEnvelope
            },
            Err(f) => r matches Err(e) && v1_error(e, f),
        },
{
    if env.v != 1 {
        return Err(E2eError::UnsupportedVersion(env.v));
    }
    let secret = match p256_secret(private_d) {
        Ok(s) => s,
        Err(msg) => return Err(E2eError::InvalidKey(msg)),
    };
    let key = v1_content_key(&secret, my_spki_b64, env)?;
    let iv = match &env.iv {
        Some(t) => decode_b64(t.as_str())?,
        None => return Err(E2eError::InvalidEnvelope(detail("iv"))),
    };
    let ct = match &env.ct {
        Some(t) => decode_b64(t.as_str())?,
        None => return Err(E2eError::InvalidEnvelope(detail("ct"))),
    };
    let pt = v1_aes_open(&key, iv.as_slice(), ct.as_slice())?;
    match utf8_to_string(pt) {
        Ok(s) => Ok(s),
        Err(msg) => Err(E2eError::InvalidEnvelope(msg)),
    }
}

} // verus!

verus! {

/// DER prefix of a P-256 SubjectPublicKeyInfo before the uncompressed point.
pub open spec fn spki_prefix() -> Seq<u8> {
    seq![0x30u8, 0x59, 0x30, 0x13, 0x06, 0x07, 0x2a, 0x86, 0x48, 0xce, 0x3d, 0x02, 0x01, 0x06, 0x08,
        0x2a, 0x86, 0x48, 0xce, 0x3d, 0x03, 0x01, 0x07, 0x03, 0x42, 0x00]
}

/// Base64 SPKI of the public key of a P-256 private scalar.
pub fn p256_spki_b64_from_secret(d: &[u8]) -> (r: Result<String, E2eError>)
    ensures
        match p256_secret_parse(d@) {
            Some(s) => r matches Ok(t) && t@ == base64_of(spki_prefix() + p256_public_point(s))
                && base64_decoded(t@) == Some(spki_prefix() + p256_public_point(s)),
            None => r matches Err(e) && e is InvalidKey,
        },
{
    let secret = match p256_secret(d) {
        Ok(s) => s,
        Err(msg) => return Err(E2eError::InvalidKey(msg)),
    };
    let point = p256_public(&secret);
    let prefix: [u8; 26] = [
        0x30, 0x59, 0x30, 0x13, 0x06, 0x07, 0x2a, 0x86, 0x48, 0xce, 0x3d, 0x02, 0x01, 0x06, 0x08,
        0x2a, 0x86, 0x48, 0xce, 0x3d, 0x03, 0x01, 0x07, 0x03, 0x42, 0x00,
    ];
    let mut spki: Vec<u8> = Vec::new();
    extend(&mut spki, prefix.as_slice());
    extend(&mut spki, point.as_slice());
    assert(prefix@ =~= spki_prefix());
    Ok(b64_encode(spki.as_slice()))
}

/// Encrypt `plaintext` from `sender_d` to the recipient SPKI as a
/// `P-256+AES-GCM` envelope, with the given salt and IV.
pub fn encrypt_v1_p256_envelope(
    sender_d: &[u8],
    sender_spki_b64: &str,
    recipient_spki_b64: &str,
    plaintext: &str,
    salt: [u8; 16],
    iv: [u8; 12],
) -> (r: Result<V1Envelope, E2eError>)
    ensures
        match p256_secret_parse(sender_d@) {
            None => r matches Err(e) && e is InvalidKey,
            Some(sk) => match v1_key(sk, recipient_spki_b64@, salt@) {
                None => r matches Err(e) && e is InvalidKey,
                Some(k) => if plaintext.spec_bytes().len() <= 0x10_0000_0000 {
                    r matches Ok(env) && env.ct matches Some(c)
                        && c@ == base64_of(aes_gcm_sealed(k, iv@, Seq::empty(), plaintext.spec_bytes()))
                } else {
                    r matches Err(e) && e is DecryptFailed
                },
            },
        },
        r matches Ok(env) ==> {
            &&& env.v == 1
            &&& env.alg@ == "P-256+AES-GCM"@
            &&& env.spk matches Some(s) && s@ == sender_spki_b64@
            &&& env.rpk matches Some(s) && s@ == recipient_spki_b64@
            &&& env.salt matches Some(s) && base64_decoded(s@) == Some(salt@)
            &&& env.iv matches Some(s) && base64_decoded(s@) == Some(iv@)
            &&& env.wraps is None
            &&& p256_secret_parse(sender_d@) matches Some(sk)
            &&& v1_key(sk, recipient_spki_b64@, salt@) matches Some(k)
            &&& env.ct matches Some(c) && base64_decoded(c@) matches Some(ct)
                && aes_gcm_opened(k, iv@, Seq::empty(), ct) == Some(plaintext.spec_bytes())
        },
{
    let secret = match p256_secret(sender_d) {
        Ok(s) => s,
        Err(msg) => return Err(E2eError::InvalidKey(msg)),
    };
    let key = derive_v1_aes_key(&secret, recipient_spki_b64, salt.as_slice())?;
    let empty: [u8; 0] = [];
    assert(empty@ =~= Seq::<u8>::empty());
    let ct = match aes_gcm_seal(&key, &iv, empty.as_slice(), plaintext.as_bytes()) {
        Some(c) => c,
        None => return Err(E2eError::DecryptFailed),
    };
    Ok(V1Envelope {
        v: 1,
        alg: "P-256+AES-GCM".to_owned(),
        spk: Some(sender_spki_b64.to_owned()),
        rpk: Some(recipient_spki_b64.to_owned()),
        iv: Some(b64_encode(&iv)),
        ct: Some(b64_encode(ct.as_slice())),
        salt: Some(b64_encode(&salt)),
        wraps: None,
    })
}

/// A `P-256+AES-GCM` envelope made for a recipient decrypts, with the
/// recipient's secret, to the text that was sent (P-256 ECDH agreeing
/// between the two parties' keys).
pub proof fn law_v1_p256_roundtrip(
    sender_d: Seq<u8>,
    recipient_d: Seq<u8>,
    recipient_spki: Seq<char>,
    my_spki: Seq<char>,
    plaintext: Seq<char>,
    salt: Seq<u8>,
    iv: Seq<u8>,
    env: V1Envelope,
)
    requires
        env.v == 1,
        env.alg@ == "P-256+AES-GCM"@,
        env.spk matches Some(s) && p256_secret_parse(recipient_d) matches Some(rk)
            && v1_key(rk, s@, salt) == v1_key(p256_secret_parse(sender_d).unwrap(), recipient_spki, salt),
        env.salt matches Some(s) && base64_decoded(s@) == Some(salt),
        env.iv matches Some(s) && base64_decoded(s@) == Some(iv),
        iv.len() == 12,
        p256_secret_parse(sender_d) is Some,
        v1_key(p256_secret_parse(sender_d).unwrap(), recipient_spki, salt) is Some,
        env.ct matches Some(c) && base64_decoded(c@) matches Some(ct)
            && aes_gcm_opened(v1_key(p256_secret_parse(sender_d).unwrap(), recipient_spki, salt).unwrap(), iv,
                Seq::empty(), ct) == Some(vstd::utf8::encode_utf8(plaintext)),
    ensures
        v1_decrypt_spec(recipient_d, my_spki, env) == Ok::<Seq<u8>, V1Fault>(vstd::utf8::encode_utf8(plaintext)),
{
    reveal_strlit("MK+AES-GCM");
    reveal_strlit("P-256+AES-GCM");
    assert("MK+AES-GCM"@.len() != "P-256+AES-GCM"@.len());
}

/// A wrap addressed to `my` that leads the list also leads the wraps tried
/// first.
proof fn lemma_first_wrap_mine(l: Seq<V1WrapView>, my: Seq<char>)
    requires
        l.len() > 0,
        l[0].rpk == my,
    ensures
        wraps_in_order(l, my, true).len() > 0,
        wraps_in_order(l, my, true)[0] == l[0],
    decreases l.len(),
{
    let rest = wraps_in_order(l.drop_last(), my, true);
    let tail: Seq<V1WrapView> = if (l.last().rpk == my) == true { seq![l.last()] } else { Seq::empty() };
    assert(wraps_in_order(l, my, true) == rest + tail);
    if l.len() > 1 {
        assert(l.drop_last()[0] == l[0]);
        lemma_first_wrap_mine(l.drop_last(), my);
        assert((rest + tail)[0] == rest[0]);
    } else {
        assert(rest.len() == 0);
        assert(l.last() == l[0]);
        assert((rest + tail)[0] == tail[0]);
    }
}

/// A multi-key (`MK+AES-GCM`) envelope decrypts to the text that was sent:
/// when its first wrap is addressed to my SPKI and seals the 32-byte message
/// key under the key the sender derives from its secret and my SPKI, which
/// my secret derives from the sender's key named in the wrap (P-256 ECDH
/// agreement), and the body is sealed under that message key.
pub proof fn law_v1_mk_roundtrip(
    sender_d: Seq<u8>,
    my_d: Seq<u8>,
    my_spki: Seq<char>,
    env: V1Envelope,
    salt: Seq<u8>,
    wrap_iv: Seq<u8>,
    wrap_ct: Seq<u8>,
    mk: Seq<u8>,
    iv: Seq<u8>,
    ct: Seq<u8>,
    plaintext: Seq<u8>,
)
    requires
        env.v == 1,
        env.alg@ == "MK+AES-GCM"@,
        env.wraps matches Some(ws) && ws@.len() > 0 && ws@[0].rpk@ == my_spki && {
            let w = ws@[0];
            &&& base64_decoded(w.salt@) == Some(salt)
            &&& base64_decoded(w.iv@) == Some(wrap_iv)
            &&& base64_decoded(w.ct@) == Some(wrap_ct)
            &&& p256_secret_parse(sender_d) matches Some(ssk)
            &&& p256_secret_parse(my_d) matches Some(msk)
            &&& v1_key(ssk, my_spki, salt) matches Some(wk)
            &&& v1_key(msk, w.spk@, salt) == Some(wk)
            &&& aes_gcm_opened(wk, wrap_iv, Seq::empty(), wrap_ct) == Some(mk)
        },
        wrap_iv.len() == 12,
        mk.len() == 32,
        env.iv matches Some(t) && base64_decoded(t@) == Some(iv),
        env.ct matches Some(t) && base64_decoded(t@) == Some(ct),
        iv.len() == 12,
        aes_gcm_opened(mk, iv, Seq::empty(), ct) == Some(plaintext),
    ensures
        v1_decrypt_spec(my_d, my_spki, env) == Ok::<Seq<u8>, V1Fault>(plaintext),
{
    reveal_strlit("MK+AES-GCM");
    let ws = env.wraps.unwrap();
    let l = wrap_views(ws@);
    assert(l[0] == ws@[0]@);
    lemma_first_wrap_mine(l, my_spki);
    let order = wraps_in_order(l, my_spki, true) + wraps_in_order(l, my_spki, false);
    assert(order[0] == l[0]);
    let msk = p256_secret_parse(my_d).unwrap();
    assert(try_wraps(msk, order) == Ok::<Seq<u8>, V1Fault>(mk));
}

/// The envelope JSON bytes of v1 packed content (base64 of the JSON); text
/// that is no base64 is an invalid envelope.
pub fn v1_packed_bytes(packed_content_b64: &str) -> (r: Result<Vec<u8>, E2eError>)
    ensures
        r matches Ok(v) ==> base64_decoded(packed_content_b64@) == Some(v@),
        r is Err <==> base64_decoded(packed_content_b64@) is None,
        r matches Err(e) ==> e is InvalidEnvelope,
{
    match b64_decode(packed_content_b64) {
        Ok(v) => Ok(v),
        Err(d) => Err(E2eError::InvalidEnvelope(d)),
    }
}

} // verus!
