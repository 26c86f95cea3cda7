//! Trusted boundary to the outside crates. Every function here wraps one
//! outside operation; its contract is taken on trust, not proved.
use vstd::prelude::*;

use aes_gcm::aead::{Aead, KeyInit, Payload};
use base64::Engine;
use ed25519_dalek::{Signer, Verifier};
use elliptic_curve::sec1::ToEncodedPoint;
use rand::RngCore;
use sha2::Digest;

verus! {

/// Output of HKDF-SHA256 (RFC 5869, extract then expand) for the given input
/// keying material, salt, info and output length.
pub uninterp spec fn hkdf_sha256_okm(ikm: Seq<u8>, salt: Seq<u8>, info: Seq<u8>, len: nat) -> Seq<u8>;

/// Calls `hkdf::Hkdf::<Sha256>::new(Some(salt), ikm)` and `expand(info, ..)`.
/// Claims: expansion fails exactly when more than 255 * 32 bytes are asked
/// for (RFC 5869 limit, checked by `Hkdf::expand`), and otherwise returns the
/// HKDF output of the requested length.
#[verifier::external_body]
pub(crate) fn hkdf_expand(ikm: &[u8], salt: &[u8], info: &[u8], out_len: usize) -> (r: Option<Vec<u8>>)
    ensures
        r.is_some() <==> out_len <= 255 * 32,
        r matches Some(okm) ==> okm@ == hkdf_sha256_okm(ikm@, salt@, info@, out_len as nat)
            && okm@.len() == out_len,
{
    let hk = hkdf::Hkdf::<sha2::Sha256>::new(Some(salt), ikm);
    let mut okm = vec![0u8; out_len];
    match hk.expand(info, &mut okm) {
        Ok(()) => Some(okm),
        Err(_) => None,
    }
}

} // verus!

verus! {

/// X25519 public key of a 32-byte secret (scalar clamped, times the base point).
pub uninterp spec fn x25519_public_key(secret: Seq<u8>) -> Seq<u8>;

/// X25519 Diffie-Hellman output of a 32-byte secret and a 32-byte public key.
pub uninterp spec fn x25519_shared(secret: Seq<u8>, public: Seq<u8>) -> Seq<u8>;

/// Calls `x25519_dalek::PublicKey::from(&StaticSecret::from(secret))`.
/// Claims: the result is the X25519 public key of `secret`, and (the
/// Diffie-Hellman property shown in the crate's documentation) any other
/// secret reaches the same shared value with this key as `secret` reaches
/// with that secret's own public key.
#[verifier::external_body]
pub(crate) fn x25519_public(secret: &[u8; 32]) -> (p: [u8; 32])
    ensures
        p@ == x25519_public_key(secret@),
        forall|other: Seq<u8>| other.len() == 32 ==>
            #[trigger] x25519_shared(other, p@) == x25519_shared(secret@, x25519_public_key(other)),
{
    let s = x25519_dalek::StaticSecret::from(*secret);
    x25519_dalek::PublicKey::from(&s).to_bytes()
}

/// Calls `StaticSecret::from(secret).diffie_hellman(&PublicKey::from(public))`.
/// Claims: the result is the X25519 shared value of the two keys (32 bytes).
#[verifier::external_body]
pub(crate) fn x25519_dh(secret: &[u8; 32], public: &[u8; 32]) -> (out: [u8; 32])
    ensures
        out@ == x25519_shared(secret@, public@),
{
    let s = x25519_dalek::StaticSecret::from(*secret);
    s.diffie_hellman(&x25519_dalek::PublicKey::from(*public)).to_bytes()
}

/// Calls `rand::rngs::OsRng.fill_bytes` on a buffer of `n` bytes.
/// Claims only the length: the bytes come from the operating system's RNG.
#[verifier::external_body]
pub(crate) fn random_bytes(n: usize) -> (r: Vec<u8>)
    ensures
        r@.len() == n,
{
    let mut out = vec![0u8; n];
    rand::rngs::OsRng.fill_bytes(&mut out);
    out
}

/// The standard base64 digit of a six-bit value.
pub open spec fn base64_digit(v: int) -> char {
    if v < 26 {
        (65 + v) as char
    } else if v < 52 {
        (97 + v - 26) as char
    } else if v < 62 {
        (48 + v - 52) as char
    } else if v == 62 {
        '+'
    } else {
        '/'
    }
}

/// Standard base64 (with padding) of a byte sequence: each group of three
/// bytes gives four digits; a last group of one or two bytes gives two or
/// three digits and `=` up to four.
#[verifier::opaque]
pub open spec fn base64_of(bytes: Seq<u8>) -> Seq<char>
    decreases bytes.len(),
{
    if bytes.len() == 0 {
        Seq::empty()
    } else if bytes.len() == 1 {
        let x = bytes[0] as int;
        seq![base64_digit(x / 4), base64_digit((x % 4) * 16), '=', '=']
    } else if bytes.len() == 2 {
        let x = bytes[0] as int;
        let y = bytes[1] as int;
        seq![base64_digit(x / 4), base64_digit((x % 4) * 16 + y / 16), base64_digit((y % 16) * 4), '=']
    } else {
        let x = bytes[0] as int;
        let y = bytes[1] as int;
        let z = bytes[2] as int;
        seq![base64_digit(x / 4), base64_digit((x % 4) * 16 + y / 16), base64_digit((y % 16) * 4 + z / 64),
            base64_digit(z % 64)] + base64_of(bytes.subrange(3, bytes.len() as int))
    }
}

/// Standard base64 decoding (canonical padding required) of a text, if valid.
pub uninterp spec fn base64_decoded(text: Seq<char>) -> Option<Seq<u8>>;

/// Calls `base64::engine::general_purpose::STANDARD.encode`.
/// Claims: the result is the standard base64 text of `bytes`, and decoding
/// it with the same engine gives `bytes` back (the engine's round-trip
/// guarantee).
#[verifier::external_body]
pub(crate) fn b64_encode(bytes: &[u8]) -> (s: String)
    ensures
        s@ == base64_of(bytes@),
        base64_decoded(s@) == Some(bytes@),
{
    base64::engine::general_purpose::STANDARD.encode(bytes)
}

/// Calls `base64::engine::general_purpose::STANDARD.decode`.
/// Claims: the result is the decoding of `text`, an error exactly when the
/// engine rejects it; the error carries the engine's message, of which
/// nothing is stated.
#[verifier::external_body]
pub(crate) fn b64_decode(text: &str) -> (r: Result<Vec<u8>, String>)
    ensures
        match r {
            Ok(v) => base64_decoded(text@) == Some(v@),
            Err(_) => base64_decoded(text@).is_none(),
        },
{
    base64::engine::general_purpose::STANDARD.decode(text).map_err(|e| e.to_string())
}

/// AES-256-GCM ciphertext (with the 16-byte tag appended).
pub uninterp spec fn aes_gcm_sealed(key: Seq<u8>, nonce: Seq<u8>, aad: Seq<u8>, plaintext: Seq<u8>) -> Seq<u8>;

/// AES-256-GCM decryption: the plaintext when the tag verifies, else `None`.
pub uninterp spec fn aes_gcm_opened(key: Seq<u8>, nonce: Seq<u8>, aad: Seq<u8>, ciphertext: Seq<u8>) -> Option<Seq<u8>>;

/// Calls `aes_gcm::Aes256Gcm::new_from_slice(key)` and `encrypt(nonce, Payload { msg, aad })`.
/// Claims: encryption fails exactly when the plaintext or the associated
/// data exceeds 2^36 bytes (the crate's `P_MAX` / `A_MAX` checks); otherwise
/// the ciphertext is 16 bytes longer than the plaintext and decrypting it
/// with the same key, nonce and associated data gives the plaintext back.
#[verifier::external_body]
pub(crate) fn aes_gcm_seal(key: &[u8; 32], nonce: &[u8; 12], aad: &[u8], plaintext: &[u8]) -> (r: Option<Vec<u8>>)
    ensures
        r.is_some() <==> (plaintext@.len() <= 0x10_0000_0000 && aad@.len() <= 0x10_0000_0000),
        r matches Some(c) ==> c@ == aes_gcm_sealed(key@, nonce@, aad@, plaintext@)
            && c@.len() == plaintext@.len() + 16
            && aes_gcm_opened(key@, nonce@, aad@, c@) == Some(plaintext@),
{
    let cipher = aes_gcm::Aes256Gcm::new_from_slice(key).ok()?;
    cipher.encrypt(aes_gcm::Nonce::from_slice(nonce), Payload { msg: plaintext, aad }).ok()
}

/// Calls `aes_gcm::Aes256Gcm::new_from_slice(key)` and `decrypt(nonce, Payload { msg, aad })`.
/// Claims: the result is the AES-256-GCM decryption of `ciphertext`, `None`
/// when authentication fails.
#[verifier::external_body]
pub(crate) fn aes_gcm_open(key: &[u8; 32], nonce: &[u8; 12], aad: &[u8], ciphertext: &[u8]) -> (r: Option<Vec<u8>>)
    ensures
        match r {
            Some(p) => aes_gcm_opened(key@, nonce@, aad@, ciphertext@) == Some(p@),
            None => aes_gcm_opened(key@, nonce@, aad@, ciphertext@).is_none(),
        },
{
    let cipher = aes_gcm::Aes256Gcm::new_from_slice(key).ok()?;
    cipher.decrypt(aes_gcm::Nonce::from_slice(nonce), Payload { msg: ciphertext, aad }).ok()
}

} // verus!

verus! {

/// The UTF-8 encoding of a character.
pub open spec fn utf8_of(c: char) -> Seq<u8> {
    let v = c as int;
    if v < 0x80 {
        seq![v as u8]
    } else if v < 0x800 {
        seq![(0xc0 + v / 64) as u8, (0x80 + v % 64) as u8]
    } else if v < 0x10000 {
        seq![(0xe0 + v / 4096) as u8, (0x80 + (v / 64) % 64) as u8, (0x80 + v % 64) as u8]
    } else {
        seq![(0xf0 + v / 262144) as u8, (0x80 + (v / 4096) % 64) as u8, (0x80 + (v / 64) % 64) as u8,
            (0x80 + v % 64) as u8]
    }
}

/// The lower-case hex digit of a four-bit value, as a byte.
pub open spec fn hex_digit_byte(v: int) -> u8 {
    if v < 10 { (48 + v) as u8 } else { (87 + v) as u8 }
}

/// How `serde_json` writes one character inside a string: `"` and `\`
/// escaped by a backslash, the control characters with a short escape
/// (`\b`, `\t`, `\n`, `\f`, `\r`) or `\u00` and two lower-case hex
/// digits, anything else as its UTF-8 bytes.
pub open spec fn json_escaped(c: char) -> Seq<u8> {
    let v = c as int;
    if v == 0x22 {
        seq![0x5cu8, 0x22u8]
    } else if v == 0x5c {
        seq![0x5cu8, 0x5cu8]
    } else if v == 0x08 {
        seq![0x5cu8, 0x62u8]
    } else if v == 0x09 {
        seq![0x5cu8, 0x74u8]
    } else if v == 0x0a {
        seq![0x5cu8, 0x6eu8]
    } else if v == 0x0c {
        seq![0x5cu8, 0x66u8]
    } else if v == 0x0d {
        seq![0x5cu8, 0x72u8]
    } else if v < 0x20 {
        seq![0x5cu8, 0x75u8, 0x30u8, 0x30u8, hex_digit_byte(v / 16), hex_digit_byte(v % 16)]
    } else {
        utf8_of(c)
    }
}

/// The escaped characters of a string, in order.
pub open spec fn json_escaped_chars(s: Seq<char>) -> Seq<u8>
    decreases s.len(),
{
    if s.len() == 0 {
        Seq::empty()
    } else {
        json_escaped_chars(s.drop_last()) + json_escaped(s.last())
    }
}

/// The JSON text (as UTF-8 bytes) of a string: quoted, with the escapes
/// that `serde_json` writes.
#[verifier::opaque]
pub open spec fn json_string_bytes(s: Seq<char>) -> Seq<u8> {
    seq![0x22u8] + json_escaped_chars(s) + seq![0x22u8]
}

/// Calls `serde_json::to_vec` on a string slice. Serializing a string into
/// a vector cannot fail; claims that the result is the JSON text of `s`.
#[verifier::external_body]
pub(crate) fn json_string(s: &str) -> (r: Vec<u8>)
    ensures
        r@ == json_string_bytes(s@),
{
    serde_json::to_vec(s).unwrap_or_default()
}

/// Calls `String::from_utf8`. Claims, as std documents, that it succeeds
/// exactly on valid UTF-8 and then holds the decoded characters; the error
/// carries the message of `FromUtf8Error`, of which nothing is stated.
#[verifier::external_body]
pub(crate) fn utf8_to_string(bytes: Vec<u8>) -> (r: Result<String, String>)
    ensures
        match r {
            Ok(s) => vstd::utf8::valid_utf8(bytes@) && s@ == vstd::utf8::decode_utf8(bytes@),
            Err(_) => !vstd::utf8::valid_utf8(bytes@),
        },
{
    String::from_utf8(bytes).map_err(|e| e.to_string())
}

} // verus!

verus! {

/// Ed25519 verifying key (compressed point) of a 32-byte signing key.
pub uninterp spec fn ed25519_public_key(secret: Seq<u8>) -> Seq<u8>;

/// Ed25519 signature (RFC 8032, deterministic) of `msg` under `secret`.
pub uninterp spec fn ed25519_signature(secret: Seq<u8>, msg: Seq<u8>) -> Seq<u8>;

/// The 32 bytes decompress to a curve point (`VerifyingKey::from_bytes` accepts them).
pub uninterp spec fn ed25519_key_valid(key: Seq<u8>) -> bool;

/// `VerifyingKey::verify` accepts signature `sig` on `msg` under `key`.
pub uninterp spec fn ed25519_accepts(key: Seq<u8>, msg: Seq<u8>, sig: Seq<u8>) -> bool;

/// Calls `SigningKey::from_bytes(secret).verifying_key().to_bytes()`.
/// Claims: the result is the verifying key of `secret`, which is a valid
/// point.
#[verifier::external_body]
pub(crate) fn ed25519_public(secret: &[u8; 32]) -> (p: [u8; 32])
    ensures
        p@ == ed25519_public_key(secret@),
        ed25519_key_valid(p@),
{
    ed25519_dalek::SigningKey::from_bytes(secret).verifying_key().to_bytes()
}

/// Calls `SigningKey::from_bytes(secret).sign(msg).to_bytes()`.
/// Claims: the result is the signature of `msg` under `secret`, and
/// `verify` with the matching verifying key accepts it.
#[verifier::external_body]
pub(crate) fn ed25519_sign(secret: &[u8; 32], msg: &[u8]) -> (sig: [u8; 64])
    ensures
        sig@ == ed25519_signature(secret@, msg@),
        ed25519_accepts(ed25519_public_key(secret@), msg@, sig@),
{
    ed25519_dalek::SigningKey::from_bytes(secret).sign(msg).to_bytes()
}

/// Calls `VerifyingKey::from_bytes`. Claims: it succeeds exactly on bytes
/// that decompress to a point; the error carries the crate's message.
#[verifier::external_body]
pub(crate) fn ed25519_check_key(key: &[u8; 32]) -> (r: Result<(), String>)
    ensures
        r is Ok <==> ed25519_key_valid(key@),
{
    ed25519_dalek::VerifyingKey::from_bytes(key).map(|_| ()).map_err(|e| e.to_string())
}

/// Calls `ed25519::Signature::from_slice`. Claims: it succeeds exactly on
/// 64 bytes, which it keeps; the error carries the crate's message.
#[verifier::external_body]
pub(crate) fn ed25519_signature_from_slice(bytes: &[u8]) -> (r: Result<[u8; 64], String>)
    ensures
        r is Ok <==> bytes@.len() == 64,
        r matches Ok(s) ==> s@ == bytes@,
{
    ed25519_dalek::Signature::from_slice(bytes).map(|s| s.to_bytes()).map_err(|e| e.to_string())
}

/// Calls `VerifyingKey::from_bytes(key)` and `verify(msg, &Signature::from_bytes(sig))`
/// on a key known to be valid. Claims: the result tells whether the
/// signature is accepted.
#[verifier::external_body]
pub(crate) fn ed25519_verify(key: &[u8; 32], msg: &[u8], sig: &[u8; 64]) -> (ok: bool)
    requires
        ed25519_key_valid(key@),
    ensures
        ok == ed25519_accepts(key@, msg@, sig@),
{
    match ed25519_dalek::VerifyingKey::from_bytes(key) {
        Ok(vk) => vk.verify(msg, &ed25519_dalek::Signature::from_bytes(sig)).is_ok(),
        Err(_) => false,
    }
}

/// SHA-256 digest of a byte sequence (32 bytes).
pub uninterp spec fn sha256_of(data: Seq<u8>) -> Seq<u8>;

/// Calls `sha2::Sha256::digest`. Claims: the result is the SHA-256 digest
/// of `data`.
#[verifier::external_body]
pub(crate) fn sha256(data: &[u8]) -> (d: [u8; 32])
    ensures
        d@ == sha256_of(data@),
{
    sha2::Sha256::digest(data).into()
}

} // verus!

verus! {

/// The 32-byte big-endian P-256 scalar that `SecretKey::from_slice` reads
/// from `d` (shorter inputs are left-padded), if it is a valid secret key.
pub uninterp spec fn p256_secret_parse(d: Seq<u8>) -> Option<Seq<u8>>;

/// `PublicKey::from_sec1_bytes` accepts the SEC1 encoding `point`.
pub uninterp spec fn p256_point_valid(point: Seq<u8>) -> bool;

/// Raw ECDH shared secret (x-coordinate) of a P-256 secret and a point.
pub uninterp spec fn p256_shared(secret: Seq<u8>, point: Seq<u8>) -> Seq<u8>;

/// Uncompressed SEC1 encoding of the public key of a P-256 secret.
pub uninterp spec fn p256_public_point(secret: Seq<u8>) -> Seq<u8>;

/// Calls `p256::SecretKey::from_slice(d)` and `to_bytes`. Claims: the
/// result is the parsed scalar, an error exactly when the key is refused
/// (with the crate's message).
#[verifier::external_body]
pub(crate) fn p256_secret(d: &[u8]) -> (r: Result<[u8; 32], String>)
    ensures
        match r {
            Ok(s) => p256_secret_parse(d@) == Some(s@),
            Err(_) => p256_secret_parse(d@) is None,
        },
{
    p256::SecretKey::from_slice(d).map(|s| s.to_bytes().into()).map_err(|e| e.to_string())
}

/// Calls `p256::PublicKey::from_sec1_bytes`. Claims: it succeeds exactly
/// on valid encodings; the error carries the crate's message.
#[verifier::external_body]
pub(crate) fn p256_check_point(point: &[u8]) -> (r: Result<(), String>)
    ensures
        r is Ok <==> p256_point_valid(point@),
{
    p256::PublicKey::from_sec1_bytes(point).map(|_| ()).map_err(|e| e.to_string())
}

/// Calls `p256::ecdh::diffie_hellman` on a parsed secret and a valid point
/// and returns `raw_secret_bytes`. Claims: the result is their shared
/// secret.
#[verifier::external_body]
pub(crate) fn p256_ecdh(secret: &[u8; 32], point: &[u8]) -> (r: [u8; 32])
    requires
        p256_point_valid(point@),
        exists|d: Seq<u8>| p256_secret_parse(d) == Some(secret@),
    ensures
        r@ == p256_shared(secret@, point@),
{
    let s = p256::SecretKey::from_slice(secret).unwrap();
    let p = p256::PublicKey::from_sec1_bytes(point).unwrap();
    let shared = p256::ecdh::diffie_hellman(s.to_nonzero_scalar(), p.as_affine());
    let mut out = [0u8; 32];
    out.copy_from_slice(shared.raw_secret_bytes().as_slice());
    out
}

/// Calls `public_key().to_encoded_point(false)` on a parsed P-256 secret.
/// Claims: the result is its uncompressed public point (65 bytes).
#[verifier::external_body]
pub(crate) fn p256_public(secret: &[u8; 32]) -> (r: Vec<u8>)
    requires
        exists|d: Seq<u8>| p256_secret_parse(d) == Some(secret@),
    ensures
        r@ == p256_public_point(secret@),
        r@.len() == 65,
{
    let s = p256::SecretKey::from_slice(secret).unwrap();
    s.public_key().to_encoded_point(false).as_bytes().to_vec()
}

} // verus!

verus! {

/// MD5 digest of a byte sequence (16 bytes).
pub uninterp spec fn md5_of(data: Seq<u8>) -> Seq<u8>;

/// Calls `md5::Md5::digest`. Claims: the result is the MD5 digest of `data`.
#[verifier::external_body]
pub(crate) fn md5(data: &[u8]) -> (d: [u8; 16])
    ensures
        d@ == md5_of(data@),
{
    md5::Md5::digest(data).into()
}

/// `Argon2::default().verify_password(password, &PasswordHash::new(stored))`
/// succeeds: `stored` parses as a PHC string and matches the password.
pub uninterp spec fn argon2_accepts(password: Seq<u8>, stored: Seq<char>) -> bool;

/// Calls `PasswordHash::new(stored)` and `Argon2::default().verify_password`.
/// Claims: the result tells whether the password matches the PHC string
/// (`false` when it does not parse).
#[verifier::external_body]
pub(crate) fn argon2_verify(password: &[u8], stored: &str) -> (ok: bool)
    ensures
        ok == argon2_accepts(password@, stored@),
{
    match argon2::PasswordHash::new(stored) {
        Ok(parsed) => argon2::PasswordVerifier::verify_password(&argon2::Argon2::default(), password, &parsed).is_ok(),
        Err(_) => false,
    }
}

/// Calls `SaltString::generate(&mut OsRng)` and
/// `Argon2::default().hash_password(password, &salt)`, rendered as a PHC
/// string. Claims: hashing succeeds whenever the password is at most
/// `argon2::MAX_PWD_LEN` (2^32 - 1) bytes, the only input the default
/// parameters with a 16-byte salt refuse; and, of every outcome (the salt is
/// random), a hash is an Argon2id PHC string (its bytes start with
/// `$argon2id$`) that verifies the password.
#[verifier::external_body]
pub(crate) fn argon2_hash(password: &[u8]) -> (r: Option<String>)
    ensures
        password@.len() <= 0xFFFF_FFFF ==> r is Some,
        r matches Some(h) ==> vstd::utf8::encode_utf8(h@).len() >= 10
            && vstd::utf8::encode_utf8(h@).subrange(0, 10) == seq![36u8, 97, 114, 103, 111, 110, 50, 105, 100, 36]
            && argon2_accepts(password@, h@),
{
    let salt = argon2::password_hash::SaltString::generate(&mut argon2::password_hash::rand_core::OsRng);
    argon2::PasswordHasher::hash_password(&argon2::Argon2::default(), password, &salt).ok().map(|h| h.to_string())
}

} // verus!

verus! {

/// Unicode lowercase of a text, as `str::to_lowercase` computes it.
pub uninterp spec fn lowercase_of(s: Seq<char>) -> Seq<char>;

/// Calls `str::to_lowercase`. Claims: the result is the lowercase of `s`.
#[verifier::external_body]
pub(crate) fn lowercase(s: &str) -> (r: String)
    ensures
        r@ == lowercase_of(s@),
{
    s.to_lowercase()
}

} // verus!
