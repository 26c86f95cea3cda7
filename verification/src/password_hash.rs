//! Password hashing and legacy compatibility: Argon2id for new hashes,
//! recognition of legacy `MD5(MD5(plaintext))` hex digests and of
//! plaintext rows, and the verify-then-upgrade flow used at login.
use vstd::prelude::*;

use vstd::string::StringExecFns;

use crate::bytes::str_eq;
use crate::primitives::{argon2_accepts, argon2_hash, argon2_verify, md5, md5_of};
use crate::ratchet::utf8;

verus! {

/// Hashing failed (the underlying message is deliberately not kept).
#[derive(Debug, Clone, Copy, PartialEq, Eq)]
pub struct HashError;

impl HashError {
    /// The message shown for this error.
    pub fn to_string(&self) -> (s: String)
        ensures
            s@ == "failed to hash password"@,
    {
        "failed to hash password".to_owned()
    }
}

/// The bytes of `$argon2id$`.
pub open spec fn argon2id_prefix() -> Seq<u8> {
    seq![36u8, 97, 114, 103, 111, 110, 50, 105, 100, 36]
}

/// The text starts with `$argon2id$` (compared by bytes, as `starts_with`).
pub open spec fn is_argon2id_text(s: Seq<char>) -> bool {
    utf8(s).len() >= 10 && utf8(s).subrange(0, 10) == argon2id_prefix()
}

/// Hash a password into an Argon2id PHC string with a random salt.
pub fn hash(password: &str) -> (r: Result<String, HashError>)
    ensures
        utf8(password@).len() <= 0xFFFF_FFFF ==> r is Ok,
        r matches Ok(h) ==> is_argon2id_text(h@) && argon2_accepts(utf8(password@), h@),
{
    match argon2_hash(password.as_bytes()) {
        Some(h) => Ok(h),
        None => Err(HashError),
    }
}

/// Whether `password` matches an Argon2id PHC string (`false` when
/// `stored` does not parse).
pub fn verify(password: &str, stored: &str) -> (ok: bool)
    ensures
        ok == argon2_accepts(utf8(password@), stored@),
{
    argon2_verify(password.as_bytes(), stored)
}

/// `stored` is an Argon2id PHC string (already migrated).
pub fn looks_like_argon2id(stored: &str) -> (b: bool)
    ensures
        b == is_argon2id_text(stored@),
{
    let s = stored.as_bytes();
    if s.len() < 10 {
        return false;
    }
    let p: [u8; 10] = [36, 97, 114, 103, 111, 110, 50, 105, 100, 36];
    assert(p@ =~= argon2id_prefix());
    let mut i: usize = 0;
    while i < 10
        invariant
            i <= 10,
            s@.len() >= 10,
            s@ == utf8(stored@),
            p@ == argon2id_prefix(),
            forall|j: int| 0 <= j < i ==> s@[j] == p@[j],
        decreases 10 - i,
    {
        if s[i] != p[i] {
            assert(s@.subrange(0, 10)[i as int] != argon2id_prefix()[i as int]);
            return false;
        }
        i = i + 1;
    }
    assert(s@.subrange(0, 10) =~= argon2id_prefix());
    true
}

/// The byte is an ASCII digit or `a`..`f`.
pub open spec fn is_lower_hex_byte(b: u8) -> bool {
    (48 <= b <= 57) || (97 <= b <= 102)
}

/// The text is exactly 32 lowercase hex characters (in bytes).
pub open spec fn is_double_md5_text(s: Seq<char>) -> bool {
    utf8(s).len() == 32 && forall|i: int| 0 <= i < 32 ==> is_lower_hex_byte(#[trigger] utf8(s)[i])
}

/// `stored` looks like a legacy double-MD5 hex digest.
pub fn looks_like_double_md5(stored: &str) -> (b: bool)
    ensures
        b == is_double_md5_text(stored@),
{
    let s = stored.as_bytes();
    if s.len() != 32 {
        return false;
    }
    let mut i: usize = 0;
    while i < 32
        invariant
            i <= 32,
            s@ == utf8(stored@),
            s@.len() == 32,
            forall|j: int| 0 <= j < i ==> is_lower_hex_byte(#[trigger] s@[j]),
        decreases 32 - i,
    {
        let b = s[i];
        if !((b >= 48 && b <= 57) || (b >= 97 && b <= 102)) {
            return false;
        }
        i = i + 1;
    }
    true
}

/// Lowercase hex digit of `n` (below 16).
pub open spec fn hex_digit(n: nat) -> char {
    if n < 10 { digit_of(n) } else if n == 10 { 'a' } else if n == 11 { 'b' } else if n == 12 { 'c' }
    else if n == 13 { 'd' } else if n == 14 { 'e' } else { 'f' }
}

/// Decimal digit character of `n` (below 10).
pub open spec fn digit_of(n: nat) -> char {
    crate::bytes::digit_char(n)
}

/// Lowercase hex text of a byte sequence.
pub open spec fn hex_text(b: Seq<u8>) -> Seq<char>
    decreases b.len(),
{
    if b.len() == 0 {
        Seq::empty()
    } else {
        hex_text(b.drop_last()) + seq![hex_digit((b.last() / 16) as nat), hex_digit((b.last() % 16) as nat)]
    }
}

fn hex_digit_str(n: u8) -> (s: &'static str)
    requires
        n < 16,
    ensures
        s@ == seq![hex_digit(n as nat)],
{
    if n < 10 {
        return crate::bytes::digit_str(n as u64);
    }
    let s = if n == 10 { "a" } else if n == 11 { "b" } else if n == 12 { "c" } else if n == 13 { "d" }
        else if n == 14 { "e" } else { "f" };
    proof {
        reveal_strlit("a");
        reveal_strlit("b");
        reveal_strlit("c");
        reveal_strlit("d");
        reveal_strlit("e");
        reveal_strlit("f");
    }
    s
}

/// Lowercase hex encoding (as `hex::encode` writes it).
pub fn hex_encode(b: &[u8]) -> (s: String)
    ensures
        s@ == hex_text(b@),
{
    let mut out = String::new();
    let mut i: usize = 0;
    while i < b.len()
        invariant
            i <= b@.len(),
            out@ == hex_text(b@.subrange(0, i as int)),
        decreases b@.len() - i,
    {
        let ghost before = out@;
        out.append(hex_digit_str(b[i] / 16));
        out.append(hex_digit_str(b[i] % 16));
        assert(b@.subrange(0, i + 1).drop_last() =~= b@.subrange(0, i as int));
        assert(out@ =~= hex_text(b@.subrange(0, i + 1)));
        i = i + 1;
    }
    assert(b@.subrange(0, b@.len() as int) =~= b@);
    out
}

/// `MD5(MD5(password))` as lowercase hex, the inner digest hex-encoded
/// before the outer MD5.
pub open spec fn double_md5_text(password: Seq<char>) -> Seq<char> {
    hex_text(md5_of(utf8(hex_text(md5_of(utf8(password))))))
}

/// Legacy digest of a password: lowercase hex of `MD5(hex(MD5(password)))`.
pub fn double_md5_hex(password: &str) -> (s: String)
    ensures
        s@ == double_md5_text(password@),
{
    let first = hex_encode(md5(password.as_bytes()).as_slice());
    hex_encode(md5(first.as_str().as_bytes()).as_slice())
}

/// Outcome of [`verify_and_upgrade`].
#[derive(Debug, Clone, PartialEq, Eq)]
pub struct VerifyAndUpgrade {
    /// Whether the password matches the stored value.
    pub matched: bool,
    /// An Argon2id hash to store in place of a legacy value.
    pub upgraded_hash: Option<String>,
}

/// Whether `plaintext` matches `stored`: by Argon2id for PHC strings, by
/// double MD5 for legacy digests, by equality for anything else.
pub open spec fn password_matches(plaintext: Seq<char>, stored: Seq<char>) -> bool {
    if is_argon2id_text(stored) {
        argon2_accepts(utf8(plaintext), stored)
    } else if is_double_md5_text(stored) {
        double_md5_text(plaintext) == stored
    } else {
        stored == plaintext
    }
}

/// Verify a password against a stored value and, on a legacy match, offer
/// an Argon2id hash to store instead.
pub fn verify_and_upgrade(plaintext: &str, stored: &str) -> (r: VerifyAndUpgrade)
    ensures
        r.matched == password_matches(plaintext@, stored@),
        r.upgraded_hash is Some ==> r.matched && !is_argon2id_text(stored@),
        r.matched && !is_argon2id_text(stored@) && utf8(plaintext@).len() <= 0xFFFF_FFFF ==> r.upgraded_hash is Some,
        r.upgraded_hash matches Some(h) ==> is_argon2id_text(h@) && argon2_accepts(utf8(plaintext@), h@),
{
    if looks_like_argon2id(stored) {
        return VerifyAndUpgrade { matched: verify(plaintext, stored), upgraded_hash: None };
    }
    let legacy_match = if looks_like_double_md5(stored) {
        let d = double_md5_hex(plaintext);
        str_eq(d.as_str(), stored)
    } else {
        str_eq(stored, plaintext)
    };
    if legacy_match {
        let upgraded = match hash(plaintext) {
            Ok(h) => Some(h),
            Err(_) => None,
        };
        VerifyAndUpgrade { matched: true, upgraded_hash: upgraded }
    } else {
        VerifyAndUpgrade { matched: false, upgraded_hash: None }
    }
}

/// Submitting a stored legacy digest itself as the password does not
/// authenticate (unless the digest happens to be its own double MD5).
pub proof fn law_stored_digest_is_not_a_password(stored: Seq<char>)
    requires
        is_double_md5_text(stored),
        double_md5_text(stored) != stored,
    ensures
        !password_matches(stored, stored),
{
    lemma_double_md5_not_argon2id(stored);
}

/// A hash offered as an upgrade matches the same password on the next
/// login, through Argon2id, and is not upgraded again.
pub proof fn law_upgrade_verifies(plaintext: Seq<char>, h: Seq<char>)
    requires
        is_argon2id_text(h),
        argon2_accepts(utf8(plaintext), h),
    ensures
        password_matches(plaintext, h),
{
}

proof fn lemma_double_md5_not_argon2id(s: Seq<char>)
    requires
        is_double_md5_text(s),
    ensures
        !is_argon2id_text(s),
{
    if is_argon2id_text(s) {
        assert(utf8(s).subrange(0, 10)[0] == argon2id_prefix()[0]);
        assert(is_lower_hex_byte(utf8(s)[0]));
    }
}

} // verus!
