//! Identity keys: X25519 Diffie-Hellman identity and Ed25519 signing key,
//! their base64 wire form, and the safety number of two identities.
use vstd::prelude::*;

use vstd::string::StringExecFns;
use vstd::string::StringSliceAdditionalSpecFns;

use crate::bytes::{digit_char, extend, to_array32};
use crate::error::{detail, E2eError};
use crate::primitives::{
    b64_decode, b64_encode, base64_decoded, base64_of, ed25519_accepts, ed25519_check_key,
    ed25519_key_valid, ed25519_public, ed25519_public_key, ed25519_sign, ed25519_signature,
    ed25519_signature_from_slice, ed25519_verify, random_bytes, sha256, sha256_of, x25519_public,
    x25519_public_key,
};
use crate::ratchet::utf8;

verus! {

/// The 32-byte X25519 public key carried by a base64 text, if it decodes to
/// exactly 32 bytes.
pub open spec fn x25519_pub_decoded(text: Seq<char>) -> Option<Seq<u8>> {
    match base64_decoded(text) {
        Some(b) => if b.len() == 32 { Some(b) } else { None },
        None => None,
    }
}

/// Long-term identity secrets: X25519 for key agreement, Ed25519 for
/// signing prekeys.
#[derive(Clone)]
pub struct IdentitySecret {
    pub x25519: [u8; 32],
    pub ed25519: [u8; 32],
}

/// Public identity: both public keys in standard base64.
#[derive(Debug, Clone, PartialEq, Eq)]
pub struct IdentityPublic {
    pub identity_dh_pub_b64: String,
    pub identity_sig_pub_b64: String,
}

/// Public part of a signed prekey.
#[derive(Debug, Clone)]
pub struct SignedPreKeyPublic {
    pub key_id: u32,
    pub dh_pub_b64: String,
    pub signature_b64: String,
}

/// Secret part of a signed prekey.
#[derive(Clone)]
pub struct SignedPreKeySecret {
    pub key_id: u32,
    pub secret: [u8; 32],
}

/// The public identity of two identity secrets.
pub open spec fn identity_public_of(x: Seq<u8>, ed: Seq<u8>, p: IdentityPublic) -> bool {
    &&& p.identity_dh_pub_b64@ == base64_of(x25519_public_key(x))
    &&& p.identity_sig_pub_b64@ == base64_of(ed25519_public_key(ed))
}

impl IdentitySecret {
    /// Identity from the given secrets, with its public part.
    pub fn from_secrets(x25519: [u8; 32], ed25519: [u8; 32]) -> (r: (IdentitySecret, IdentityPublic))
        ensures
            r.0.x25519 == x25519,
            r.0.ed25519 == ed25519,
            identity_public_of(x25519@, ed25519@, r.1),
            x25519_pub_decoded(r.1.identity_dh_pub_b64@) == Some(x25519_public_key(x25519@)),
    {
        let secret = IdentitySecret { x25519, ed25519 };
        let public = secret.public_keys();
        (secret, public)
    }

    /// Fresh identity with both secrets drawn from the OS RNG.
    pub fn generate() -> (r: (IdentitySecret, IdentityPublic))
        ensures
            identity_public_of(r.0.x25519@, r.0.ed25519@, r.1),
    {
        let x = random_bytes(32);
        let ed = random_bytes(32);
        Self::from_secrets(to_array32(x.as_slice()), to_array32(ed.as_slice()))
    }

    fn public_keys(&self) -> (p: IdentityPublic)
        ensures
            identity_public_of(self.x25519@, self.ed25519@, p),
            x25519_pub_decoded(p.identity_dh_pub_b64@) == Some(x25519_public_key(self.x25519@)),
    {
        let x_public = x25519_public(&self.x25519);
        let ed_public = ed25519_public(&self.ed25519);
        IdentityPublic { identity_dh_pub_b64: b64_encode(&x_public), identity_sig_pub_b64: b64_encode(&ed_public) }
    }

    /// The public identity.
    pub fn public(&self) -> (r: Result<IdentityPublic, E2eError>)
        ensures
            r matches Ok(p) && identity_public_of(self.x25519@, self.ed25519@, p),
    {
        Ok(self.public_keys())
    }

    /// Signed prekey `key_id` with the given X25519 secret: its public key
    /// signed with the identity's Ed25519 key.
    pub fn signed_prekey_from_secret(&self, key_id: u32, secret: [u8; 32]) -> (r: (SignedPreKeySecret, SignedPreKeyPublic))
        ensures
            r.0.key_id == key_id,
            r.0.secret == secret,
            r.1.key_id == key_id,
            r.1.dh_pub_b64@ == base64_of(x25519_public_key(secret@)),
            r.1.signature_b64@ == base64_of(ed25519_signature(self.ed25519@, x25519_public_key(secret@))),
            base64_decoded(r.1.dh_pub_b64@) == Some(x25519_public_key(secret@)),
            base64_decoded(r.1.signature_b64@) == Some(ed25519_signature(self.ed25519@, x25519_public_key(secret@))),
            ed25519_accepts(ed25519_public_key(self.ed25519@), x25519_public_key(secret@),
                ed25519_signature(self.ed25519@, x25519_public_key(secret@))),
    {
        let public = x25519_public(&secret);
        let sig = ed25519_sign(&self.ed25519, public.as_slice());
        (
            SignedPreKeySecret { key_id, secret },
            SignedPreKeyPublic { key_id, dh_pub_b64: b64_encode(&public), signature_b64: b64_encode(&sig) },
        )
    }

    /// Fresh signed prekey `key_id` with its secret drawn from the OS RNG.
    pub fn generate_signed_prekey(&self, key_id: u32) -> (r: Result<(SignedPreKeySecret, SignedPreKeyPublic), E2eError>)
        ensures
            r matches Ok((sec, public)) && sec.key_id == key_id && public.key_id == key_id
                && public.dh_pub_b64@ == base64_of(x25519_public_key(sec.secret@))
                && public.signature_b64@ == base64_of(ed25519_signature(self.ed25519@, x25519_public_key(sec.secret@))),
    {
        let bytes = random_bytes(32);
        Ok(self.signed_prekey_from_secret(key_id, to_array32(bytes.as_slice())))
    }
}

/// The signed prekey carries a valid Ed25519 signature, by the identity's
/// signing key, on the bytes of its X25519 public key.
pub open spec fn prekey_signed(identity: IdentityPublic, spk: SignedPreKeyPublic) -> bool {
    &&& base64_decoded(identity.identity_sig_pub_b64@) matches Some(vk)
    &&& vk.len() == 32
    &&& ed25519_key_valid(vk)
    &&& base64_decoded(spk.dh_pub_b64@) matches Some(dh)
    &&& base64_decoded(spk.signature_b64@) matches Some(sig)
    &&& sig.len() == 64
    &&& ed25519_accepts(vk, dh, sig)
}

/// Check the signature on a signed prekey.
pub fn verify_signed_prekey(identity: &IdentityPublic, spk: &SignedPreKeyPublic) -> (r: Result<(), E2eError>)
    ensures
        r is Ok <==> prekey_signed(*identity, *spk),
        r matches Err(e) ==> e is InvalidKey,
        ({
            &&& base64_decoded(identity.identity_sig_pub_b64@) matches Some(vk)
            &&& vk.len() == 32
            &&& ed25519_key_valid(vk)
            &&& base64_decoded(spk.dh_pub_b64@) matches Some(dh)
            &&& base64_decoded(spk.signature_b64@) matches Some(sig)
            &&& sig.len() == 64
            &&& !ed25519_accepts(vk, dh, sig)
        }) ==> (r matches Err(E2eError::InvalidKey(m)) && m@ == "signed prekey signature"@),
{
    let vk_bytes = match b64_decode(identity.identity_sig_pub_b64.as_str()) {
        Ok(b) => b,
        Err(msg) => return Err(E2eError::InvalidKey(msg)),
    };
    if vk_bytes.len() != 32 {
        return Err(E2eError::InvalidKey(detail("sig pub len")));
    }
    let vk = to_array32(vk_bytes.as_slice());
    match ed25519_check_key(&vk) {
        Ok(()) => {},
        Err(msg) => return Err(E2eError::InvalidKey(msg)),
    }
    let dh = match b64_decode(spk.dh_pub_b64.as_str()) {
        Ok(b) => b,
        Err(msg) => return Err(E2eError::InvalidKey(msg)),
    };
    let sig_bytes = match b64_decode(spk.signature_b64.as_str()) {
        Ok(b) => b,
        Err(msg) => return Err(E2eError::InvalidKey(msg)),
    };
    let sig = match ed25519_signature_from_slice(sig_bytes.as_slice()) {
        Ok(s) => s,
        Err(msg) => return Err(E2eError::InvalidKey(msg)),
    };
    if ed25519_verify(&vk, dh.as_slice(), &sig) {
        Ok(())
    } else {
        Err(E2eError::InvalidKey(detail("signed prekey signature")))
    }
}

/// A signed prekey made by an identity verifies under that identity's
/// public keys (given the base64 round trip of the public signing key).
pub proof fn law_signed_prekey_verifies(ed: Seq<u8>, x: Seq<u8>, identity: IdentityPublic, spk: SignedPreKeyPublic, secret: Seq<u8>)
    requires
        identity.identity_sig_pub_b64@ == base64_of(ed25519_public_key(ed)),
        base64_decoded(identity.identity_sig_pub_b64@) == Some(ed25519_public_key(ed)),
        ed25519_public_key(ed).len() == 32,
        ed25519_key_valid(ed25519_public_key(ed)),
        base64_decoded(spk.dh_pub_b64@) == Some(x25519_public_key(secret)),
        base64_decoded(spk.signature_b64@) == Some(ed25519_signature(ed, x25519_public_key(secret))),
        ed25519_signature(ed, x25519_public_key(secret)).len() == 64,
        ed25519_accepts(ed25519_public_key(ed), x25519_public_key(secret), ed25519_signature(ed, x25519_public_key(secret))),
    ensures
        prekey_signed(identity, spk),
{
}

/// Decode a raw 32-byte X25519 secret.
pub fn decode_x25519_secret(bytes: &[u8]) -> (r: Result<[u8; 32], E2eError>)
    ensures
        bytes@.len() == 32 ==> (r matches Ok(k) && k@ == bytes@),
        bytes@.len() != 32 ==> (r matches Err(E2eError::InvalidKey(m)) && m@ == "x25519 secret len"@),
{
    if bytes.len() != 32 {
        return Err(E2eError::InvalidKey(detail("x25519 secret len")));
    }
    Ok(to_array32(bytes))
}

/// Decode a base64 X25519 public key.
pub fn decode_x25519_pub(b64: &str) -> (r: Result<[u8; 32], E2eError>)
    ensures
        match base64_decoded(b64@) {
            None => r matches Err(e) && e is InvalidKey,
            Some(b) => if b.len() == 32 {
                r matches Ok(k) && k@ == b
            } else {
                r matches Err(E2eError::InvalidKey(m)) && m@ == "x25519 pub len"@
            },
        },
{
    let bytes = match b64_decode(b64) {
        Ok(b) => b,
        Err(msg) => return Err(E2eError::InvalidKey(msg)),
    };
    if bytes.len() != 32 {
        return Err(E2eError::InvalidKey(detail("x25519 pub len")));
    }
    Ok(crate::bytes::to_array32(bytes.as_slice()))
}

} // verus!

verus! {

/// Lexicographic order of byte sequences (the order of `str`).
pub open spec fn seq_le(a: Seq<u8>, b: Seq<u8>) -> bool
    decreases a.len(),
{
    if a.len() == 0 {
        true
    } else if b.len() == 0 {
        false
    } else if a[0] != b[0] {
        a[0] < b[0]
    } else {
        seq_le(a.drop_first(), b.drop_first())
    }
}

/// `a <= b` for texts, comparing their UTF-8 bytes.
pub fn str_le(a: &str, b: &str) -> (r: bool)
    ensures
        r == seq_le(utf8(a@), utf8(b@)),
{
    let x = a.as_bytes();
    let y = b.as_bytes();
    let mut i: usize = 0;
    assert(x@.subrange(0, x@.len() as int) =~= x@);
    assert(y@.subrange(0, y@.len() as int) =~= y@);
    while i < x.len() && i < y.len()
        invariant
            i <= x@.len(),
            i <= y@.len(),
            x@ == utf8(a@),
            y@ == utf8(b@),
            seq_le(x@, y@) == seq_le(x@.subrange(i as int, x@.len() as int), y@.subrange(i as int, y@.len() as int)),
        decreases x@.len() - i,
    {
        let ghost xs = x@.subrange(i as int, x@.len() as int);
        let ghost ys = y@.subrange(i as int, y@.len() as int);
        if x[i] != y[i] {
            assert(xs[0] == x@[i as int] && ys[0] == y@[i as int]);
            return x[i] < y[i];
        }
        assert(xs.drop_first() =~= x@.subrange(i + 1, x@.len() as int));
        assert(ys.drop_first() =~= y@.subrange(i + 1, y@.len() as int));
        i = i + 1;
    }
    i == x.len()
}

proof fn lemma_seq_le_total(a: Seq<u8>, b: Seq<u8>)
    ensures
        seq_le(a, b) || seq_le(b, a),
        seq_le(a, b) && seq_le(b, a) ==> a == b,
    decreases a.len(),
{
    if a.len() > 0 && b.len() > 0 && a[0] == b[0] {
        lemma_seq_le_total(a.drop_first(), b.drop_first());
        if a.drop_first() == b.drop_first() {
            assert(a =~= seq![a[0]] + a.drop_first());
            assert(b =~= seq![b[0]] + b.drop_first());
        }
    }
    if a.len() == 0 && b.len() == 0 {
        assert(a =~= b);
    }
}

/// Five decimal digits of `n` (zero-padded).
pub open spec fn five_digits(n: nat) -> Seq<char> {
    seq![
        digit_char((n / 10000) % 10),
        digit_char((n / 1000) % 10),
        digit_char((n / 100) % 10),
        digit_char((n / 10) % 10),
        digit_char(n % 10),
    ]
}

/// Group `i` of a safety number: two digest bytes read big-endian, modulo 100000.
pub open spec fn safety_group(d: Seq<u8>, i: int) -> nat {
    ((d[2 * i] * 256 + d[2 * i + 1]) % 100000) as nat
}

/// The first `k` groups, separated by single spaces.
pub open spec fn safety_groups(d: Seq<u8>, k: nat) -> Seq<char>
    decreases k,
{
    if k == 0 {
        Seq::empty()
    } else if k == 1 {
        five_digits(safety_group(d, 0))
    } else {
        safety_groups(d, (k - 1) as nat) + seq![' '] + five_digits(safety_group(d, k - 1))
    }
}

/// Hash input of the safety number of two identities, the one whose DH key
/// text sorts first (`lo`) leading.
pub open spec fn safety_input(lo: IdentityPublic, hi: IdentityPublic) -> Seq<u8> {
    "VoceChat_Safety_v2".spec_bytes() + utf8(lo.identity_dh_pub_b64@) + utf8(hi.identity_dh_pub_b64@)
        + utf8(lo.identity_sig_pub_b64@) + utf8(hi.identity_sig_pub_b64@)
}

/// The safety number of `a` and `b`: 12 groups of five digits over the
/// SHA-256 of both identities, sorted by DH key text.
pub open spec fn safety_number_spec(a: IdentityPublic, b: IdentityPublic) -> Seq<char> {
    let ordered = seq_le(utf8(a.identity_dh_pub_b64@), utf8(b.identity_dh_pub_b64@));
    let lo = if ordered { a } else { b };
    let hi = if ordered { b } else { a };
    safety_groups(sha256_of(safety_input(lo, hi)), 12)
}

fn push_five_digits(out: &mut String, n: u32)
    requires
        n < 100000,
    ensures
        final(out)@ == old(out)@ + five_digits(n as nat),
{
    let ghost start = out@;
    out.append(crate::bytes::digit_str(((n / 10000) % 10) as u64));
    out.append(crate::bytes::digit_str(((n / 1000) % 10) as u64));
    out.append(crate::bytes::digit_str(((n / 100) % 10) as u64));
    out.append(crate::bytes::digit_str(((n / 10) % 10) as u64));
    out.append(crate::bytes::digit_str((n % 10) as u64));
    assert(out@ =~= start + five_digits(n as nat));
}

/// Numeric safety fingerprint over both parties' identities.
pub fn safety_number(a: &IdentityPublic, b: &IdentityPublic) -> (s: String)
    ensures
        s@ == safety_number_spec(*a, *b),
{
    let ordered = str_le(a.identity_dh_pub_b64.as_str(), b.identity_dh_pub_b64.as_str());
    let lo = if ordered { a } else { b };
    let hi = if ordered { b } else { a };
    let mut input: Vec<u8> = Vec::new();
    extend(&mut input, "VoceChat_Safety_v2".as_bytes());
    extend(&mut input, lo.identity_dh_pub_b64.as_str().as_bytes());
    extend(&mut input, hi.identity_dh_pub_b64.as_str().as_bytes());
    extend(&mut input, lo.identity_sig_pub_b64.as_str().as_bytes());
    extend(&mut input, hi.identity_sig_pub_b64.as_str().as_bytes());
    let digest = sha256(input.as_slice());
    let mut out = String::new();
    let mut i: usize = 0;
    while i < 12
        invariant
            i <= 12,
            digest@.len() == 32,
            out@ == safety_groups(digest@, i as nat),
        decreases 12 - i,
    {
        let n: u32 = ((digest[2 * i] as u32) * 256 + digest[2 * i + 1] as u32) % 100000;
        let ghost before = out@;
        if i > 0 {
            out.append(" ");
            proof {
                reveal_strlit(" ");
            }
        }
        push_five_digits(&mut out, n);
        proof {
            if i == 0 {
                assert(out@ =~= five_digits(safety_group(digest@, 0)));
            } else {
                assert(out@ =~= before + seq![' '] + five_digits(safety_group(digest@, i as int)));
            }
        }
        i = i + 1;
    }
    out
}

/// A decimal digit character.
pub open spec fn is_digit_char(c: char) -> bool {
    '0' <= c && c <= '9'
}

proof fn lemma_safety_groups_shape(d: Seq<u8>, k: nat)
    requires
        k >= 1,
    ensures
        safety_groups(d, k).len() == 6 * k - 1,
        forall|j: int| 0 <= j < 6 * k - 1 ==> (#[trigger] safety_groups(d, k)[j] == ' ' <==> j % 6 == 5),
        forall|j: int| 0 <= j < 6 * k - 1 && j % 6 != 5 ==> is_digit_char(#[trigger] safety_groups(d, k)[j]),
    decreases k,
{
    if k > 1 {
        lemma_safety_groups_shape(d, (k - 1) as nat);
        let prev = safety_groups(d, (k - 1) as nat);
        let s = safety_groups(d, k);
        let f = five_digits(safety_group(d, k - 1));
        assert(s == prev + seq![' '] + f);
        assert forall|j: int| 0 <= j < 6 * k - 1 implies (#[trigger] s[j] == ' ' <==> j % 6 == 5)
            && (j % 6 != 5 ==> is_digit_char(s[j])) by {
            if j < 6 * k - 7 {
                assert(s[j] == prev[j]);
            } else if j == 6 * k - 7 {
                assert(j % 6 == 5) by (nonlinear_arith) requires j == 6 * k - 7, k >= 2;
            } else {
                let t = j - (6 * k - 6);
                assert(0 <= t < 5);
                assert(j % 6 == t) by (nonlinear_arith) requires j == 6 * k - 6 + t, 0 <= t < 5, k >= 2;
                assert(s[j] == f[t]);
            }
        }
    } else {
        assert(safety_groups(d, 1) == five_digits(safety_group(d, 0)));
    }
}

/// A safety number is twelve groups of five decimal digits, each group
/// after the first preceded by a single space: 71 characters.
pub proof fn law_safety_number_format(a: IdentityPublic, b: IdentityPublic)
    ensures
        safety_number_spec(a, b).len() == 71,
        forall|j: int| 0 <= j < 71 ==> (#[trigger] safety_number_spec(a, b)[j] == ' ' <==> j % 6 == 5),
        forall|j: int| 0 <= j < 71 && j % 6 != 5 ==> is_digit_char(#[trigger] safety_number_spec(a, b)[j]),
{
    let ordered = seq_le(utf8(a.identity_dh_pub_b64@), utf8(b.identity_dh_pub_b64@));
    let lo = if ordered { a } else { b };
    let hi = if ordered { b } else { a };
    lemma_safety_groups_shape(sha256_of(safety_input(lo, hi)), 12);
}

/// The safety number does not depend on which party computes it, as long
/// as their DH key texts differ.
pub proof fn law_safety_number_symmetric(a: IdentityPublic, b: IdentityPublic)
    requires
        a.identity_dh_pub_b64@ != b.identity_dh_pub_b64@,
    ensures
        safety_number_spec(a, b) == safety_number_spec(b, a),
{
    lemma_seq_le_total(utf8(a.identity_dh_pub_b64@), utf8(b.identity_dh_pub_b64@));
    vstd::utf8::encode_utf8_decode_utf8(a.identity_dh_pub_b64@);
    vstd::utf8::encode_utf8_decode_utf8(b.identity_dh_pub_b64@);
}

/// The safety number covers both parties: it is the 12 groups of the
/// SHA-256 of the label, the DH key text of the party whose DH key text
/// sorts first, then the other's, then their signing key texts in the same
/// order.
pub proof fn law_safety_number_covers_both(a: IdentityPublic, b: IdentityPublic)
    ensures
        seq_le(utf8(a.identity_dh_pub_b64@), utf8(b.identity_dh_pub_b64@)) ==> safety_number_spec(a, b)
            == safety_groups(sha256_of("VoceChat_Safety_v2".spec_bytes() + utf8(a.identity_dh_pub_b64@)
                + utf8(b.identity_dh_pub_b64@) + utf8(a.identity_sig_pub_b64@) + utf8(b.identity_sig_pub_b64@)), 12),
        !seq_le(utf8(a.identity_dh_pub_b64@), utf8(b.identity_dh_pub_b64@)) ==> safety_number_spec(a, b)
            == safety_groups(sha256_of("VoceChat_Safety_v2".spec_bytes() + utf8(b.identity_dh_pub_b64@)
                + utf8(a.identity_dh_pub_b64@) + utf8(b.identity_sig_pub_b64@) + utf8(a.identity_sig_pub_b64@)), 12),
{
}

} // verus!
