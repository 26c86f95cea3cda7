//! Double Ratchet for direct messages: X25519 DH ratchet, HKDF-SHA256
//! chains and AES-256-GCM message encryption.
//!
//! The state is viewed as a [`RatchetView`]; `encrypt` and `decrypt` are
//! specified step by step by [`spec_encrypt`] and [`spec_decrypt`], which
//! also fix the state left behind when a step fails part way.
use vstd::prelude::*;

use vstd::string::StringSliceAdditionalSpecFns;

use crate::bytes::{bytes_eq, decimal, extend, push_decimal, to_array12};
use crate::error::{detail, E2eError};
use crate::identity::decode_x25519_pub;
use crate::kdf::{chain_okm, hkdf_sha256, kdf_ck, kdf_rk, root_okm};
use crate::primitives::{
    aes_gcm_open, aes_gcm_opened, aes_gcm_seal, aes_gcm_sealed, b64_encode, base64_decoded,
    base64_of, hkdf_sha256_okm, random_bytes, x25519_dh, x25519_public, x25519_public_key,
    x25519_shared,
};
use crate::skipped::{
    find_skipped, insert_skipped, keys_distinct, lemma_lookup, lemma_remove, skipped_map,
    SkippedKey,
};

verus! {

/// Largest number of message keys one step may skip ahead.
pub const MAX_SKIP: u32 = 100;

/// Header sent with each ratchet message.
#[derive(Debug, Clone)]
pub struct RatchetHeader {
    pub dh_pub_b64: String,
    pub pn: u32,
    pub n: u32,
}

/// Mathematical model of a header.
pub struct HeaderView {
    pub dh: Seq<char>,
    pub pn: u32,
    pub n: u32,
}

impl View for RatchetHeader {
    type V = HeaderView;

    open spec fn view(&self) -> HeaderView {
        HeaderView { dh: self.dh_pub_b64@, pn: self.pn, n: self.n }
    }
}

/// Ratchet session state. Keys are held as raw 32-byte values: `dhs` is the
/// X25519 secret of the current sending ratchet key, `dhr` the remote
/// ratchet public key.
#[derive(Clone)]
pub struct RatchetState {
    pub dhs: [u8; 32],
    pub dhr: Option<[u8; 32]>,
    pub rk: [u8; 32],
    pub cks: Option<[u8; 32]>,
    pub ckr: Option<[u8; 32]>,
    pub ns: u32,
    pub nr: u32,
    pub pn: u32,
    pub mkskipped: Vec<SkippedKey>,
}

/// Mathematical model of a ratchet state.
pub struct RatchetView {
    pub dhs: Seq<u8>,
    pub dhr: Option<Seq<u8>>,
    pub rk: Seq<u8>,
    pub cks: Option<Seq<u8>>,
    pub ckr: Option<Seq<u8>>,
    pub ns: u32,
    pub nr: u32,
    pub pn: u32,
    pub skipped: Map<(Seq<char>, u32), Seq<u8>>,
}

/// An optional 32-byte key as an optional byte sequence.
pub open spec fn opt_key(k: Option<[u8; 32]>) -> Option<Seq<u8>> {
    match k {
        Some(a) => Some(a@),
        None => None,
    }
}

impl View for RatchetState {
    type V = RatchetView;

    open spec fn view(&self) -> RatchetView {
        RatchetView {
            dhs: self.dhs@,
            dhr: opt_key(self.dhr),
            rk: self.rk@,
            cks: opt_key(self.cks),
            ckr: opt_key(self.ckr),
            ns: self.ns,
            nr: self.nr,
            pn: self.pn,
            skipped: skipped_map(self.mkskipped@),
        }
    }
}

impl RatchetState {
    /// Well-formedness: the skipped-key list holds each key at most once.
    pub open spec fn wf(&self) -> bool {
        keys_distinct(self.mkskipped@)
    }
}

/// Why a ratchet step failed.
pub enum RatchetFault {
    /// The header key is not valid base64.
    BadEncoding,
    /// The header key does not decode to 32 bytes.
    KeyLength,
    TooManySkipped,
    DhrMissing,
    RecvChainMissing,
    SendChainMissing,
    /// AES-GCM refused the message (authentication or size).
    DecryptFailed,
}

/// The error value that reports `f`.
pub open spec fn fault_error(e: E2eError, f: RatchetFault) -> bool {
    match f {
        RatchetFault::BadEncoding => e is InvalidKey,
        RatchetFault::KeyLength => e matches E2eError::InvalidKey(m) && m@ == "x25519 pub len"@,
        RatchetFault::TooManySkipped => e matches E2eError::Ratchet(m) && m@ == "too many skipped keys"@,
        RatchetFault::DhrMissing => e matches E2eError::Ratchet(m) && m@ == "dhr missing while skipping"@,
        RatchetFault::RecvChainMissing => e matches E2eError::Ratchet(m) && m@ == "recv chain missing"@,
        RatchetFault::SendChainMissing => e matches E2eError::Ratchet(m) && m@ == "sending chain missing"@,
        RatchetFault::DecryptFailed => e is DecryptFailed,
    }
}

/// `r` reports the outcome `o`.
pub open spec fn reports<T: View>(r: Result<T, E2eError>, o: Result<T::V, RatchetFault>) -> bool {
    match (r, o) {
        (Ok(v), Ok(w)) => v@ == w,
        (Err(e), Err(f)) => fault_error(e, f),
        _ => false,
    }
}

/// Message key derived from chain key `ck`.
pub open spec fn chain_mk(ck: Seq<u8>) -> Seq<u8> {
    chain_okm(ck).subrange(0, 32)
}

/// Chain key that follows `ck`.
pub open spec fn chain_next(ck: Seq<u8>) -> Seq<u8> {
    chain_okm(ck).subrange(32, 64)
}

/// Root key after mixing in DH output `dh`.
pub open spec fn root_next(rk: Seq<u8>, dh: Seq<u8>) -> Seq<u8> {
    root_okm(rk, dh).subrange(0, 32)
}

/// Chain key produced when mixing DH output `dh` into root key `rk`.
pub open spec fn root_chain(rk: Seq<u8>, dh: Seq<u8>) -> Seq<u8> {
    root_okm(rk, dh).subrange(32, 64)
}

/// Nonce of the message encrypted under message key `mk`.
pub open spec fn msg_nonce(mk: Seq<u8>) -> Seq<u8> {
    hkdf_sha256_okm(mk, Seq::empty(), "VoceChat_DR_Nonce_v2".spec_bytes(), 12)
}

/// Associated data bound to a message: `v2|{dh_pub_b64}|{pn}|{n}`.
pub open spec fn header_aad(h: HeaderView) -> Seq<u8> {
    "v2|".spec_bytes() + utf8(h.dh) + "|".spec_bytes() + decimal(h.pn as nat)
        + "|".spec_bytes() + decimal(h.n as nat)
}

/// UTF-8 bytes of a text.
pub open spec fn utf8(t: Seq<char>) -> Seq<u8> {
    vstd::utf8::encode_utf8(t)
}

/// Decryption of `ct` under message key `mk` for header `h`.
pub open spec fn spec_open(mk: Seq<u8>, ct: Seq<u8>, h: HeaderView) -> Result<Seq<u8>, RatchetFault> {
    match aes_gcm_opened(mk, msg_nonce(mk), header_aad(h), ct) {
        Some(p) => Ok(p),
        None => Err(RatchetFault::DecryptFailed),
    }
}

/// Encryption of `pt` under message key `mk` for header `h`.
pub open spec fn spec_seal(mk: Seq<u8>, pt: Seq<u8>, h: HeaderView) -> Result<Seq<u8>, RatchetFault> {
    if pt.len() <= 0x10_0000_0000 && header_aad(h).len() <= 0x10_0000_0000 {
        Ok(aes_gcm_sealed(mk, msg_nonce(mk), header_aad(h), pt))
    } else {
        Err(RatchetFault::DecryptFailed)
    }
}

/// Derive and store skipped message keys until the receive counter reaches
/// `until` (the receive chain must be present).
pub open spec fn skip_loop(s: RatchetView, until: u32) -> (RatchetView, Result<(), RatchetFault>)
    decreases until - s.nr,
{
    if s.nr >= until || s.ckr is None {
        (s, Ok(()))
    } else {
        let ck = s.ckr.unwrap();
        let s1 = RatchetView { ckr: Some(chain_next(ck)), ..s };
        match s.dhr {
            None => (s1, Err(RatchetFault::DhrMissing)),
            Some(d) => skip_loop(
                RatchetView {
                    skipped: s.skipped.insert((base64_of(d), s.nr), chain_mk(ck)),
                    nr: (s.nr + 1) as u32,
                    ..s1
                },
                until,
            ),
        }
    }
}

/// `nr + MAX_SKIP`, saturating at `u32::MAX`.
pub open spec fn skip_limit(nr: u32) -> int {
    if nr + 100 > u32::MAX { u32::MAX as int } else { nr + 100 }
}

/// Skip message keys up to `until`, refusing to skip more than `MAX_SKIP`.
pub open spec fn spec_skip(s: RatchetView, until: u32) -> (RatchetView, Result<(), RatchetFault>) {
    if skip_limit(s.nr) < until {
        (s, Err(RatchetFault::TooManySkipped))
    } else {
        skip_loop(s, until)
    }
}

/// DH ratchet step to remote key `remote`, with `fresh` as the new sending
/// ratchet secret.
pub open spec fn spec_dh_ratchet(s: RatchetView, remote: Seq<u8>, fresh: Seq<u8>) -> RatchetView {
    let dh1 = x25519_shared(s.dhs, remote);
    let rk1 = root_next(s.rk, dh1);
    let dh2 = x25519_shared(fresh, remote);
    RatchetView {
        dhs: fresh,
        dhr: Some(remote),
        rk: root_next(rk1, dh2),
        cks: Some(root_chain(rk1, dh2)),
        ckr: Some(root_chain(s.rk, dh1)),
        ns: 0,
        nr: 0,
        pn: s.ns,
        skipped: s.skipped,
    }
}

/// The part of a decryption that follows the skipped-key lookup, once the
/// header key has decoded to `remote`.
pub open spec fn decrypt_on_chain(
    s: RatchetView,
    h: HeaderView,
    ct: Seq<u8>,
    remote: Seq<u8>,
    fresh: Seq<u8>,
) -> (RatchetView, Result<Seq<u8>, RatchetFault>) {
    let (s1, r1) = if s.dhr != Some(remote) {
        let (sa, ra) = spec_skip(s, h.pn);
        match ra {
            Err(f) => (sa, Err(f)),
            Ok(_) => (spec_dh_ratchet(sa, remote, fresh), Ok(())),
        }
    } else {
        (s, Ok(()))
    };
    match r1 {
        Err(f) => (s1, Err(f)),
        Ok(_) => {
            let (s2, r2) = spec_skip(s1, h.n);
            match r2 {
                Err(f) => (s2, Err(f)),
                Ok(_) => match s2.ckr {
                    None => (s2, Err(RatchetFault::RecvChainMissing)),
                    Some(ck) => (
                        RatchetView { ckr: Some(chain_next(ck)), nr: (s2.nr + 1) as u32, ..s2 },
                        spec_open(chain_mk(ck), ct, h),
                    ),
                },
            }
        },
    }
}

/// Receive counter just before the final increment of a decryption that
/// reaches it (used to rule out counter overflow).
pub open spec fn recv_counter_exhausted(s: RatchetView, h: HeaderView) -> bool {
    &&& !s.skipped.contains_key((h.dh, h.n))
    &&& base64_decoded(h.dh) matches Some(remote)
    &&& s.dhr == Some(remote)
    &&& spec_skip(s, h.n).1 is Ok
    &&& spec_skip(s, h.n).0.ckr is Some
    &&& spec_skip(s, h.n).0.nr == u32::MAX
}

/// One decryption step on state `s`: the state left behind and the result.
/// `fresh` is the sending ratchet secret taken if a DH ratchet step occurs.
pub open spec fn spec_decrypt(
    s: RatchetView,
    h: HeaderView,
    ct: Seq<u8>,
    fresh: Seq<u8>,
) -> (RatchetView, Result<Seq<u8>, RatchetFault>) {
    let key = (h.dh, h.n);
    if s.skipped.contains_key(key) {
        (RatchetView { skipped: s.skipped.remove(key), ..s }, spec_open(s.skipped[key], ct, h))
    } else {
        match base64_decoded(h.dh) {
            None => (s, Err(RatchetFault::BadEncoding)),
            Some(remote) => if remote.len() != 32 {
                (s, Err(RatchetFault::KeyLength))
            } else {
                decrypt_on_chain(s, h, ct, remote, fresh)
            },
        }
    }
}

/// The header of the next message sent from state `s`.
pub open spec fn next_header(s: RatchetView) -> HeaderView {
    HeaderView { dh: base64_of(x25519_public_key(s.dhs)), pn: s.pn, n: s.ns }
}

/// One encryption step: the state left behind, and the header with the
/// ciphertext.
pub open spec fn spec_encrypt(s: RatchetView, pt: Seq<u8>) -> (RatchetView, Result<(HeaderView, Seq<u8>), RatchetFault>) {
    match s.cks {
        None => (s, Err(RatchetFault::SendChainMissing)),
        Some(ck) => (
            RatchetView { cks: Some(chain_next(ck)), ns: (s.ns + 1) as u32, ..s },
            match spec_seal(chain_mk(ck), pt, next_header(s)) {
                Ok(ct) => Ok((next_header(s), ct)),
                Err(f) => Err(f),
            },
        ),
    }
}

/// State of the initiator after X3DH agreed on `sk`, with `dhs` as its first
/// sending ratchet secret and the responder's signed prekey `bob` as the
/// remote ratchet key.
pub open spec fn spec_init_alice(sk: Seq<u8>, bob: Seq<u8>, dhs: Seq<u8>) -> RatchetView {
    let dh = x25519_shared(dhs, bob);
    RatchetView {
        dhs,
        dhr: Some(bob),
        rk: root_next(sk, dh),
        cks: Some(root_chain(sk, dh)),
        ckr: None,
        ns: 0,
        nr: 0,
        pn: 0,
        skipped: Map::empty(),
    }
}

/// State of the responder after X3DH agreed on `sk`; its signed prekey
/// secret is the first ratchet secret.
pub open spec fn spec_init_bob(sk: Seq<u8>, spk: Seq<u8>) -> RatchetView {
    RatchetView {
        dhs: spk,
        dhr: None,
        rk: sk,
        cks: None,
        ckr: None,
        ns: 0,
        nr: 0,
        pn: 0,
        skipped: Map::empty(),
    }
}

/// What the outside primitives guarantee about a message that `encrypt`
/// produced from state `s`: its header key decodes to the sender's ratchet
/// public key, the ciphertext opens under its message key, and X25519
/// agreement holds between the sender's ratchet secret and any other key.
pub open spec fn sent_by(s: RatchetView, pt: Seq<u8>, h: HeaderView, ct: Seq<u8>) -> bool {
    &&& s.cks matches Some(ck)
    &&& base64_decoded(h.dh) == Some(x25519_public_key(s.dhs))
    &&& x25519_public_key(s.dhs).len() == 32
    &&& aes_gcm_opened(chain_mk(ck), msg_nonce(chain_mk(ck)), header_aad(h), ct) == Some(pt)
    &&& forall|o: Seq<u8>|
        o.len() == 32 ==> #[trigger] x25519_shared(o, x25519_public_key(s.dhs)) == x25519_shared(
            s.dhs,
            x25519_public_key(o),
        )
}

/// `r` reports the outcome `o` of a step without a value.
pub open spec fn reports_unit(r: Result<(), E2eError>, o: Result<(), RatchetFault>) -> bool {
    match (r, o) {
        (Ok(_), Ok(_)) => true,
        (Err(e), Err(f)) => fault_error(e, f),
        _ => false,
    }
}

} // verus!

verus! {

/// Associated data of a message: `v2|{dh_pub_b64}|{pn}|{n}` as bytes.
pub fn associated_data(header: &RatchetHeader) -> (r: Vec<u8>)
    ensures
        r@ == header_aad(header@),
{
    let mut out: Vec<u8> = Vec::new();
    extend(&mut out, "v2|".as_bytes());
    extend(&mut out, header.dh_pub_b64.as_str().as_bytes());
    extend(&mut out, "|".as_bytes());
    push_decimal(&mut out, header.pn as u64);
    extend(&mut out, "|".as_bytes());
    push_decimal(&mut out, header.n as u64);
    out
}

/// Nonce for message key `mk`: the first 12 bytes of HKDF(mk, "VoceChat_DR_Nonce_v2").
fn message_nonce(mk: &[u8; 32]) -> (r: Result<[u8; 12], E2eError>)
    ensures
        r matches Ok(n) && n@ == msg_nonce(mk@),
{
    let empty: [u8; 0] = [];
    let okm = hkdf_sha256(mk.as_slice(), empty.as_slice(), "VoceChat_DR_Nonce_v2".as_bytes(), 12)?;
    assert(empty@ =~= Seq::<u8>::empty());
    Ok(to_array12(okm.as_slice()))
}

/// AES-256-GCM encryption of a message under message key `mk`.
fn seal_aes_gcm(mk: &[u8; 32], plaintext: &[u8], header: &RatchetHeader) -> (r: Result<Vec<u8>, E2eError>)
    ensures
        reports(r, spec_seal(mk@, plaintext@, header@)),
        r matches Ok(ct) ==> aes_gcm_opened(mk@, msg_nonce(mk@), header_aad(header@), ct@) == Some(plaintext@),
{
    let nonce = message_nonce(mk)?;
    let aad = associated_data(header);
    match aes_gcm_seal(mk, &nonce, aad.as_slice(), plaintext) {
        Some(ct) => Ok(ct),
        None => Err(E2eError::DecryptFailed),
    }
}

/// AES-256-GCM decryption of a message under message key `mk`.
fn open_aes_gcm(mk: &[u8; 32], ciphertext: &[u8], header: &RatchetHeader) -> (r: Result<Vec<u8>, E2eError>)
    ensures
        reports(r, spec_open(mk@, ciphertext@, header@)),
{
    let nonce = message_nonce(mk)?;
    let aad = associated_data(header);
    match aes_gcm_open(mk, &nonce, aad.as_slice(), ciphertext) {
        Some(pt) => Ok(pt),
        None => Err(E2eError::DecryptFailed),
    }
}

} // verus!

verus! {

proof fn lemma_empty_skipped()
    ensures
        keys_distinct(Seq::<SkippedKey>::empty()),
        skipped_map(Seq::<SkippedKey>::empty()) == Map::<(Seq<char>, u32), Seq<u8>>::empty(),
{
    assert(skipped_map(Seq::<SkippedKey>::empty()) =~= Map::<(Seq<char>, u32), Seq<u8>>::empty());
}

impl RatchetState {
    /// Initiator state with `dhs` as the first sending ratchet secret.
    pub fn init_alice_with_secret(sk: [u8; 32], bob_dh_pub: &[u8; 32], dhs: [u8; 32]) -> (r: Result<Self, E2eError>)
        ensures
            r matches Ok(st) && st.wf() && st@ == spec_init_alice(sk@, bob_dh_pub@, dhs@),
    {
        let dh_out = x25519_dh(&dhs, bob_dh_pub);
        let (rk, cks) = kdf_rk(&sk, &dh_out)?;
        proof {
            lemma_empty_skipped();
        }
        Ok(RatchetState {
            dhs,
            dhr: Some(*bob_dh_pub),
            rk,
            cks: Some(cks),
            ckr: None,
            ns: 0,
            nr: 0,
            pn: 0,
            mkskipped: Vec::new(),
        })
    }

    /// Alice: after X3DH, Bob's signed prekey is the initial remote DH key;
    /// the first sending ratchet secret is drawn from the OS RNG.
    pub fn init_alice(sk: [u8; 32], bob_dh_pub: &[u8; 32]) -> (r: Result<Self, E2eError>)
        ensures
            r matches Ok(st) && st.wf() && st@ == spec_init_alice(sk@, bob_dh_pub@, st.dhs@),
    {
        let fresh = random_bytes(32);
        let dhs = crate::bytes::to_array32(fresh.as_slice());
        Self::init_alice_with_secret(sk, bob_dh_pub, dhs)
    }

    /// Bob: after X3DH, the signed prekey secret is the first ratchet
    /// secret; Alice's ratchet key arrives in her first header.
    pub fn init_bob(sk: [u8; 32], bob_spk_secret: [u8; 32]) -> (st: Self)
        ensures
            st.wf(),
            st@ == spec_init_bob(sk@, bob_spk_secret@),
    {
        proof {
            lemma_empty_skipped();
        }
        RatchetState {
            dhs: bob_spk_secret,
            dhr: None,
            rk: sk,
            cks: None,
            ckr: None,
            ns: 0,
            nr: 0,
            pn: 0,
            mkskipped: Vec::new(),
        }
    }

    /// Encrypt the next message on the sending chain.
    pub fn encrypt(&mut self, plaintext: &[u8]) -> (r: Result<(RatchetHeader, Vec<u8>), E2eError>)
        requires
            old(self).wf(),
            old(self).ns < u32::MAX,
        ensures
            final(self).wf(),
            final(self)@ == spec_encrypt(old(self)@, plaintext@).0,
            reports(r, spec_encrypt(old(self)@, plaintext@).1),
            r matches Ok((h, ct)) ==> sent_by(old(self)@, plaintext@, h@, ct@),
    {
        let ck = match self.cks {
            Some(c) => c,
            None => return Err(E2eError::Ratchet(detail("sending chain missing"))),
        };
        let (mk, next) = kdf_ck(&ck)?;
        self.cks = Some(next);
        let public = x25519_public(&self.dhs);
        let header = RatchetHeader { dh_pub_b64: b64_encode(&public), pn: self.pn, n: self.ns };
        self.ns = self.ns + 1;
        let ct = seal_aes_gcm(&mk, plaintext, &header)?;
        Ok((header, ct))
    }

    /// Skip message keys on the receiving chain up to `until`.
    fn skip_message_keys(&mut self, until: u32) -> (r: Result<(), E2eError>)
        requires
            old(self).wf(),
        ensures
            final(self).wf(),
            final(self)@ == spec_skip(old(self)@, until).0,
            reports_unit(r, spec_skip(old(self)@, until).1),
    {
        if self.nr.saturating_add(MAX_SKIP) < until {
            return Err(E2eError::Ratchet(detail("too many skipped keys")));
        }
        if self.ckr.is_none() {
            return Ok(());
        }
        let ghost start = self@;
        while self.nr < until
            invariant
                self.wf(),
                self.ckr is Some,
                skip_loop(self@, until) == skip_loop(start, until),
                spec_skip(old(self)@, until) == skip_loop(start, until),
            decreases until - self.nr,
        {
            let ghost before = self@;
            let ck = self.ckr.unwrap();
            let (mk, next) = kdf_ck(&ck)?;
            self.ckr = Some(next);
            let dhr = match self.dhr {
                Some(d) => d,
                None => {
                    assert(skip_loop(before, until) == (self@, Err::<(), RatchetFault>(RatchetFault::DhrMissing)));
                    return Err(E2eError::Ratchet(detail("dhr missing while skipping")));
                },
            };
            let pub_b64 = b64_encode(&dhr);
            insert_skipped(&mut self.mkskipped, pub_b64, self.nr, mk);
            self.nr = self.nr + 1;
        }
        Ok(())
    }

    /// DH ratchet step to the remote key `remote`, taking `fresh` as the new
    /// sending ratchet secret.
    fn dh_ratchet(&mut self, remote: &[u8; 32], fresh: [u8; 32]) -> (r: Result<(), E2eError>)
        requires
            old(self).wf(),
        ensures
            final(self).wf(),
            r is Ok,
            final(self)@ == spec_dh_ratchet(old(self)@, remote@, fresh@),
    {
        self.pn = self.ns;
        self.ns = 0;
        self.nr = 0;
        self.dhr = Some(*remote);
        let dh_out = x25519_dh(&self.dhs, remote);
        let (rk, ckr) = kdf_rk(&self.rk, &dh_out)?;
        self.rk = rk;
        self.ckr = Some(ckr);
        self.dhs = fresh;
        let dh_out2 = x25519_dh(&self.dhs, remote);
        let (rk2, cks) = kdf_rk(&self.rk, &dh_out2)?;
        self.rk = rk2;
        self.cks = Some(cks);
        Ok(())
    }

    /// Look the header's key up among the skipped message keys; if found,
    /// remove it and decrypt with it.
    fn try_skipped(&mut self, header: &RatchetHeader, ciphertext: &[u8]) -> (r: Result<Option<Vec<u8>>, E2eError>)
        requires
            old(self).wf(),
        ensures
            final(self).wf(),
            ({
                let key = (header@.dh, header@.n);
                if old(self)@.skipped.contains_key(key) {
                    &&& final(self)@ == RatchetView { skipped: old(self)@.skipped.remove(key), ..old(self)@ }
                    &&& match spec_open(old(self)@.skipped[key], ciphertext@, header@) {
                        Ok(p) => r matches Ok(Some(v)) && v@ == p,
                        Err(f) => r matches Err(e) && fault_error(e, f),
                    }
                } else {
                    final(self)@ == old(self)@ && r matches Ok(None)
                }
            }),
    {
        match find_skipped(&self.mkskipped, header.dh_pub_b64.as_str(), header.n) {
            Some(i) => {
                proof {
                    lemma_lookup(self.mkskipped@, i as int);
                    lemma_remove(self.mkskipped@, i as int);
                }
                let e = self.mkskipped.remove(i);
                let pt = open_aes_gcm(&e.mk, ciphertext, header)?;
                Ok(Some(pt))
            },
            None => Ok(None),
        }
    }
}

} // verus!

verus! {

/// Skipping never leaves the receive counter above the larger of where it
/// started and the target.
proof fn lemma_skip_loop_nr(s: RatchetView, until: u32)
    ensures
        skip_loop(s, until).0.nr <= if s.nr >= until { s.nr } else { until },
    decreases until - s.nr,
{
    if s.nr >= until || s.ckr is None {
    } else {
        let ck = s.ckr.unwrap();
        let s1 = RatchetView { ckr: Some(chain_next(ck)), ..s };
        if let Some(d) = s.dhr {
            lemma_skip_loop_nr(
                RatchetView {
                    skipped: s.skipped.insert((base64_of(d), s.nr), chain_mk(ck)),
                    nr: (s.nr + 1) as u32,
                    ..s1
                },
                until,
            );
        }
    }
}

/// With both a receive chain and a remote key, skipping succeeds and ends
/// with the counter at the larger of where it started and the target.
proof fn lemma_skip_loop_full(s: RatchetView, until: u32)
    requires
        s.ckr is Some,
        s.dhr is Some,
    ensures
        skip_loop(s, until).1 is Ok,
        skip_loop(s, until).0.ckr is Some,
        skip_loop(s, until).0.nr == if s.nr >= until { s.nr } else { until },
    decreases until - s.nr,
{
    if s.nr >= until {
    } else {
        let ck = s.ckr.unwrap();
        let d = s.dhr.unwrap();
        let s1 = RatchetView { ckr: Some(chain_next(ck)), ..s };
        lemma_skip_loop_full(
            RatchetView {
                skipped: s.skipped.insert((base64_of(d), s.nr), chain_mk(ck)),
                nr: (s.nr + 1) as u32,
                ..s1
            },
            until,
        );
    }
}

impl RatchetState {
    /// Decrypt a message, taking `fresh` as the new sending ratchet secret
    /// if the header starts a new DH ratchet step.
    pub fn decrypt_with_secret(&mut self, header: &RatchetHeader, ciphertext: &[u8], fresh: [u8; 32]) -> (r: Result<Vec<u8>, E2eError>)
        requires
            old(self).wf(),
            !recv_counter_exhausted(old(self)@, header@),
        ensures
            final(self).wf(),
            final(self)@ == spec_decrypt(old(self)@, header@, ciphertext@, fresh@).0,
            reports(r, spec_decrypt(old(self)@, header@, ciphertext@, fresh@).1),
    {
        if let Some(pt) = self.try_skipped(header, ciphertext)? {
            return Ok(pt);
        }
        let remote = decode_x25519_pub(header.dh_pub_b64.as_str())?;
        let same = match self.dhr {
            Some(d) => bytes_eq(d.as_slice(), remote.as_slice()),
            None => false,
        };
        let ghost s0 = self@;
        assert(same <==> s0.dhr == Some(remote@));
        if !same {
            self.skip_message_keys(header.pn)?;
            self.dh_ratchet(&remote, fresh)?;
        }
        let ghost s1 = self@;
        self.skip_message_keys(header.n)?;
        let ck = match self.ckr {
            Some(c) => c,
            None => return Err(E2eError::Ratchet(detail("recv chain missing"))),
        };
        proof {
            lemma_skip_loop_nr(s1, header.n);
        }
        let (mk, next) = kdf_ck(&ck)?;
        self.ckr = Some(next);
        self.nr = self.nr + 1;
        open_aes_gcm(&mk, ciphertext, header)
    }

    /// Decrypt a message; a new sending ratchet secret, if one is needed,
    /// is drawn from the OS RNG.
    pub fn decrypt(&mut self, header: &RatchetHeader, ciphertext: &[u8]) -> (r: Result<Vec<u8>, E2eError>)
        requires
            old(self).wf(),
            !recv_counter_exhausted(old(self)@, header@),
        ensures
            final(self).wf(),
            exists|fresh: Seq<u8>|
                fresh.len() == 32 && final(self)@ == #[trigger] spec_decrypt(old(self)@, header@, ciphertext@, fresh).0
                    && reports(r, spec_decrypt(old(self)@, header@, ciphertext@, fresh).1),
    {
        let bytes = random_bytes(32);
        let fresh = crate::bytes::to_array32(bytes.as_slice());
        let r = self.decrypt_with_secret(header, ciphertext, fresh);
        assert(fresh@.len() == 32);
        r
    }

    /// Whether decrypting with `header` would run the receive counter past
    /// `u32::MAX`.
    pub fn recv_counter_would_overflow(&self, header: &RatchetHeader) -> (b: bool)
        requires
            self.wf(),
        ensures
            b == recv_counter_exhausted(self@, header@),
    {
        if let Some(i) = find_skipped(&self.mkskipped, header.dh_pub_b64.as_str(), header.n) {
            proof {
                lemma_lookup(self.mkskipped@, i as int);
            }
            return false;
        }
        let remote = match decode_x25519_pub(header.dh_pub_b64.as_str()) {
            Ok(k) => k,
            Err(_) => return false,
        };
        let same = match self.dhr {
            Some(d) => bytes_eq(d.as_slice(), remote.as_slice()),
            None => false,
        };
        if !same {
            return false;
        }
        if self.nr.saturating_add(MAX_SKIP) < header.n || self.ckr.is_none() {
            return false;
        }
        proof {
            lemma_skip_loop_full(self@, header.n);
        }
        self.nr == u32::MAX || header.n == u32::MAX
    }

    /// Decrypt a message unless that would run the receive counter past
    /// `u32::MAX`; then the state is left unchanged and `None` returned.
    pub fn checked_decrypt(&mut self, header: &RatchetHeader, ciphertext: &[u8]) -> (r: Option<Result<Vec<u8>, E2eError>>)
        requires
            old(self).wf(),
        ensures
            final(self).wf(),
            match r {
                None => recv_counter_exhausted(old(self)@, header@) && final(self)@ == old(self)@,
                Some(res) => !recv_counter_exhausted(old(self)@, header@) && exists|fresh: Seq<u8>|
                    fresh.len() == 32 && final(self)@ == #[trigger] spec_decrypt(old(self)@, header@, ciphertext@, fresh).0
                        && reports(res, spec_decrypt(old(self)@, header@, ciphertext@, fresh).1),
            },
    {
        if self.recv_counter_would_overflow(header) {
            return None;
        }
        Some(self.decrypt(header, ciphertext))
    }
}

} // verus!

verus! {

/// The chain key `k` steps after `ck`.
pub open spec fn chain_at(ck: Seq<u8>, k: nat) -> Seq<u8>
    decreases k,
{
    if k == 0 {
        ck
    } else {
        chain_at(chain_next(ck), (k - 1) as nat)
    }
}

/// Skipping keeps a stored key that it does not overwrite: one of an
/// earlier counter, or of another ratchet key.
proof fn lemma_skip_loop_keeps(s: RatchetView, until: u32, key: (Seq<char>, u32))
    requires
        s.skipped.contains_key(key),
        key.1 < s.nr || (s.dhr matches Some(d) && key.0 != base64_of(d)),
    ensures
        skip_loop(s, until).0.skipped.contains_key(key),
        skip_loop(s, until).0.skipped[key] == s.skipped[key],
        skip_loop(s, until).0.dhr == s.dhr,
    decreases until - s.nr,
{
    if s.nr < until && s.ckr is Some && s.dhr is Some {
        let ck = s.ckr.unwrap();
        let d = s.dhr.unwrap();
        let next = RatchetView {
            skipped: s.skipped.insert((base64_of(d), s.nr), chain_mk(ck)),
            nr: (s.nr + 1) as u32,
            ckr: Some(chain_next(ck)),
            ..s
        };
        assert(skip_loop(s, until) == skip_loop(next, until));
        lemma_skip_loop_keeps(next, until, key);
    }
}

/// Skipping the receive chain from `nr` up to `until` stores, under the
/// current ratchet key, the message key of every counter in between.
proof fn lemma_skip_loop_stores(s: RatchetView, until: u32, n: u32)
    requires
        s.ckr is Some,
        s.dhr is Some,
        s.nr <= n < until,
    ensures
        skip_loop(s, until).0.skipped.contains_key((base64_of(s.dhr.unwrap()), n)),
        skip_loop(s, until).0.skipped[(base64_of(s.dhr.unwrap()), n)] == chain_mk(chain_at(s.ckr.unwrap(), (n - s.nr) as nat)),
        skip_loop(s, until).0.dhr == s.dhr,
    decreases until - s.nr,
{
    let ck = s.ckr.unwrap();
    let d = s.dhr.unwrap();
    let next = RatchetView {
        skipped: s.skipped.insert((base64_of(d), s.nr), chain_mk(ck)),
        nr: (s.nr + 1) as u32,
        ckr: Some(chain_next(ck)),
        ..s
    };
    assert(skip_loop(s, until) == skip_loop(next, until));
    if n == s.nr {
        assert(chain_at(ck, 0) == ck);
        lemma_skip_loop_keeps(next, until, (base64_of(d), n));
    } else {
        lemma_skip_loop_stores(next, until, n);
        assert(chain_at(ck, (n - s.nr) as nat) == chain_at(chain_next(ck), (n - next.nr) as nat));
    }
}

/// A message that arrives after the sender's next DH ratchet step still
/// decrypts to what was sent: when a header starts a new DH step, the
/// receiver first stores the message keys of its current receive chain up
/// to that header's `pn`, so the late message (counter `n` below `pn` on
/// the old chain) opens under its own message key.
pub proof fn law_late_message_after_dh_step(
    s: RatchetView,
    h: HeaderView,
    ct: Seq<u8>,
    pt: Seq<u8>,
    h2: HeaderView,
    ct2: Seq<u8>,
    fresh: Seq<u8>,
    fresh2: Seq<u8>,
)
    requires
        s.dhr matches Some(old) && h.dh == base64_of(old),
        s.ckr is Some,
        s.nr <= h.n < h2.pn,
        h2.pn <= skip_limit(s.nr),
        !s.skipped.contains_key((h2.dh, h2.n)),
        base64_decoded(h2.dh) matches Some(r2) && r2.len() == 32 && s.dhr != Some(r2) && base64_of(r2) != h.dh,
        aes_gcm_opened(
            chain_mk(chain_at(s.ckr.unwrap(), (h.n - s.nr) as nat)),
            msg_nonce(chain_mk(chain_at(s.ckr.unwrap(), (h.n - s.nr) as nat))),
            header_aad(h),
            ct,
        ) == Some(pt),
    ensures
        spec_decrypt(spec_decrypt(s, h2, ct2, fresh).0, h, ct, fresh2).1 == Ok::<Seq<u8>, RatchetFault>(pt),
{
    let old = s.dhr.unwrap();
    let r2 = base64_decoded(h2.dh).unwrap();
    let key = (h.dh, h.n);
    let mk = chain_mk(chain_at(s.ckr.unwrap(), (h.n - s.nr) as nat));
    lemma_skip_loop_stores(s, h2.pn, h.n);
    let (sa, ra) = spec_skip(s, h2.pn);
    assert(sa == skip_loop(s, h2.pn).0);
    assert(sa.skipped.contains_key(key) && sa.skipped[key] == mk);
    let after = spec_decrypt(s, h2, ct2, fresh).0;
    assert(after == decrypt_on_chain(s, h2, ct2, r2, fresh).0);
    if ra is Ok {
        let s1 = spec_dh_ratchet(sa, r2, fresh);
        assert(s1.skipped == sa.skipped);
        assert(s1.dhr == Some(r2));
        let (s2, r2res) = spec_skip(s1, h2.n);
        if skip_limit(s1.nr) >= h2.n {
            lemma_skip_loop_keeps(s1, h2.n, key);
        }
        assert(s2.skipped.contains_key(key) && s2.skipped[key] == mk);
        assert(after.skipped.contains_key(key) && after.skipped[key] == mk);
    } else {
        assert(after == sa);
    }
    assert(spec_decrypt(after, h, ct, fresh2).1 == spec_open(mk, ct, h));
}

/// The first message that the initiator sends after X3DH is decrypted by
/// the responder to the plaintext that was sent.
pub proof fn law_first_message_decrypts(
    sk: Seq<u8>,
    spk: Seq<u8>,
    a_dhs: Seq<u8>,
    pt: Seq<u8>,
    h: HeaderView,
    ct: Seq<u8>,
    fresh: Seq<u8>,
)
    requires
        spk.len() == 32,
        spec_encrypt(spec_init_alice(sk, x25519_public_key(spk), a_dhs), pt).1 == Ok::<(HeaderView, Seq<u8>), RatchetFault>((h, ct)),
        sent_by(spec_init_alice(sk, x25519_public_key(spk), a_dhs), pt, h, ct),
    ensures
        spec_decrypt(spec_init_bob(sk, spk), h, ct, fresh).1 == Ok::<Seq<u8>, RatchetFault>(pt),
{
    let alice = spec_init_alice(sk, x25519_public_key(spk), a_dhs);
    let bob = spec_init_bob(sk, spk);
    let remote = x25519_public_key(a_dhs);
    assert(x25519_shared(spk, remote) == x25519_shared(a_dhs, x25519_public_key(spk)));
    assert(!bob.skipped.contains_key((h.dh, h.n)));
    assert(h.pn == 0 && h.n == 0);
    let (sa, ra) = spec_skip(bob, h.pn);
    assert(sa == bob && ra is Ok);
    let s1 = spec_dh_ratchet(sa, remote, fresh);
    assert(s1.ckr == alice.cks);
    let (s2, r2) = spec_skip(s1, h.n);
    assert(s2 == s1 && r2 is Ok);
}

/// After that first message, the responder's reply is decrypted by the
/// initiator to the plaintext that was sent (the reply starts a new DH
/// ratchet step, so its ratchet key differs from the signed prekey).
pub proof fn law_reply_decrypts(
    sk: Seq<u8>,
    spk: Seq<u8>,
    a_dhs: Seq<u8>,
    pt1: Seq<u8>,
    h1: HeaderView,
    ct1: Seq<u8>,
    b_fresh: Seq<u8>,
    pt2: Seq<u8>,
    h2: HeaderView,
    ct2: Seq<u8>,
    a_fresh: Seq<u8>,
)
    requires
        spk.len() == 32,
        a_dhs.len() == 32,
        spec_encrypt(spec_init_alice(sk, x25519_public_key(spk), a_dhs), pt1).1 == Ok::<(HeaderView, Seq<u8>), RatchetFault>((h1, ct1)),
        sent_by(spec_init_alice(sk, x25519_public_key(spk), a_dhs), pt1, h1, ct1),
        spec_encrypt(spec_decrypt(spec_init_bob(sk, spk), h1, ct1, b_fresh).0, pt2).1 == Ok::<(HeaderView, Seq<u8>), RatchetFault>((h2, ct2)),
        sent_by(spec_decrypt(spec_init_bob(sk, spk), h1, ct1, b_fresh).0, pt2, h2, ct2),
        x25519_public_key(b_fresh) != x25519_public_key(spk),
    ensures
        spec_decrypt(
            spec_encrypt(spec_init_alice(sk, x25519_public_key(spk), a_dhs), pt1).0,
            h2,
            ct2,
            a_fresh,
        ).1 == Ok::<Seq<u8>, RatchetFault>(pt2),
{
    let alice0 = spec_init_alice(sk, x25519_public_key(spk), a_dhs);
    let bob0 = spec_init_bob(sk, spk);
    let a_pub = x25519_public_key(a_dhs);
    assert(x25519_shared(spk, a_pub) == x25519_shared(a_dhs, x25519_public_key(spk)));
    assert(!bob0.skipped.contains_key((h1.dh, h1.n)));
    let (sa, ra) = spec_skip(bob0, h1.pn);
    assert(sa == bob0 && ra is Ok);
    let b1 = spec_dh_ratchet(sa, a_pub, b_fresh);
    let (b2, rb2) = spec_skip(b1, h1.n);
    assert(b2 == b1 && rb2 is Ok);
    let bob1 = spec_decrypt(bob0, h1, ct1, b_fresh).0;
    assert(bob1.dhs == b_fresh);
    assert(bob1.ns == 0 && bob1.pn == 0);
    let alice1 = spec_encrypt(alice0, pt1).0;
    let b_pub = x25519_public_key(b_fresh);
    assert(x25519_shared(a_dhs, b_pub) == x25519_shared(b_fresh, a_pub));
    assert(!alice1.skipped.contains_key((h2.dh, h2.n)));
    assert(alice1.dhr != Some(b_pub));
    let (aa, raa) = spec_skip(alice1, h2.pn);
    assert(aa == alice1 && raa is Ok);
    let a2 = spec_dh_ratchet(aa, b_pub, a_fresh);
    assert(a2.ckr == bob1.cks);
    let (a3, ra3) = spec_skip(a2, h2.n);
    assert(a3 == a2 && ra3 is Ok);
}

} // verus!

verus! {

/// `dto` is the serializable form of `st`: every key in standard base64
/// (which decodes back to the key), skipped keys in the same order.
pub open spec fn dto_of(st: RatchetState, dto: RatchetStateDto) -> bool {
    &&& dto.dhs_b64@ == base64_of(st.dhs@)
    &&& key32(dto.dhs_b64@) == Some(st.dhs@)
    &&& opt_text(dto.dhr_b64) == opt_b64(opt_key(st.dhr))
    &&& opt_key32(dto.dhr_b64) == opt_key(st.dhr)
    &&& dto.rk_b64@ == base64_of(st.rk@)
    &&& key32(dto.rk_b64@) == Some(st.rk@)
    &&& opt_text(dto.cks_b64) == opt_b64(opt_key(st.cks))
    &&& opt_key32(dto.cks_b64) == opt_key(st.cks)
    &&& opt_text(dto.ckr_b64) == opt_b64(opt_key(st.ckr))
    &&& opt_key32(dto.ckr_b64) == opt_key(st.ckr)
    &&& dto.ns == st.ns
    &&& dto.nr == st.nr
    &&& dto.pn == st.pn
    &&& dto.mkskipped@.len() == st.mkskipped@.len()
    &&& forall|i: int| 0 <= i < st.mkskipped@.len() ==> {
        &&& (#[trigger] dto.mkskipped@[i]).dh_pub_b64@ == st.mkskipped@[i].dh_pub_b64@
        &&& dto.mkskipped@[i].n == st.mkskipped@[i].n
        &&& dto.mkskipped@[i].mk_b64@ == base64_of(st.mkskipped@[i].mk@)
        &&& key32(dto.mkskipped@[i].mk_b64@) == Some(st.mkskipped@[i].mk@)
    }
}

/// Serializable form of one skipped message key.
#[derive(Debug, Clone)]
pub struct SkippedMk {
    pub dh_pub_b64: String,
    pub n: u32,
    pub mk_b64: String,
}

/// Serializable ratchet session (keys in standard base64).
#[derive(Debug, Clone)]
pub struct RatchetStateDto {
    pub dhs_b64: String,
    pub dhr_b64: Option<String>,
    pub rk_b64: String,
    pub cks_b64: Option<String>,
    pub ckr_b64: Option<String>,
    pub ns: u32,
    pub nr: u32,
    pub pn: u32,
    pub mkskipped: Vec<SkippedMk>,
}

/// Base64 text of an optional key.
pub open spec fn opt_b64(k: Option<Seq<u8>>) -> Option<Seq<char>> {
    match k {
        Some(b) => Some(base64_of(b)),
        None => None,
    }
}

/// An optional text as an optional character sequence.
pub open spec fn opt_text(t: Option<String>) -> Option<Seq<char>> {
    match t {
        Some(s) => Some(s@),
        None => None,
    }
}

/// The 32-byte key carried by a base64 text.
pub open spec fn key32(text: Seq<char>) -> Option<Seq<u8>> {
    match base64_decoded(text) {
        Some(b) => if b.len() == 32 { Some(b) } else { None },
        None => None,
    }
}

/// How decoding a 32-byte key field fails: `None` if it does not,
/// `Some(None)` if the text is not base64, `Some(Some(label))` if it has the
/// wrong length (reported with `label`).
pub open spec fn field_err(text: Seq<char>, label: Seq<char>) -> Option<Option<Seq<char>>> {
    match base64_decoded(text) {
        None => Some(None),
        Some(b) => if b.len() == 32 { None } else { Some(Some(label)) },
    }
}

/// First failure among optional key fields.
pub open spec fn opt_field_err(text: Option<Seq<char>>, label: Seq<char>) -> Option<Option<Seq<char>>> {
    match text {
        Some(t) => field_err(t, label),
        None => None,
    }
}

/// First failure among the skipped keys of a list, in list order.
pub open spec fn list_err(l: Seq<SkippedMk>) -> Option<Option<Seq<char>>>
    decreases l.len(),
{
    if l.len() == 0 {
        None
    } else {
        match list_err(l.drop_last()) {
            Some(e) => Some(e),
            None => field_err(l.last().mk_b64@, "32-byte field"@),
        }
    }
}

/// The skipped-key map of a list, later entries replacing earlier ones.
pub open spec fn list_map(l: Seq<SkippedMk>) -> Map<(Seq<char>, u32), Seq<u8>>
    decreases l.len(),
{
    if l.len() == 0 {
        Map::empty()
    } else {
        list_map(l.drop_last()).insert((l.last().dh_pub_b64@, l.last().n), key32(l.last().mk_b64@).unwrap())
    }
}

/// First failure when restoring a state from `dto`, in the order the fields
/// are read.
pub open spec fn dto_error(dto: RatchetStateDto) -> Option<Option<Seq<char>>> {
    if field_err(dto.dhs_b64@, "dhs len"@) is Some {
        field_err(dto.dhs_b64@, "dhs len"@)
    } else if field_err(dto.rk_b64@, "rk len"@) is Some {
        field_err(dto.rk_b64@, "rk len"@)
    } else if list_err(dto.mkskipped@) is Some {
        list_err(dto.mkskipped@)
    } else if opt_field_err(opt_text(dto.dhr_b64), "x25519 pub len"@) is Some {
        opt_field_err(opt_text(dto.dhr_b64), "x25519 pub len"@)
    } else if opt_field_err(opt_text(dto.cks_b64), "32-byte field"@) is Some {
        opt_field_err(opt_text(dto.cks_b64), "32-byte field"@)
    } else {
        opt_field_err(opt_text(dto.ckr_b64), "32-byte field"@)
    }
}

/// An optional key text decoded (valid texts only).
pub open spec fn opt_key32(t: Option<String>) -> Option<Seq<u8>> {
    match t {
        Some(s) => key32(s@),
        None => None,
    }
}

/// The state a valid `dto` restores.
pub open spec fn dto_view(dto: RatchetStateDto) -> RatchetView {
    RatchetView {
        dhs: key32(dto.dhs_b64@).unwrap(),
        dhr: opt_key32(dto.dhr_b64),
        rk: key32(dto.rk_b64@).unwrap(),
        cks: opt_key32(dto.cks_b64),
        ckr: opt_key32(dto.ckr_b64),
        ns: dto.ns,
        nr: dto.nr,
        pn: dto.pn,
        skipped: list_map(dto.mkskipped@),
    }
}

/// `r` reports the failure `e` of decoding.
pub open spec fn reports_decode<T>(r: Result<T, E2eError>, e: Option<Seq<char>>) -> bool {
    match e {
        None => r matches Err(E2eError::InvalidKey(_)),
        Some(label) => r matches Err(E2eError::InvalidKey(m)) && m@ == label,
    }
}

proof fn lemma_list_err_prefix(l: Seq<SkippedMk>, i: int)
    requires
        0 <= i <= l.len(),
        list_err(l.subrange(0, i)) is Some,
    ensures
        list_err(l) == list_err(l.subrange(0, i)),
    decreases l.len() - i,
{
    if i < l.len() {
        assert(l.subrange(0, i + 1).drop_last() =~= l.subrange(0, i));
        lemma_list_err_prefix(l, i + 1);
    } else {
        assert(l.subrange(0, i) =~= l);
    }
}

/// Decode a base64 32-byte key field.
fn decode32(text: &str, label: &str) -> (r: Result<[u8; 32], E2eError>)
    ensures
        match field_err(text@, label@) {
            None => r matches Ok(k) && Some(k@) == key32(text@),
            Some(e) => reports_decode(r, e),
        },
{
    let bytes = match crate::primitives::b64_decode(text) {
        Ok(b) => b,
        Err(msg) => return Err(E2eError::InvalidKey(msg)),
    };
    if bytes.len() != 32 {
        return Err(E2eError::InvalidKey(label.to_owned()));
    }
    Ok(crate::bytes::to_array32(bytes.as_slice()))
}

/// Decode an optional base64 32-byte key field.
fn decode32_opt(text: &Option<String>, label: &str) -> (r: Result<Option<[u8; 32]>, E2eError>)
    ensures
        match opt_field_err(opt_text(*text), label@) {
            None => r matches Ok(k) && opt_key(k) == opt_key32(*text),
            Some(e) => reports_decode(r, e),
        },
{
    match text {
        Some(t) => {
            let k = decode32(t.as_str(), label)?;
            Ok(Some(k))
        },
        None => Ok(None),
    }
}

impl RatchetState {
    /// Serializable form of the state.
    pub fn to_dto(&self) -> (dto: RatchetStateDto)
        ensures
            dto_of(*self, dto),
    {
        let mut list: Vec<SkippedMk> = Vec::new();
        let mut i: usize = 0;
        while i < self.mkskipped.len()
            invariant
                i <= self.mkskipped@.len(),
                list@.len() == i,
                forall|j: int| 0 <= j < i ==> {
                    &&& (#[trigger] list@[j]).dh_pub_b64@ == self.mkskipped@[j].dh_pub_b64@
                    &&& list@[j].n == self.mkskipped@[j].n
                    &&& list@[j].mk_b64@ == base64_of(self.mkskipped@[j].mk@)
                    &&& key32(list@[j].mk_b64@) == Some(self.mkskipped@[j].mk@)
                },
            decreases self.mkskipped@.len() - i,
        {
            let e = &self.mkskipped[i];
            let mk_b64 = b64_encode(&e.mk);
            list.push(SkippedMk { dh_pub_b64: e.dh_pub_b64.clone(), n: e.n, mk_b64 });
            i = i + 1;
        }
        RatchetStateDto {
            dhs_b64: b64_encode(&self.dhs),
            dhr_b64: match self.dhr {
                Some(d) => Some(b64_encode(&d)),
                None => None,
            },
            rk_b64: b64_encode(&self.rk),
            cks_b64: match self.cks {
                Some(c) => Some(b64_encode(&c)),
                None => None,
            },
            ckr_b64: match self.ckr {
                Some(c) => Some(b64_encode(&c)),
                None => None,
            },
            ns: self.ns,
            nr: self.nr,
            pn: self.pn,
            mkskipped: list,
        }
    }

    /// Restore a state from its serializable form; for a skipped key that
    /// occurs twice the later entry wins.
    pub fn from_dto(dto: &RatchetStateDto) -> (r: Result<Self, E2eError>)
        ensures
            match dto_error(*dto) {
                None => r matches Ok(st) && st.wf() && st@ == dto_view(*dto),
                Some(e) => reports_decode(r, e),
            },
    {
        let dhs = decode32(dto.dhs_b64.as_str(), "dhs len")?;
        let rk = decode32(dto.rk_b64.as_str(), "rk len")?;
        let mut mkskipped: Vec<SkippedKey> = Vec::new();
        let mut i: usize = 0;
        proof {
            assert(dto.mkskipped@.subrange(0, 0) =~= Seq::<SkippedMk>::empty());
            lemma_empty_skipped();
        }
        while i < dto.mkskipped.len()
            invariant
                i <= dto.mkskipped@.len(),
                keys_distinct(mkskipped@),
                list_err(dto.mkskipped@.subrange(0, i as int)) is None,
                field_err(dto.dhs_b64@, "dhs len"@) is None,
                field_err(dto.rk_b64@, "rk len"@) is None,
                skipped_map(mkskipped@) == list_map(dto.mkskipped@.subrange(0, i as int)),
            decreases dto.mkskipped@.len() - i,
        {
            let s = &dto.mkskipped[i];
            let ghost pre = dto.mkskipped@.subrange(0, i as int);
            let ghost next = dto.mkskipped@.subrange(0, i + 1);
            assert(next.drop_last() =~= pre);
            let mk = match decode32(s.mk_b64.as_str(), "32-byte field") {
                Ok(k) => k,
                Err(e) => {
                    proof {
                        lemma_list_err_prefix(dto.mkskipped@, i + 1);
                    }
                    return Err(e);
                },
            };
            insert_skipped(&mut mkskipped, s.dh_pub_b64.clone(), s.n, mk);
            i = i + 1;
        }
        assert(dto.mkskipped@.subrange(0, dto.mkskipped@.len() as int) =~= dto.mkskipped@);
        let dhr = match &dto.dhr_b64 {
            Some(b) => Some(decode_x25519_pub(b.as_str())?),
            None => None,
        };
        let cks = decode32_opt(&dto.cks_b64, "32-byte field")?;
        let ckr = decode32_opt(&dto.ckr_b64, "32-byte field")?;
        Ok(RatchetState { dhs, dhr, rk, cks, ckr, ns: dto.ns, nr: dto.nr, pn: dto.pn, mkskipped })
    }
}

} // verus!

verus! {

proof fn lemma_list_map_of_keys(st: RatchetState, dto: RatchetStateDto, k: int)
    requires
        dto_of(st, dto),
        keys_distinct(st.mkskipped@),
        0 <= k <= st.mkskipped@.len(),
    ensures
        list_err(dto.mkskipped@.subrange(0, k)) is None,
        list_map(dto.mkskipped@.subrange(0, k)) == skipped_map(st.mkskipped@.subrange(0, k)),
        keys_distinct(st.mkskipped@.subrange(0, k)),
    decreases k,
{
    let l = dto.mkskipped@.subrange(0, k);
    let s = st.mkskipped@.subrange(0, k);
    if k == 0 {
        lemma_empty_skipped();
        assert(s =~= Seq::<SkippedKey>::empty());
    } else {
        lemma_list_map_of_keys(st, dto, k - 1);
        assert(l.drop_last() =~= dto.mkskipped@.subrange(0, k - 1));
        let s0 = st.mkskipped@.subrange(0, k - 1);
        let e = st.mkskipped@[k - 1];
        assert(s =~= s0.push(e));
        assert(l.last() == dto.mkskipped@[k - 1]);
        assert(!crate::skipped::has_key(s0, crate::skipped::entry_key(e))) by {
            if crate::skipped::has_key(s0, crate::skipped::entry_key(e)) {
                let j = choose|j: int| 0 <= j < s0.len() && crate::skipped::entry_key(#[trigger] s0[j]) == crate::skipped::entry_key(e);
                assert(st.mkskipped@[j] == s0[j]);
            }
        }
        crate::skipped::lemma_push(s0, e);
    }
}

/// Restoring the serializable form of a state gives the same state back.
pub proof fn law_dto_roundtrip(st: RatchetState, dto: RatchetStateDto)
    requires
        st.wf(),
        dto_of(st, dto),
    ensures
        dto_error(dto) is None,
        dto_view(dto) == st@,
{
    lemma_list_map_of_keys(st, dto, st.mkskipped@.len() as int);
    assert(dto.mkskipped@.subrange(0, st.mkskipped@.len() as int) =~= dto.mkskipped@);
    assert(st.mkskipped@.subrange(0, st.mkskipped@.len() as int) =~= st.mkskipped@);
}

} // verus!
