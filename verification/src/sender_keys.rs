//! Channel sender keys: a symmetric HKDF chain per sender, with rotation
//! to a fresh random chain when the membership changes.
use vstd::prelude::*;

use vstd::string::StringSliceAdditionalSpecFns;

use crate::bytes::{decimal, extend, push_decimal, slice_range, str_eq, to_array12, to_array32};
use crate::error::{detail, E2eError};
use crate::kdf::hkdf_sha256;
use crate::primitives::{aes_gcm_open, aes_gcm_opened, aes_gcm_seal, aes_gcm_sealed, hkdf_sha256_okm, random_bytes};
use crate::ratchet::utf8;

verus! {

/// A sender key: its identifier, the current chain key and the index of
/// the next message.
#[derive(Clone)]
pub struct SenderKey {
    pub skid: String,
    pub chain_key: [u8; 32],
    pub iteration: u32,
}

/// Header sent with each sender-key message.
#[derive(Debug, Clone)]
pub struct SenderKeyHeader {
    pub skid: String,
    pub iteration: u32,
}

/// Mathematical model of a sender key.
pub struct SenderKeyView {
    pub skid: Seq<char>,
    pub ck: Seq<u8>,
    pub iteration: u32,
}

impl View for SenderKey {
    type V = SenderKeyView;

    open spec fn view(&self) -> SenderKeyView {
        SenderKeyView { skid: self.skid@, ck: self.chain_key@, iteration: self.iteration }
    }
}

/// 64 bytes derived from chain key `ck`: message key, then next chain key.
pub open spec fn sk_chain_okm(ck: Seq<u8>) -> Seq<u8> {
    hkdf_sha256_okm(ck, Seq::empty(), "VoceChat_SK_Chain_v2".spec_bytes(), 64)
}

/// Message key of chain key `ck`.
pub open spec fn sk_mk(ck: Seq<u8>) -> Seq<u8> {
    sk_chain_okm(ck).subrange(0, 32)
}

/// Chain key after `ck`.
pub open spec fn sk_next(ck: Seq<u8>) -> Seq<u8> {
    sk_chain_okm(ck).subrange(32, 64)
}

/// Chain key after `k` steps from `ck`.
pub open spec fn sk_advance(ck: Seq<u8>, k: nat) -> Seq<u8>
    decreases k,
{
    if k == 0 { ck } else { sk_advance(sk_next(ck), (k - 1) as nat) }
}

/// Nonce of a sender-key message under message key `mk`.
pub open spec fn sk_nonce(mk: Seq<u8>) -> Seq<u8> {
    hkdf_sha256_okm(mk, Seq::empty(), "VoceChat_SK_Nonce_v2".spec_bytes(), 12)
}

/// Associated data of a sender-key message: `sk|{skid}|{iteration}`.
pub open spec fn sk_aad(skid: Seq<char>, iteration: u32) -> Seq<u8> {
    "sk|".spec_bytes() + utf8(skid) + "|".spec_bytes() + decimal(iteration as nat)
}

/// Why a sender-key decryption failed.
pub enum SkFault {
    SkidMismatch,
    Replay,
    DecryptFailed,
}

/// One decryption on sender key `s` of the message `(skid, iteration, ct)`:
/// the state left behind and the plaintext.
pub open spec fn sk_decrypt(s: SenderKeyView, skid: Seq<char>, iteration: u32, ct: Seq<u8>) -> (SenderKeyView, Result<Seq<u8>, SkFault>) {
    let k = if s.iteration < iteration { (iteration - s.iteration) as nat } else { 0 };
    let ck = sk_advance(s.ck, k);
    let it = if s.iteration < iteration { iteration } else { s.iteration };
    if skid != s.skid {
        (s, Err(SkFault::SkidMismatch))
    } else if it != iteration {
        (s, Err(SkFault::Replay))
    } else {
        match aes_gcm_opened(sk_mk(ck), sk_nonce(sk_mk(ck)), sk_aad(skid, iteration), ct) {
            Some(p) => (SenderKeyView { ck: sk_next(ck), iteration: (it + 1) as u32, ..s }, Ok(p)),
            None => (SenderKeyView { ck, iteration: it, ..s }, Err(SkFault::DecryptFailed)),
        }
    }
}

/// Derive `(message key, next chain key)` from a chain key.
pub fn derive_chain(ck: &[u8; 32]) -> (r: Result<([u8; 32], [u8; 32]), E2eError>)
    ensures
        r matches Ok((mk, next)) && mk@ == sk_mk(ck@) && next@ == sk_next(ck@),
{
    let empty: [u8; 0] = [];
    let okm = hkdf_sha256(ck.as_slice(), empty.as_slice(), "VoceChat_SK_Chain_v2".as_bytes(), 64)?;
    assert(empty@ =~= Seq::<u8>::empty());
    let a = slice_range(okm.as_slice(), 0, 32);
    let b = slice_range(okm.as_slice(), 32, 64);
    Ok((to_array32(a.as_slice()), to_array32(b.as_slice())))
}

/// Associated data of a header: `sk|{skid}|{iteration}`.
pub fn aad(h: &SenderKeyHeader) -> (r: Vec<u8>)
    ensures
        r@ == sk_aad(h.skid@, h.iteration),
{
    let mut out: Vec<u8> = Vec::new();
    extend(&mut out, "sk|".as_bytes());
    extend(&mut out, h.skid.as_str().as_bytes());
    extend(&mut out, "|".as_bytes());
    push_decimal(&mut out, h.iteration as u64);
    out
}

fn message_nonce(mk: &[u8; 32]) -> (r: Result<[u8; 12], E2eError>)
    ensures
        r matches Ok(n) && n@ == sk_nonce(mk@),
{
    let empty: [u8; 0] = [];
    let okm = hkdf_sha256(mk.as_slice(), empty.as_slice(), "VoceChat_SK_Nonce_v2".as_bytes(), 12)?;
    assert(empty@ =~= Seq::<u8>::empty());
    Ok(to_array12(okm.as_slice()))
}

fn seal(mk: &[u8; 32], plaintext: &[u8], header: &SenderKeyHeader) -> (r: Result<Vec<u8>, E2eError>)
    ensures
        match r {
            Ok(ct) => plaintext@.len() <= 0x10_0000_0000 && sk_aad(header.skid@, header.iteration).len() <= 0x10_0000_0000
                && ct@ == aes_gcm_sealed(mk@, sk_nonce(mk@), sk_aad(header.skid@, header.iteration), plaintext@)
                && aes_gcm_opened(mk@, sk_nonce(mk@), sk_aad(header.skid@, header.iteration), ct@) == Some(plaintext@),
            Err(e) => e is DecryptFailed && !(plaintext@.len() <= 0x10_0000_0000
                && sk_aad(header.skid@, header.iteration).len() <= 0x10_0000_0000),
        },
{
    let nonce = message_nonce(mk)?;
    let ad = aad(header);
    match aes_gcm_seal(mk, &nonce, ad.as_slice(), plaintext) {
        Some(ct) => Ok(ct),
        None => Err(E2eError::DecryptFailed),
    }
}

fn open(mk: &[u8; 32], ciphertext: &[u8], header: &SenderKeyHeader) -> (r: Result<Vec<u8>, E2eError>)
    ensures
        match aes_gcm_opened(mk@, sk_nonce(mk@), sk_aad(header.skid@, header.iteration), ciphertext@) {
            Some(p) => r matches Ok(v) && v@ == p,
            None => r matches Err(e) && e is DecryptFailed,
        },
{
    let nonce = message_nonce(mk)?;
    let ad = aad(header);
    match aes_gcm_open(mk, &nonce, ad.as_slice(), ciphertext) {
        Some(pt) => Ok(pt),
        None => Err(E2eError::DecryptFailed),
    }
}

impl SenderKey {
    /// A sender key with identifier `skid` starting from `chain_key`.
    pub fn with_chain_key(skid: &str, chain_key: [u8; 32]) -> (k: SenderKey)
        ensures
            k@ == (SenderKeyView { skid: skid@, ck: chain_key@, iteration: 0 }),
    {
        SenderKey { skid: skid.to_owned(), chain_key, iteration: 0 }
    }

    /// A sender key with identifier `skid` and a chain key drawn from the
    /// OS RNG.
    pub fn generate(skid: &str) -> (k: SenderKey)
        ensures
            k@.skid == skid@,
            k@.iteration == 0,
    {
        let bytes = random_bytes(32);
        Self::with_chain_key(skid, to_array32(bytes.as_slice()))
    }

    /// Encrypt the next message of the chain.
    pub fn encrypt(&mut self, plaintext: &[u8]) -> (r: Result<(SenderKeyHeader, Vec<u8>), E2eError>)
        requires
            old(self).iteration < u32::MAX,
        ensures
            final(self)@ == (SenderKeyView {
                ck: sk_next(old(self)@.ck),
                iteration: (old(self)@.iteration + 1) as u32,
                ..old(self)@
            }),
            match r {
                Ok((h, ct)) => {
                    let mk = sk_mk(old(self)@.ck);
                    &&& h.skid@ == old(self)@.skid
                    &&& h.iteration == old(self)@.iteration
                    &&& ct@ == aes_gcm_sealed(mk, sk_nonce(mk), sk_aad(h.skid@, h.iteration), plaintext@)
                    &&& aes_gcm_opened(mk, sk_nonce(mk), sk_aad(h.skid@, h.iteration), ct@) == Some(plaintext@)
                },
                Err(e) => e is DecryptFailed && !(plaintext@.len() <= 0x10_0000_0000
                    && sk_aad(old(self)@.skid, old(self)@.iteration).len() <= 0x10_0000_0000),
            },
    {
        let (mk, next) = derive_chain(&self.chain_key)?;
        self.chain_key = next;
        let header = SenderKeyHeader { skid: self.skid.clone(), iteration: self.iteration };
        self.iteration = self.iteration + 1;
        let ct = seal(&mk, plaintext, &header)?;
        Ok((header, ct))
    }

    /// Decrypt a message of this chain, advancing over skipped messages;
    /// an already used index is reported as a replay.
    pub fn decrypt(&mut self, header: &SenderKeyHeader, ciphertext: &[u8]) -> (r: Result<Vec<u8>, E2eError>)
        requires
            header.iteration < u32::MAX || header.skid@ != old(self)@.skid,
        ensures
            final(self)@ == sk_decrypt(old(self)@, header.skid@, header.iteration, ciphertext@).0,
            match sk_decrypt(old(self)@, header.skid@, header.iteration, ciphertext@).1 {
                Ok(p) => r matches Ok(v) && v@ == p,
                Err(SkFault::SkidMismatch) => r matches Err(E2eError::InvalidKey(m)) && m@ == "skid mismatch"@,
                Err(SkFault::Replay) => r == Err::<Vec<u8>, E2eError>(E2eError::Replay(header.iteration)),
                Err(SkFault::DecryptFailed) => r matches Err(e) && e is DecryptFailed,
            },
    {
        if !str_eq(header.skid.as_str(), self.skid.as_str()) {
            return Err(E2eError::InvalidKey(detail("skid mismatch")));
        }
        let ghost start = self@;
        while self.iteration < header.iteration
            invariant
                self@.skid == start.skid,
                start.iteration <= self.iteration,
                start.iteration < header.iteration ==> self.iteration <= header.iteration,
                start.iteration >= header.iteration ==> self.iteration == start.iteration,
                sk_advance(start.ck, (self.iteration - start.iteration) as nat) == self.chain_key@,
            decreases header.iteration - self.iteration,
        {
            let (_, next) = derive_chain(&self.chain_key)?;
            proof {
                lemma_advance_step(start.ck, (self.iteration - start.iteration) as nat);
            }
            self.chain_key = next;
            self.iteration = self.iteration + 1;
        }
        if self.iteration != header.iteration {
            return Err(E2eError::Replay(header.iteration));
        }
        let (mk, next) = derive_chain(&self.chain_key)?;
        let pt = open(&mk, ciphertext, header)?;
        self.chain_key = next;
        self.iteration = self.iteration + 1;
        Ok(pt)
    }

    /// Start a new chain `new_skid` from `chain_key` (membership change).
    pub fn rotate_with_chain_key(&mut self, new_skid: &str, chain_key: [u8; 32])
        ensures
            final(self)@ == (SenderKeyView { skid: new_skid@, ck: chain_key@, iteration: 0 }),
    {
        self.skid = new_skid.to_owned();
        self.chain_key = chain_key;
        self.iteration = 0;
    }

    /// Start a new chain `new_skid` from a chain key drawn from the OS RNG.
    pub fn rotate(&mut self, new_skid: &str)
        ensures
            final(self)@.skid == new_skid@,
            final(self)@.iteration == 0,
    {
        let bytes = random_bytes(32);
        self.rotate_with_chain_key(new_skid, to_array32(bytes.as_slice()));
    }
}

proof fn lemma_advance_step(ck: Seq<u8>, k: nat)
    ensures
        sk_advance(ck, k + 1) == sk_next(sk_advance(ck, k)),
    decreases k,
{
    if k > 0 {
        lemma_advance_step(sk_next(ck), (k - 1) as nat);
        assert(sk_advance(ck, k) == sk_advance(sk_next(ck), (k - 1) as nat));
        assert(sk_advance(ck, k + 1) == sk_advance(sk_next(ck), k));
    } else {
        assert(sk_advance(sk_next(ck), 0) == sk_next(ck));
        assert(sk_advance(ck, 1) == sk_advance(sk_next(ck), 0));
    }
}

/// A receiver that holds the sender's key (same identifier and chain key,
/// at the same index or behind it) decrypts the sender's next message to
/// its plaintext; what `encrypt` returned opens under the message key.
pub proof fn law_sender_key_roundtrip(sender: SenderKeyView, receiver: SenderKeyView, lag: nat, pt: Seq<u8>, ct: Seq<u8>)
    requires
        receiver.skid == sender.skid,
        receiver.iteration + lag == sender.iteration,
        sk_advance(receiver.ck, lag) == sender.ck,
        aes_gcm_opened(sk_mk(sender.ck), sk_nonce(sk_mk(sender.ck)), sk_aad(sender.skid, sender.iteration), ct) == Some(pt),
    ensures
        sk_decrypt(receiver, sender.skid, sender.iteration, ct).1 == Ok::<Seq<u8>, SkFault>(pt),
{
}

/// A message index that was already used is refused as a replay and
/// leaves the key unchanged.
pub proof fn law_sender_key_replay(s: SenderKeyView, iteration: u32, ct: Seq<u8>)
    requires
        iteration < s.iteration,
    ensures
        sk_decrypt(s, s.skid, iteration, ct) == (s, Err::<Seq<u8>, SkFault>(SkFault::Replay)),
{
}

} // verus!
