//! X3DH session agreement (Signal X3DH construction on X25519).
use vstd::prelude::*;

use crate::bytes::{extend, to_array32};
use crate::error::{detail, E2eError};
use crate::identity::{decode_x25519_pub, prekey_signed, verify_signed_prekey, x25519_pub_decoded, IdentityPublic, SignedPreKeyPublic};
use crate::kdf::{kdf_x3dh, x3dh_secret};
use crate::primitives::{b64_encode, base64_of, random_bytes, x25519_dh, x25519_public, x25519_public_key, x25519_shared};

verus! {

/// The responder's published keys.
#[derive(Debug, Clone)]
pub struct PreKeyBundle {
    pub identity: IdentityPublic,
    pub signed_prekey: SignedPreKeyPublic,
    /// Optional one-time prekey (X25519 public key, base64).
    pub one_time_prekey_b64: Option<String>,
    pub one_time_prekey_id: Option<u32>,
}

/// The initiator's first message.
#[derive(Debug, Clone)]
pub struct X3dhInitialMessage {
    pub identity_dh_pub_b64: String,
    pub ephemeral_pub_b64: String,
    pub used_signed_prekey_id: u32,
    pub used_one_time_prekey_id: Option<u32>,
}

/// The agreed secret.
#[derive(Clone)]
pub struct SharedSecret(pub [u8; 32]);

/// The one-time prekey of a bundle, decoded, if it carries one.
pub open spec fn bundle_otk(bundle: PreKeyBundle) -> Option<Seq<u8>> {
    match bundle.one_time_prekey_b64 {
        Some(t) => x25519_pub_decoded(t@),
        None => None,
    }
}

/// The bundle's keys decode and its signed prekey is signed by its identity.
pub open spec fn bundle_usable(bundle: PreKeyBundle) -> bool {
    &&& prekey_signed(bundle.identity, bundle.signed_prekey)
    &&& x25519_pub_decoded(bundle.identity.identity_dh_pub_b64@) is Some
    &&& x25519_pub_decoded(bundle.signed_prekey.dh_pub_b64@) is Some
    &&& (bundle.one_time_prekey_b64 is Some ==> bundle_otk(bundle) is Some)
}

/// X25519 agreement holds between secret `s` and any other secret.
pub open spec fn dh_agrees(s: Seq<u8>) -> bool {
    forall|o: Seq<u8>| o.len() == 32 ==> #[trigger] x25519_shared(o, x25519_public_key(s)) == x25519_shared(s, x25519_public_key(o))
}

/// The DH outputs the initiator concatenates: DH1..DH3 and, with a
/// one-time prekey, DH4.
pub open spec fn initiator_dh(ika: Seq<u8>, ikb: Seq<u8>, spkb: Seq<u8>, eka: Seq<u8>, otkb: Option<Seq<u8>>) -> Seq<u8> {
    x25519_shared(ika, spkb) + x25519_shared(eka, ikb) + x25519_shared(eka, spkb) + match otkb {
        Some(o) => x25519_shared(eka, o),
        None => Seq::empty(),
    }
}

/// The DH outputs the responder concatenates.
pub open spec fn responder_dh(ikb: Seq<u8>, spkb: Seq<u8>, otkb: Option<Seq<u8>>, ika: Seq<u8>, eka: Seq<u8>) -> Seq<u8> {
    x25519_shared(spkb, ika) + x25519_shared(ikb, eka) + x25519_shared(spkb, eka) + match otkb {
        Some(o) => x25519_shared(o, eka),
        None => Seq::empty(),
    }
}

/// An optional text as an optional character sequence.
pub open spec fn opt_chars(t: Option<String>) -> Option<Seq<char>> {
    match t {
        Some(s) => Some(s@),
        None => None,
    }
}

fn dh_into(out: &mut Vec<u8>, secret: &[u8; 32], public: &[u8; 32])
    ensures
        final(out)@ == old(out)@ + x25519_shared(secret@, public@),
{
    let d = x25519_dh(secret, public);
    extend(out, d.as_slice());
}

/// Alice (initiator) agrees on a secret with Bob's bundle, using `eka` as
/// her ephemeral secret.
pub fn x3dh_initiator_with_ephemeral(
    alice_ik_secret: &[u8; 32],
    alice_ik_public: &IdentityPublic,
    bob: &PreKeyBundle,
    eka: [u8; 32],
) -> (r: Result<(SharedSecret, X3dhInitialMessage, [u8; 32]), E2eError>)
    ensures
        ({
            let ikb = x25519_pub_decoded(bob.identity.identity_dh_pub_b64@);
            let spkb = x25519_pub_decoded(bob.signed_prekey.dh_pub_b64@);
            let otk_ok = match bob.one_time_prekey_b64 {
                Some(t) => x25519_pub_decoded(t@) is Some,
                None => true,
            };
            let otkb = match bob.one_time_prekey_b64 {
                Some(t) => x25519_pub_decoded(t@),
                None => None,
            };
            &&& (r is Ok <==> prekey_signed(bob.identity, bob.signed_prekey) && ikb is Some && spkb is Some && otk_ok)
            &&& (r matches Err(e) ==> e is InvalidKey)
            &&& (r matches Ok((sk, msg, ek)) ==> {
                &&& sk.0@ == x3dh_secret(initiator_dh(alice_ik_secret@, ikb.unwrap(), spkb.unwrap(), eka@, otkb))
                &&& msg.identity_dh_pub_b64@ == alice_ik_public.identity_dh_pub_b64@
                &&& msg.ephemeral_pub_b64@ == base64_of(x25519_public_key(eka@))
                &&& msg.used_signed_prekey_id == bob.signed_prekey.key_id
                &&& msg.used_one_time_prekey_id == (if bob.one_time_prekey_b64 is Some { bob.one_time_prekey_id } else { None })
                &&& ek == eka
                &&& dh_agrees(eka@)
                &&& crate::primitives::base64_decoded(msg.ephemeral_pub_b64@) == Some(x25519_public_key(eka@))
                &&& x25519_public_key(eka@).len() == 32
            })
        }),
{
    verify_signed_prekey(&bob.identity, &bob.signed_prekey)?;
    let ikb = decode_x25519_pub(bob.identity.identity_dh_pub_b64.as_str())?;
    let spkb = decode_x25519_pub(bob.signed_prekey.dh_pub_b64.as_str())?;
    let eka_pub = x25519_public(&eka);
    let mut concat: Vec<u8> = Vec::new();
    dh_into(&mut concat, alice_ik_secret, &spkb);
    dh_into(&mut concat, &eka, &ikb);
    dh_into(&mut concat, &eka, &spkb);
    let mut otk_id: Option<u32> = None;
    match &bob.one_time_prekey_b64 {
        Some(otk_b64) => {
            let otkb = decode_x25519_pub(otk_b64.as_str())?;
            dh_into(&mut concat, &eka, &otkb);
            otk_id = bob.one_time_prekey_id;
        },
        None => {
            assert(concat@ =~= concat@ + Seq::<u8>::empty());
        },
    }
    let sk = kdf_x3dh(concat.as_slice())?;
    let msg = X3dhInitialMessage {
        identity_dh_pub_b64: alice_ik_public.identity_dh_pub_b64.clone(),
        ephemeral_pub_b64: b64_encode(&eka_pub),
        used_signed_prekey_id: bob.signed_prekey.key_id,
        used_one_time_prekey_id: otk_id,
    };
    Ok((SharedSecret(sk), msg, eka))
}

/// Alice (initiator) agrees on a secret with Bob's bundle; her ephemeral
/// secret is drawn from the OS RNG and returned.
pub fn x3dh_initiator(
    alice_ik_secret: &[u8; 32],
    alice_ik_public: &IdentityPublic,
    bob: &PreKeyBundle,
) -> (r: Result<(SharedSecret, X3dhInitialMessage, [u8; 32]), E2eError>)
    ensures
        ({
            let ikb = x25519_pub_decoded(bob.identity.identity_dh_pub_b64@);
            let spkb = x25519_pub_decoded(bob.signed_prekey.dh_pub_b64@);
            let otk_ok = match bob.one_time_prekey_b64 {
                Some(t) => x25519_pub_decoded(t@) is Some,
                None => true,
            };
            let otkb = match bob.one_time_prekey_b64 {
                Some(t) => x25519_pub_decoded(t@),
                None => None,
            };
            &&& (r is Ok <==> prekey_signed(bob.identity, bob.signed_prekey) && ikb is Some && spkb is Some && otk_ok)
            &&& (r matches Err(e) ==> e is InvalidKey)
            &&& (r matches Ok((sk, msg, ek)) ==> {
                &&& sk.0@ == x3dh_secret(initiator_dh(alice_ik_secret@, ikb.unwrap(), spkb.unwrap(), ek@, otkb))
                &&& msg.identity_dh_pub_b64@ == alice_ik_public.identity_dh_pub_b64@
                &&& msg.ephemeral_pub_b64@ == base64_of(x25519_public_key(ek@))
                &&& msg.used_signed_prekey_id == bob.signed_prekey.key_id
                &&& msg.used_one_time_prekey_id == (if bob.one_time_prekey_b64 is Some { bob.one_time_prekey_id } else { None })
                &&& dh_agrees(ek@)
                &&& crate::primitives::base64_decoded(msg.ephemeral_pub_b64@) == Some(x25519_public_key(ek@))
            })
        }),
{
    let bytes = random_bytes(32);
    x3dh_initiator_with_ephemeral(alice_ik_secret, alice_ik_public, bob, to_array32(bytes.as_slice()))
}

/// Bob (responder) derives the secret from Alice's initial message.
pub fn x3dh_responder(
    bob_ik_secret: &[u8; 32],
    bob_spk_secret: &[u8; 32],
    bob_otk_secret: Option<&[u8; 32]>,
    alice_msg: &X3dhInitialMessage,
) -> (r: Result<SharedSecret, E2eError>)
    ensures
        ({
            let ika = x25519_pub_decoded(alice_msg.identity_dh_pub_b64@);
            let eka = x25519_pub_decoded(alice_msg.ephemeral_pub_b64@);
            let otk = if alice_msg.used_one_time_prekey_id is Some {
                match bob_otk_secret { Some(o) => Some(o@), None => None }
            } else {
                None
            };
            &&& (r is Ok <==> ika is Some && eka is Some
                && (alice_msg.used_one_time_prekey_id is Some ==> bob_otk_secret is Some))
            &&& (ika is None || eka is None ==> (r matches Err(e) && e is InvalidKey))
            &&& (ika is Some && eka is Some && alice_msg.used_one_time_prekey_id is Some && bob_otk_secret is None
                ==> (r matches Err(E2eError::X3dh(m)) && m@ == "missing OTK secret"@))
            &&& (r matches Ok(sk) ==> sk.0@ == x3dh_secret(
                responder_dh(bob_ik_secret@, bob_spk_secret@, otk, ika.unwrap(), eka.unwrap())))
        }),
{
    let ika = decode_x25519_pub(alice_msg.identity_dh_pub_b64.as_str())?;
    let eka = decode_x25519_pub(alice_msg.ephemeral_pub_b64.as_str())?;
    let mut concat: Vec<u8> = Vec::new();
    dh_into(&mut concat, bob_spk_secret, &ika);
    dh_into(&mut concat, bob_ik_secret, &eka);
    dh_into(&mut concat, bob_spk_secret, &eka);
    if alice_msg.used_one_time_prekey_id.is_some() {
        let otk = match bob_otk_secret {
            Some(o) => o,
            None => return Err(E2eError::X3dh(detail("missing OTK secret"))),
        };
        dh_into(&mut concat, otk, &eka);
    } else {
        assert(concat@ =~= concat@ + Seq::<u8>::empty());
    }
    let sk = kdf_x3dh(concat.as_slice())?;
    Ok(SharedSecret(sk))
}

/// Initiator and responder derive the same secret when the keys each side
/// decoded are the other side's public keys (X25519 agreement holding
/// for the responder's signed prekey and the initiator's ephemeral key,
/// as the key-generation calls guarantee).
pub proof fn law_x3dh_agreement(
    ika: Seq<u8>,
    ikb: Seq<u8>,
    spkb: Seq<u8>,
    eka: Seq<u8>,
    otkb: Option<Seq<u8>>,
)
    requires
        ika.len() == 32,
        ikb.len() == 32,
        spkb.len() == 32,
        eka.len() == 32,
        otkb matches Some(o) ==> o.len() == 32,
        dh_agrees(spkb),
        dh_agrees(eka),
    ensures
        x3dh_secret(initiator_dh(ika, x25519_public_key(ikb), x25519_public_key(spkb), eka,
            match otkb { Some(o) => Some(x25519_public_key(o)), None => None }))
            == x3dh_secret(responder_dh(ikb, spkb, otkb, x25519_public_key(ika), x25519_public_key(eka))),
{
    assert(x25519_shared(ika, x25519_public_key(spkb)) == x25519_shared(spkb, x25519_public_key(ika)));
    assert(x25519_shared(ikb, x25519_public_key(eka)) == x25519_shared(eka, x25519_public_key(ikb)));
    assert(x25519_shared(spkb, x25519_public_key(eka)) == x25519_shared(eka, x25519_public_key(spkb)));
    if let Some(o) = otkb {
        assert(x25519_shared(o, x25519_public_key(eka)) == x25519_shared(eka, x25519_public_key(o)));
    }
}

} // verus!

verus! {

/// The initiator's secret is the X3DH KDF over DH(IKa, SPKb), DH(EKa, IKb),
/// DH(EKa, SPKb) and, with a one-time prekey, DH(EKa, OTKb), in that
/// order: its identity secret enters through the first of them.
pub proof fn law_x3dh_initiator_input(ika: Seq<u8>, ikb: Seq<u8>, spkb: Seq<u8>, eka: Seq<u8>, otkb: Option<Seq<u8>>)
    ensures
        x3dh_secret(initiator_dh(ika, ikb, spkb, eka, otkb)) == x3dh_secret(match otkb {
            Some(o) => x25519_shared(ika, spkb) + x25519_shared(eka, ikb) + x25519_shared(eka, spkb) + x25519_shared(eka, o),
            None => x25519_shared(ika, spkb) + x25519_shared(eka, ikb) + x25519_shared(eka, spkb),
        }),
        initiator_dh(ika, ikb, spkb, eka, otkb).subrange(0, x25519_shared(ika, spkb).len() as int)
            == x25519_shared(ika, spkb),
{
    let first = x25519_shared(ika, spkb);
    let d = initiator_dh(ika, ikb, spkb, eka, otkb);
    if let Some(o) = otkb {
        assert(d =~= x25519_shared(ika, spkb) + x25519_shared(eka, ikb) + x25519_shared(eka, spkb) + x25519_shared(eka, o));
    } else {
        assert(d =~= x25519_shared(ika, spkb) + x25519_shared(eka, ikb) + x25519_shared(eka, spkb));
    }
    assert(d.subrange(0, first.len() as int) =~= first);
}

/// The responder's secret is the X3DH KDF over DH(SPKb, IKa), DH(IKb, EKa),
/// DH(SPKb, EKa) and, with a one-time prekey, DH(OTKb, EKa), in that order:
/// the initiator's identity key enters through the first of them.
pub proof fn law_x3dh_responder_input(ikb: Seq<u8>, spkb: Seq<u8>, otkb: Option<Seq<u8>>, ika: Seq<u8>, eka: Seq<u8>)
    ensures
        x3dh_secret(responder_dh(ikb, spkb, otkb, ika, eka)) == x3dh_secret(match otkb {
            Some(o) => x25519_shared(spkb, ika) + x25519_shared(ikb, eka) + x25519_shared(spkb, eka) + x25519_shared(o, eka),
            None => x25519_shared(spkb, ika) + x25519_shared(ikb, eka) + x25519_shared(spkb, eka),
        }),
        responder_dh(ikb, spkb, otkb, ika, eka).subrange(0, x25519_shared(spkb, ika).len() as int)
            == x25519_shared(spkb, ika),
{
    let first = x25519_shared(spkb, ika);
    let d = responder_dh(ikb, spkb, otkb, ika, eka);
    if let Some(o) = otkb {
        assert(d =~= x25519_shared(spkb, ika) + x25519_shared(ikb, eka) + x25519_shared(spkb, eka) + x25519_shared(o, eka));
    } else {
        assert(d =~= x25519_shared(spkb, ika) + x25519_shared(ikb, eka) + x25519_shared(spkb, eka));
    }
    assert(d.subrange(0, first.len() as int) =~= first);
}

} // verus!
