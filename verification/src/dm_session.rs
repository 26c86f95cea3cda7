//! Opening a direct-message session in one step: X3DH followed by the
//! first Double Ratchet message (initiator), or its decryption (responder).
use vstd::prelude::*;

use crate::error::E2eError;
use crate::identity::{decode_x25519_pub, prekey_signed, x25519_pub_decoded, IdentityPublic};
use crate::kdf::x3dh_secret;
use crate::primitives::{base64_of, x25519_public_key};
use crate::ratchet::{
    fault_error, law_first_message_decrypts, sent_by, spec_decrypt, spec_encrypt, spec_init_alice, spec_init_bob, HeaderView,
    RatchetFault, RatchetHeader, RatchetState, RatchetView,
};
use crate::x3dh::{
    bundle_otk, bundle_usable, dh_agrees, initiator_dh, law_x3dh_agreement, responder_dh, x3dh_initiator, x3dh_responder, PreKeyBundle,
    X3dhInitialMessage,
};

verus! {

/// The initiator's side of a new session: the ratchet state after the first
/// message, that message, and the X3DH initial message to send with it.
pub struct DmSessionOpened {
    pub state: RatchetState,
    pub header: RatchetHeader,
    pub ciphertext: Vec<u8>,
    pub x3dh_initial: X3dhInitialMessage,
    pub used_signed_prekey_id: u32,
}

/// The secret the initiator agrees on with `bundle` using ephemeral `ek`.
pub open spec fn initiator_secret(alice_ik: Seq<u8>, bundle: PreKeyBundle, ek: Seq<u8>) -> Seq<u8> {
    x3dh_secret(initiator_dh(
        alice_ik,
        x25519_pub_decoded(bundle.identity.identity_dh_pub_b64@).unwrap(),
        x25519_pub_decoded(bundle.signed_prekey.dh_pub_b64@).unwrap(),
        ek,
        bundle_otk(bundle),
    ))
}

/// Run X3DH against `bundle` and encrypt `plaintext` as the first message of
/// the new ratchet session.
pub fn dm_session_open_initiator(
    alice_x25519: &[u8; 32],
    alice_public: &IdentityPublic,
    bundle: &PreKeyBundle,
    plaintext: &[u8],
) -> (r: Result<DmSessionOpened, E2eError>)
    ensures
        !bundle_usable(*bundle) ==> (r matches Err(e) && e is InvalidKey),
        r matches Ok(o) ==> {
            let spkb = x25519_pub_decoded(bundle.signed_prekey.dh_pub_b64@).unwrap();
            &&& bundle_usable(*bundle)
            &&& o.state.wf()
            &&& o.used_signed_prekey_id == bundle.signed_prekey.key_id
            &&& o.x3dh_initial.identity_dh_pub_b64@ == alice_public.identity_dh_pub_b64@
            &&& o.x3dh_initial.used_signed_prekey_id == bundle.signed_prekey.key_id
            &&& o.x3dh_initial.used_one_time_prekey_id == (if bundle.one_time_prekey_b64 is Some {
                bundle.one_time_prekey_id
            } else {
                None
            })
            &&& exists|ek: Seq<u8>, dhs: Seq<u8>| #![trigger initiator_secret(alice_x25519@, *bundle, ek), spec_init_alice(initiator_secret(alice_x25519@, *bundle, ek), spkb, dhs)] {
                let alice = spec_init_alice(initiator_secret(alice_x25519@, *bundle, ek), spkb, dhs);
                &&& ek.len() == 32
                &&& dh_agrees(ek)
                &&& o.x3dh_initial.ephemeral_pub_b64@ == base64_of(x25519_public_key(ek))
                &&& crate::primitives::base64_decoded(o.x3dh_initial.ephemeral_pub_b64@) == Some(x25519_public_key(ek))
                &&& spec_encrypt(alice, plaintext@) == (o.state@, Ok::<_, RatchetFault>((o.header@, o.ciphertext@)))
                &&& sent_by(alice, plaintext@, o.header@, o.ciphertext@)
            }
        },
{
    let (sk, initial, eka) = x3dh_initiator(alice_x25519, alice_public, bundle)?;
    let bob_dh = decode_x25519_pub(bundle.signed_prekey.dh_pub_b64.as_str())?;
    let mut state = RatchetState::init_alice(sk.0, &bob_dh)?;
    let ghost alice = state@;
    let (header, ciphertext) = state.encrypt(plaintext)?;
    proof {
        let spkb = x25519_pub_decoded(bundle.signed_prekey.dh_pub_b64@).unwrap();
        assert(alice == spec_init_alice(initiator_secret(alice_x25519@, *bundle, eka@), spkb, alice.dhs));
        assert(spec_encrypt(alice, plaintext@) == (state@, Ok::<_, RatchetFault>((header@, ciphertext@))));
    }
    Ok(DmSessionOpened {
        state,
        header,
        ciphertext,
        x3dh_initial: initial,
        used_signed_prekey_id: bundle.signed_prekey.key_id,
    })
}

/// The secret the responder derives from an initial message.
pub open spec fn responder_secret(
    bob_ik: Seq<u8>,
    bob_spk: Seq<u8>,
    bob_otk: Option<Seq<u8>>,
    initial: X3dhInitialMessage,
) -> Seq<u8> {
    x3dh_secret(responder_dh(
        bob_ik,
        bob_spk,
        if initial.used_one_time_prekey_id is Some { bob_otk } else { None },
        x25519_pub_decoded(initial.identity_dh_pub_b64@).unwrap(),
        x25519_pub_decoded(initial.ephemeral_pub_b64@).unwrap(),
    ))
}

/// The initial message's keys decode and a one-time prekey it names is at
/// hand.
pub open spec fn initial_usable(initial: X3dhInitialMessage, has_otk: bool) -> bool {
    &&& x25519_pub_decoded(initial.identity_dh_pub_b64@) is Some
    &&& x25519_pub_decoded(initial.ephemeral_pub_b64@) is Some
    &&& (initial.used_one_time_prekey_id is Some ==> has_otk)
}

/// From state `bob`, the message `(h, ct)` decrypts to `pt` and leaves
/// state `st` (for some fresh ratchet secret taken on the way).
pub open spec fn decrypts_first(bob: RatchetView, h: HeaderView, ct: Seq<u8>, st: RatchetView, pt: Seq<u8>) -> bool {
    exists|fresh: Seq<u8>| fresh.len() == 32 && #[trigger] spec_decrypt(bob, h, ct, fresh) == (st, Ok::<Seq<u8>, RatchetFault>(pt))
}

/// The view of an optional secret key.
pub open spec fn otk_view(o: Option<&[u8; 32]>) -> Option<Seq<u8>> {
    match o {
        Some(k) => Some(k@),
        None => None,
    }
}

/// The responder's ratchet state before the first message: Bob's state
/// over the X3DH secret of the initial message.
pub open spec fn responder_start(
    bob_ik: Seq<u8>,
    bob_spk: Seq<u8>,
    bob_otk: Option<Seq<u8>>,
    initial: X3dhInitialMessage,
) -> RatchetView {
    spec_init_bob(responder_secret(bob_ik, bob_spk, bob_otk, initial), bob_spk)
}

/// What the responder returns, for the fresh ratchet secret `fresh`: the
/// state and plaintext of decrypting `(h, ct)` from `bob`, or the error that
/// stands for the decryption fault.
pub open spec fn reports_first(
    r: Result<(RatchetState, Vec<u8>), E2eError>,
    bob: RatchetView,
    h: HeaderView,
    ct: Seq<u8>,
    fresh: Seq<u8>,
) -> bool {
    match r {
        Ok((st, pt)) => spec_decrypt(bob, h, ct, fresh) == (st@, Ok::<Seq<u8>, RatchetFault>(pt@)),
        Err(e) => spec_decrypt(bob, h, ct, fresh).1 matches Err(f) && fault_error(e, f),
    }
}

/// Derive the X3DH secret from an initial message and decrypt the first
/// ratchet message of the session.
pub fn dm_session_open_responder(
    bob_x25519: &[u8; 32],
    bob_spk_secret: &[u8; 32],
    bob_otk_secret: Option<&[u8; 32]>,
    initial: &X3dhInitialMessage,
    header: &RatchetHeader,
    ciphertext: &[u8],
) -> (r: Result<(RatchetState, Vec<u8>), E2eError>)
    ensures
        !initial_usable(*initial, bob_otk_secret is Some) ==> r is Err,
        initial_usable(*initial, bob_otk_secret is Some) ==> exists|fresh: Seq<u8>| fresh.len() == 32
            && #[trigger] reports_first(r, responder_start(bob_x25519@, bob_spk_secret@, otk_view(bob_otk_secret), *initial),
                header@, ciphertext@, fresh),
        r matches Ok((st, pt)) ==> {
            let otk = match bob_otk_secret { Some(o) => Some(o@), None => None };
            let bob = spec_init_bob(responder_secret(bob_x25519@, bob_spk_secret@, otk, *initial), bob_spk_secret@);
            &&& initial_usable(*initial, bob_otk_secret is Some)
            &&& st.wf()
            &&& decrypts_first(bob, header@, ciphertext@, st@, pt@)
        },
{
    let sk = x3dh_responder(bob_x25519, bob_spk_secret, bob_otk_secret, initial)?;
    let mut state = RatchetState::init_bob(sk.0, *bob_spk_secret);
    let ghost bob = state@;
    let decrypted = state.decrypt(header, ciphertext);
    proof {
        let otk = match bob_otk_secret { Some(o) => Some(o@), None => None };
        assert(responder_secret(bob_x25519@, bob_spk_secret@, otk, *initial) == sk.0@);
        assert(bob == spec_init_bob(responder_secret(bob_x25519@, bob_spk_secret@, otk, *initial), bob_spk_secret@));
    }
    let plaintext = match decrypted {
        Ok(p) => p,
        Err(e) => {
            proof {
                let fresh = choose|fresh: Seq<u8>|
                    fresh.len() == 32 && state@ == #[trigger] spec_decrypt(bob, header@, ciphertext@, fresh).0
                        && crate::ratchet::reports(Err::<Vec<u8>, E2eError>(e), spec_decrypt(bob, header@, ciphertext@, fresh).1);
                assert(reports_first(Err(e), bob, header@, ciphertext@, fresh));
                assert(bob == responder_start(bob_x25519@, bob_spk_secret@, otk_view(bob_otk_secret), *initial));
            }
            return Err(e);
        },
    };
    proof {
        let otk = match bob_otk_secret { Some(o) => Some(o@), None => None };
        assert(responder_secret(bob_x25519@, bob_spk_secret@, otk, *initial) == sk.0@);
        let fresh = choose|fresh: Seq<u8>|
            fresh.len() == 32 && state@ == #[trigger] spec_decrypt(bob, header@, ciphertext@, fresh).0
                && crate::ratchet::reports(Ok::<Vec<u8>, E2eError>(plaintext), spec_decrypt(bob, header@, ciphertext@, fresh).1);
        assert(spec_decrypt(bob, header@, ciphertext@, fresh) == (state@, Ok::<Seq<u8>, RatchetFault>(plaintext@)));
        assert(reports_first(Ok((state, plaintext)), bob, header@, ciphertext@, fresh));
        assert(bob == responder_start(bob_x25519@, bob_spk_secret@, otk_view(bob_otk_secret), *initial));
    }
    Ok((state, plaintext))
}

/// A session opened by the initiator against a bundle of the responder's
/// keys is opened by the responder: the first message decrypts to the
/// plaintext that was sent. The bundle carries the public keys of the
/// responder's identity secret `ikb`, signed prekey secret `spkb` and, when
/// present, one-time prekey secret `otkb`; the initial message carries the
/// initiator's identity key and ephemeral key.
pub proof fn law_dm_session_roundtrip(
    ika: Seq<u8>,
    ikb: Seq<u8>,
    spkb: Seq<u8>,
    otkb: Option<Seq<u8>>,
    eka: Seq<u8>,
    dhs: Seq<u8>,
    pt: Seq<u8>,
    h: crate::ratchet::HeaderView,
    ct: Seq<u8>,
    fresh: Seq<u8>,
)
    requires
        ika.len() == 32,
        ikb.len() == 32,
        spkb.len() == 32,
        eka.len() == 32,
        otkb matches Some(o) ==> o.len() == 32,
        dh_agrees(spkb),
        dh_agrees(eka),
        ({
            let sk = x3dh_secret(initiator_dh(ika, x25519_public_key(ikb), x25519_public_key(spkb), eka,
                match otkb { Some(o) => Some(x25519_public_key(o)), None => None }));
            let alice = spec_init_alice(sk, x25519_public_key(spkb), dhs);
            &&& spec_encrypt(alice, pt).1 == Ok::<(crate::ratchet::HeaderView, Seq<u8>), RatchetFault>((h, ct))
            &&& sent_by(alice, pt, h, ct)
        }),
    ensures
        spec_decrypt(
            spec_init_bob(x3dh_secret(responder_dh(ikb, spkb, otkb, x25519_public_key(ika), x25519_public_key(eka))), spkb),
            h,
            ct,
            fresh,
        ).1 == Ok::<Seq<u8>, RatchetFault>(pt),
{
    law_x3dh_agreement(ika, ikb, spkb, eka, otkb);
    let sk = x3dh_secret(initiator_dh(ika, x25519_public_key(ikb), x25519_public_key(spkb), eka,
        match otkb { Some(o) => Some(x25519_public_key(o)), None => None }));
    law_first_message_decrypts(sk, spkb, dhs, pt, h, ct, fresh);
}

} // verus!
