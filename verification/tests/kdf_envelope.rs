use vocechat_e2ee::envelope::{E2eVersion, ReplayWindow};
use vocechat_e2ee::error::E2eError;
use vocechat_e2ee::kdf::{hkdf_sha256, kdf_ck, kdf_rk, kdf_x3dh};

fn reference_hkdf(ikm: &[u8], salt: &[u8], info: &[u8], len: usize) -> Vec<u8> {
    let hk = hkdf::Hkdf::<sha2::Sha256>::new(Some(salt), ikm);
    let mut out = vec![0u8; len];
    hk.expand(info, &mut out).unwrap();
    out
}

#[test]
fn hkdf_matches_rfc5869_case_1() {
    let ikm = [0x0bu8; 22];
    let salt: Vec<u8> = (0u8..=12).collect();
    let info: Vec<u8> = (0xf0u8..=0xf9).collect();
    let okm = hkdf_sha256(&ikm, &salt, &info, 42).unwrap();
    assert_eq!(
        okm[..8],
        [0x3c, 0xb2, 0x5f, 0x25, 0xfa, 0xac, 0xd5, 0x7a]
    );
    assert_eq!(okm.len(), 42);
}

#[test]
fn hkdf_refuses_overlong_output() {
    assert!(hkdf_sha256(b"k", b"", b"", 255 * 32).is_ok());
    assert!(matches!(hkdf_sha256(b"k", b"", b"", 255 * 32 + 1), Err(E2eError::InvalidKey(_))));
}

#[test]
fn chain_and_root_kdf_split_the_okm() {
    let ck = [4u8; 32];
    let (mk, next) = kdf_ck(&ck).unwrap();
    let okm = reference_hkdf(&ck, &[], b"VoceChat_DR_Chain_v2", 64);
    assert_eq!(mk.as_slice(), &okm[..32]);
    assert_eq!(next.as_slice(), &okm[32..]);
    let (rk, ckr) = kdf_rk(&[1u8; 32], &[2u8; 32]).unwrap();
    let okm = reference_hkdf(&[2u8; 32], &[1u8; 32], b"VoceChat_DR_Root_v2", 64);
    assert_eq!(rk.as_slice(), &okm[..32]);
    assert_eq!(ckr.as_slice(), &okm[32..]);
}

#[test]
fn x3dh_kdf_prefixes_ff_bytes() {
    let dh = [9u8; 96];
    let mut ikm = vec![0xffu8; 32];
    ikm.extend_from_slice(&dh);
    let expected = reference_hkdf(&ikm, &[], b"VoceChat_X3DH_v2", 32);
    assert_eq!(kdf_x3dh(&dh).unwrap().as_slice(), expected.as_slice());
}

#[test]
fn versions_round_trip_and_unknown_is_refused() {
    assert_eq!(E2eVersion::try_from(1).unwrap(), E2eVersion::V1);
    assert_eq!(E2eVersion::try_from(2).unwrap().to_u8(), 2);
    assert_eq!(E2eVersion::try_from(3), Err(E2eError::UnsupportedVersion(3)));
}

#[test]
fn replay_window_refuses_repeats_and_forgets_when_full() {
    let mut w = ReplayWindow::new(2);
    assert!(w.check_and_record("a".to_string()).is_ok());
    assert_eq!(w.check_and_record("a".to_string()), Err(E2eError::Replay(0)));
    assert!(w.check_and_record("b".to_string()).is_ok());
    assert!(w.check_and_record("c".to_string()).is_ok());
    assert!(w.check_and_record("a".to_string()).is_ok());
    assert_eq!(w.check_and_record("c".to_string()), Err(E2eError::Replay(0)));
}
