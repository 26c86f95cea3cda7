use vocechat_e2ee::password_hash::{
    double_md5_hex, hash, hex_encode, looks_like_argon2id, looks_like_double_md5, verify, verify_and_upgrade,
};

#[test]
fn argon2id_round_trip() {
    let hashed = hash("correct horse battery staple").expect("hash should succeed");
    assert!(looks_like_argon2id(&hashed));
    assert!(verify("correct horse battery staple", &hashed));
}

#[test]
fn argon2id_wrong_password_rejects() {
    let hashed = hash("correct horse battery staple").expect("hash should succeed");
    assert!(!verify("wrong password", &hashed));
}

#[test]
fn double_md5_matches_known_vector() {
    assert_eq!(double_md5_hex("dc950713"), "a75fc917c14138b831247f93fc38bb0b");
}

#[test]
fn looks_like_double_md5_detects_legacy_format() {
    assert!(looks_like_double_md5("a75fc917c14138b831247f93fc38bb0b"));
    assert!(!looks_like_double_md5("A75FC917C14138B831247F93FC38BB0B"));
    assert!(!looks_like_double_md5("not-a-hex-string"));
    assert!(!looks_like_double_md5("$argon2id$v=19$m=19456,t=2,p=1$c2FsdHNhbHQ$aGFzaGhhc2g"));
}

#[test]
fn looks_like_argon2id_detects_phc_prefix() {
    assert!(looks_like_argon2id("$argon2id$v=19$m=19456,t=2,p=1$c2FsdHNhbHQ$aGFzaGhhc2g"));
    assert!(!looks_like_argon2id("a75fc917c14138b831247f93fc38bb0b"));
    assert!(!looks_like_argon2id("plaintext"));
}

#[test]
fn verify_and_upgrade_accepts_legacy_double_md5_and_upgrades() {
    let stored = double_md5_hex("dc950713");
    let outcome = verify_and_upgrade("dc950713", &stored);
    assert!(outcome.matched);
    let upgraded = outcome.upgraded_hash.expect("should produce an upgrade hash");
    assert!(looks_like_argon2id(&upgraded));
    assert!(verify("dc950713", &upgraded));
}

#[test]
fn verify_and_upgrade_rejects_wrong_password_for_legacy_double_md5() {
    let stored = double_md5_hex("dc950713");
    let outcome = verify_and_upgrade("wrong-password", &stored);
    assert!(!outcome.matched);
    assert!(outcome.upgraded_hash.is_none());
}

#[test]
fn verify_and_upgrade_rejects_stored_hash_as_password_for_legacy_double_md5() {
    let stored = double_md5_hex("dc950713");
    let outcome = verify_and_upgrade(&stored, &stored);
    assert!(!outcome.matched, "submitting the stored hash as the password must be rejected");
    assert!(outcome.upgraded_hash.is_none());
}

#[test]
fn verify_and_upgrade_accepts_plaintext_equality_and_upgrades() {
    let outcome = verify_and_upgrade("some-plain-password", "some-plain-password");
    assert!(outcome.matched);
    let upgraded = outcome.upgraded_hash.expect("should produce an upgrade hash");
    assert!(looks_like_argon2id(&upgraded));
}

#[test]
fn verify_and_upgrade_matches_argon2id_without_reupgrading() {
    let stored = hash("already-migrated").unwrap();
    let outcome = verify_and_upgrade("already-migrated", &stored);
    assert!(outcome.matched);
    assert!(outcome.upgraded_hash.is_none());
}

#[test]
fn verify_and_upgrade_rejects_wrong_password_for_argon2id() {
    let stored = hash("already-migrated").unwrap();
    let outcome = verify_and_upgrade("nope", &stored);
    assert!(!outcome.matched);
    assert!(outcome.upgraded_hash.is_none());
}

#[test]
fn verify_refuses_unparsable_hash() {
    assert!(!verify("x", "$argon2id$garbage"));
    let outcome = verify_and_upgrade("x", "$argon2id$garbage");
    assert!(!outcome.matched);
}

#[test]
fn hex_encoding_is_lowercase_two_digits_per_byte() {
    assert_eq!(hex_encode(&[0x00, 0x0f, 0xa5, 0xff]), "000fa5ff");
    assert_eq!(double_md5_hex(""), "74be16979710d4c4e7c6647856088456");
}

#[test]
fn plaintext_mismatch_is_not_upgraded() {
    let outcome = verify_and_upgrade("a", "b");
    assert!(!outcome.matched);
    assert!(outcome.upgraded_hash.is_none());
}
