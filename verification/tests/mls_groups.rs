use openmls::prelude::tls_codec::Deserialize;
use openmls::prelude::{MlsMessageBodyIn, MlsMessageIn};
use openmls_basic_credential::SignatureKeyPair;

use vocechat_e2ee::mls::facade::matching_member_leaves;
use vocechat_e2ee::mls::{MlsClient, MlsGroupState, MlsKeyPackage, MlsProcessed, MlsWelcome};

fn copy_signer(s: &SignatureKeyPair) -> SignatureKeyPair {
    serde_json::from_slice(&serde_json::to_vec(s).unwrap()).unwrap()
}

fn restore_group(g: &MlsGroupState) -> MlsGroupState {
    MlsGroupState::from_storage(copy_signer(g.signer()), &g.group_id(), g.storage_entries().unwrap()).unwrap()
}

fn restore_client(c: &MlsClient) -> MlsClient {
    MlsClient::from_storage(copy_signer(c.signer()), c.identity().to_vec(), c.storage_entries().unwrap()).unwrap()
}

#[test]
fn two_devices_join_and_exchange_application_message() {
    let alice = MlsClient::generate(b"alice-device").expect("alice credential");
    let mut bob = MlsClient::generate(b"bob-device").expect("bob credential");

    let mut alice_group = alice.create_group(b"opaque-group-id").expect("create group");
    let welcome = alice_group.add_member(bob.key_package().expect("bob key package")).expect("add bob");
    let mut bob_group = bob.join_group(&welcome).expect("join group");

    let encrypted = alice_group.encrypt_application(b"hello from alice").expect("encrypt application message");
    let wire_message = MlsMessageIn::tls_deserialize(&mut encrypted.as_slice()).expect("valid MLS wire message");
    assert!(matches!(wire_message.extract(), MlsMessageBodyIn::PrivateMessage(_)));
    let plaintext = bob_group.decrypt_application(&encrypted).expect("decrypt application message");

    assert_eq!(plaintext, b"hello from alice");
    assert!(bob_group.decrypt_application(&encrypted).is_err(), "replay rejected");
}

#[test]
fn group_state_roundtrips_without_changing_wire_behavior() {
    let alice = MlsClient::generate(b"alice-device").expect("alice credential");
    let mut bob = MlsClient::generate(b"bob-device").expect("bob credential");
    let mut alice_group = alice.create_group(b"persistent-group").expect("group");
    let welcome = alice_group.add_member(bob.key_package().expect("bob key package")).expect("add bob");
    let mut bob_group = bob.join_group(&welcome).expect("join group");

    let mut restored = restore_group(&alice_group);
    let encrypted = restored.encrypt_application(b"after restart").expect("encrypt after restore");

    assert_eq!(bob_group.decrypt_application(&encrypted).expect("decrypt"), b"after restart");
}

#[test]
fn tampering_is_rejected() {
    let alice = MlsClient::generate(b"alice-device").expect("alice credential");
    let mut bob = MlsClient::generate(b"bob-device").expect("bob credential");
    let mut alice_group = alice.create_group(b"tamper-group").expect("group");
    let welcome = alice_group.add_member(bob.key_package().expect("bob key package")).expect("add bob");
    let mut bob_group = bob.join_group(&welcome).expect("join group");
    let mut encrypted = alice_group.encrypt_application(b"authenticated").expect("encrypt");
    let last = encrypted.last_mut().expect("non-empty wire message");
    *last ^= 1;

    assert!(bob_group.decrypt_application(&encrypted).is_err());
}

#[test]
fn device_key_package_and_welcome_survive_binary_boundaries() {
    let alice = MlsClient::generate(b"alice-device").expect("alice credential");
    let bob = MlsClient::generate(b"bob-device").expect("bob credential");
    let mut bob = restore_client(&bob);
    let key_package = bob.key_package().expect("key package");
    let key_package = MlsKeyPackage::from_bytes(&key_package.to_bytes().expect("serialize key package"))
        .expect("deserialize key package");

    let mut alice_group = alice.create_group(b"binary-boundary").expect("group");
    let welcome = alice_group.add_member(key_package).expect("add member");
    let welcome = MlsWelcome::from_bytes(&welcome.to_bytes().expect("serialize welcome")).expect("deserialize welcome");
    let mut bob_group = bob.join_group(&welcome).expect("join");
    let message = alice_group.encrypt_application(b"portable").expect("encrypt");

    assert_eq!(bob_group.decrypt_application(&message).expect("decrypt"), b"portable");
}

#[test]
fn a_single_commit_adds_all_channel_devices() {
    let alice = MlsClient::generate(b"alice").unwrap();
    let mut bob = MlsClient::generate(b"bob").unwrap();
    let mut charlie = MlsClient::generate(b"charlie").unwrap();
    let packages = vec![bob.key_package().unwrap(), charlie.key_package().unwrap()];
    let mut alice_group = alice.create_group(b"channel").unwrap();
    let welcome = alice_group.add_members(packages).unwrap();
    let mut bob_group = bob.join_group(&welcome).unwrap();
    let mut charlie_group = charlie.join_group(&welcome).unwrap();
    assert_eq!(alice_group.member_identities().len(), 3);
    assert_eq!(bob_group.member_identities().len(), 3);
    let message = alice_group.encrypt_application(b"everyone").unwrap();

    assert_eq!(bob_group.decrypt_application(&message).unwrap(), b"everyone");
    assert_eq!(charlie_group.decrypt_application(&message).unwrap(), b"everyone");
}

#[test]
fn existing_members_process_commit_when_a_device_joins_later() {
    let alice = MlsClient::generate(b"alice").unwrap();
    let mut bob = MlsClient::generate(b"bob").unwrap();
    let mut charlie = MlsClient::generate(b"charlie").unwrap();
    let mut alice_group = alice.create_group(b"growing-channel").unwrap();
    let bob_welcome = alice_group.add_member(bob.key_package().unwrap()).unwrap();
    let mut bob_group = bob.join_group(&bob_welcome).unwrap();

    let admission = alice_group.add_members_with_commit(vec![charlie.key_package().unwrap()]).unwrap();
    let commit = MlsGroupState::admission_commit(&admission).to_vec();
    assert!(matches!(bob_group.process_message(&commit).unwrap(), MlsProcessed::Commit));
    let welcome = MlsGroupState::admission_welcome(admission);
    let mut charlie_group = charlie.join_group(&welcome).unwrap();
    let message = alice_group.encrypt_application(b"new epoch").unwrap();

    assert_eq!(bob_group.decrypt_application(&message).unwrap(), b"new epoch");
    assert_eq!(charlie_group.decrypt_application(&message).unwrap(), b"new epoch");
}

#[test]
fn removed_member_cannot_decrypt_the_next_epoch() {
    let alice = MlsClient::generate(b"alice").unwrap();
    let mut bob = MlsClient::generate(b"bob").unwrap();
    let mut charlie = MlsClient::generate(b"charlie").unwrap();
    let mut alice_group = alice.create_group(b"removal-channel").unwrap();
    let welcome = alice_group
        .add_members(vec![bob.key_package().unwrap(), charlie.key_package().unwrap()])
        .unwrap();
    let mut bob_group = bob.join_group(&welcome).unwrap();
    let mut charlie_group = charlie.join_group(&welcome).unwrap();

    let commit = alice_group.remove_identities(&[b"charlie".to_vec()]).unwrap();
    assert!(matches!(bob_group.process_message(&commit).unwrap(), MlsProcessed::Commit));
    let _ = charlie_group.process_message(&commit);
    let message = alice_group.encrypt_application(b"after removal").unwrap();

    assert_eq!(bob_group.decrypt_application(&message).unwrap(), b"after removal");
    assert!(charlie_group.decrypt_application(&message).is_err());
}

#[test]
fn adding_no_key_packages_is_refused() {
    let alice = MlsClient::generate(b"alice").unwrap();
    let mut group = alice.create_group(b"g").unwrap();
    let err = group.add_members_with_commit(vec![]).err().unwrap();
    assert_eq!(err.0, "at least one KeyPackage is required");
}

#[test]
fn removing_unknown_identity_is_refused_and_epoch_advances_on_commit() {
    let alice = MlsClient::generate(b"alice").unwrap();
    let mut bob = MlsClient::generate(b"bob").unwrap();
    let mut group = alice.create_group(b"g2").unwrap();
    assert_eq!(group.epoch(), 0);
    group.add_member(bob.key_package().unwrap()).unwrap();
    assert_eq!(group.epoch(), 1);
    let err = group.remove_identities(&[b"nobody".to_vec()]).err().unwrap();
    assert_eq!(err.0, "no matching MLS members to remove");
    let mut ids = group.member_identities();
    ids.sort();
    assert_eq!(ids, vec![b"alice".to_vec(), b"bob".to_vec()]);
}

#[test]
fn welcome_bundle_with_trailing_bytes_is_refused() {
    let alice = MlsClient::generate(b"alice").unwrap();
    let mut bob = MlsClient::generate(b"bob").unwrap();
    let mut group = alice.create_group(b"g3").unwrap();
    let welcome = group.add_member(bob.key_package().unwrap()).unwrap();
    let mut bytes = welcome.to_bytes().unwrap();
    bytes.push(0);
    assert_eq!(MlsWelcome::from_bytes(&bytes).err().unwrap().0, "trailing Welcome bundle bytes");
    assert!(MlsKeyPackage::from_bytes(b"garbage").is_err());
}

#[test]
fn member_leaves_are_selected_by_identity() {
    let members = vec![(0u32, b"a".to_vec()), (1, b"b".to_vec()), (2, b"c".to_vec()), (3, b"b".to_vec())];
    assert_eq!(matching_member_leaves(&members, &[b"b".to_vec(), b"z".to_vec()]), vec![1, 3]);
    assert!(matching_member_leaves(&members, &[]).is_empty());
}

#[test]
fn created_group_holds_only_its_creator_and_keeps_its_id() {
    let alice = MlsClient::generate(b"alice").unwrap();
    let mut group = alice.create_group(b"room-1").unwrap();
    assert_eq!(group.group_id(), b"room-1".to_vec());
    assert_eq!(group.epoch(), 0);
    assert_eq!(group.member_identities(), vec![b"alice".to_vec()]);

    let err = group.remove_identities(&[b"nobody".to_vec()]).unwrap_err();
    assert_eq!(err.0, "no matching MLS members to remove");
    assert_eq!(group.epoch(), 0);

    let _ = group.encrypt_application(b"hello").unwrap();
    assert_eq!(group.epoch(), 0);
    assert_eq!(group.group_id(), b"room-1".to_vec());
    assert_eq!(group.member_identities(), vec![b"alice".to_vec()]);
}

#[test]
fn a_fresh_group_encrypts_and_a_removal_keeps_it_operational() {
    let alice = MlsClient::generate(b"alice-device").expect("alice credential");
    let mut bob = MlsClient::generate(b"bob-device").expect("bob credential");
    let mut alice_group = alice.create_group(b"ops-group").expect("create group");
    assert!(alice_group.encrypt_application(b"alone").is_ok());
    alice_group.add_member(bob.key_package().expect("bob key package")).expect("add bob");
    assert_eq!(alice_group.member_identities(), vec![b"alice-device".to_vec(), b"bob-device".to_vec()]);
    let epoch = alice_group.epoch();
    alice_group.remove_identities(&[b"bob-device".to_vec()]).expect("remove bob");
    assert_eq!(alice_group.epoch(), epoch + 1);
    assert_eq!(alice_group.member_identities(), vec![b"alice-device".to_vec()]);
    assert!(alice_group.encrypt_application(b"after removal").is_ok());
}
