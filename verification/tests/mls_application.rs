use std::collections::BTreeMap;

use vocechat_e2ee::mls::application::{ApplicationPayload, PayloadKind};
use vocechat_e2ee::mls::framing::{decode_welcome_bundle, encode_welcome_bundle};
use vocechat_e2ee::mls::MlsError;

#[test]
fn canonical_numeric_cbor_roundtrips_without_branded_fields() {
    let payload = ApplicationPayload {
        kind: PayloadKind::Text,
        body: b"hello".to_vec(),
        metadata: BTreeMap::from([(1, b"text/plain".to_vec()), (2, 42_u64.to_be_bytes().to_vec())]),
    };

    let encoded = payload.encode_padded().expect("encode");
    assert!(encoded.len().is_power_of_two());
    assert!(encoded.len() >= 256);
    for forbidden in [b"ver".as_slice(), b"chat".as_slice(), b"vocechat".as_slice()] {
        assert!(!encoded.windows(forbidden.len()).any(|window| window == forbidden));
    }

    assert_eq!(ApplicationPayload::decode_padded(&encoded).expect("decode"), payload);
}

#[test]
fn malformed_lengths_and_unknown_kinds_are_rejected() {
    assert!(ApplicationPayload::decode_padded(&[0, 0, 0, 10, 1]).is_err());
    assert!(ApplicationPayload::decode_padded(&[0; 256]).is_err());
}

#[test]
fn v2_application_kind_numbers_are_stable() {
    assert_eq!(PayloadKind::Text.to_u8(), 1);
    assert_eq!(PayloadKind::Reply.to_u8(), 2);
    assert_eq!(PayloadKind::Edit.to_u8(), 3);
    assert_eq!(PayloadKind::Reaction.to_u8(), 4);
    assert_eq!(PayloadKind::File.to_u8(), 5);
    assert_eq!(PayloadKind::Image.to_u8(), 6);
    assert_eq!(PayloadKind::Voice.to_u8(), 7);
    assert_eq!(PayloadKind::Markdown.to_u8(), 8);
    assert_eq!(PayloadKind::Delete.to_u8(), 9);
    assert_eq!(PayloadKind::Revoke.to_u8(), 10);
    assert_eq!(PayloadKind::MembershipNotice.to_u8(), 11);
}

#[test]
fn v2_markdown_payload_round_trips_with_padding() {
    let payload = ApplicationPayload {
        kind: PayloadKind::Markdown,
        body: b"**encrypted markdown**".to_vec(),
        metadata: BTreeMap::from([(1_u16, b"text/markdown".to_vec())]),
    };
    let encoded = payload.encode_padded().unwrap();
    assert_eq!(encoded.len(), 256);
    assert_eq!(ApplicationPayload::decode_padded(&encoded).unwrap(), payload);
}

#[test]
fn payload_kind_numbers_round_trip_and_unknown_is_refused() {
    for n in 1u8..=11 {
        assert_eq!(PayloadKind::try_from(n).unwrap().to_u8(), n);
    }
    assert!(PayloadKind::try_from(0).is_err());
    assert!(PayloadKind::try_from(12).is_err());
}

#[test]
fn canonical_cbor_bytes_are_exact() {
    let payload = ApplicationPayload {
        kind: PayloadKind::Text,
        body: b"hi".to_vec(),
        metadata: BTreeMap::from([(1, b"t".to_vec())]),
    };
    // map(3) { 0: 1, 1: h'6869', 2: map(1) { 1: h'74' } }
    assert_eq!(
        payload.encode_canonical(),
        vec![0xa3, 0x00, 0x01, 0x01, 0x42, b'h', b'i', 0x02, 0xa1, 0x01, 0x41, b't']
    );
    let padded = payload.encode_padded().unwrap();
    assert_eq!(&padded[0..4], &[0, 0, 0, 12]);
    assert_eq!(padded.len(), 256);
}

#[test]
fn canonical_cbor_matches_minicbor_reading() {
    let payload = ApplicationPayload {
        kind: PayloadKind::Reply,
        body: vec![9u8; 300],
        metadata: BTreeMap::from([(3, vec![1, 2, 3]), (700, vec![])]),
    };
    let bytes = payload.encode_canonical();
    let mut d = minicbor::Decoder::new(&bytes);
    assert_eq!(d.map().unwrap(), Some(3));
    assert_eq!(d.u8().unwrap(), 0);
    assert_eq!(d.u8().unwrap(), 2);
    assert_eq!(d.u8().unwrap(), 1);
    assert_eq!(d.bytes().unwrap(), vec![9u8; 300].as_slice());
    assert_eq!(d.u8().unwrap(), 2);
    assert_eq!(d.map().unwrap(), Some(2));
    assert_eq!(d.u16().unwrap(), 3);
    assert_eq!(d.bytes().unwrap(), &[1u8, 2, 3]);
    assert_eq!(d.u16().unwrap(), 700);
    assert_eq!(d.bytes().unwrap(), &[] as &[u8]);
}

#[test]
fn padded_decode_refuses_trailing_garbage_inside_frame() {
    let payload = ApplicationPayload { kind: PayloadKind::Text, body: vec![], metadata: BTreeMap::new() };
    let mut padded = payload.encode_padded().unwrap();
    let len = u32::from_be_bytes([padded[0], padded[1], padded[2], padded[3]]);
    padded[3] = (len + 1) as u8;
    assert!(ApplicationPayload::decode_padded(&padded).is_err());
    assert!(ApplicationPayload::decode_padded(&padded[..255]).is_err());
}

#[test]
fn metadata_is_encoded_in_key_order() {
    let mut p = ApplicationPayload { kind: PayloadKind::File, body: vec![], metadata: BTreeMap::new() };
    p.metadata.insert(5, vec![5]);
    p.metadata.insert(1, vec![1]);
    p.metadata.insert(3, vec![3]);
    p.metadata.insert(1, vec![9]);
    let decoded = ApplicationPayload::decode_padded(&p.encode_padded().unwrap()).unwrap();
    assert_eq!(decoded.metadata.into_iter().collect::<Vec<_>>(), vec![(1, vec![9]), (3, vec![3]), (5, vec![5])]);
}

#[test]
fn padded_size_is_smallest_power_of_two_bucket() {
    let small = ApplicationPayload { kind: PayloadKind::Text, body: vec![1u8; 200], metadata: BTreeMap::new() };
    assert_eq!(small.encode_padded().unwrap().len(), 256);
    let medium = ApplicationPayload { kind: PayloadKind::Text, body: vec![1u8; 300], metadata: BTreeMap::new() };
    assert_eq!(medium.encode_padded().unwrap().len(), 512);
    let huge = ApplicationPayload { kind: PayloadKind::Text, body: vec![1u8; 1048576], metadata: BTreeMap::new() };
    assert!(huge.encode_padded().is_err());
}

#[test]
fn welcome_bundle_round_trips_and_refuses_truncation() {
    let bytes = encode_welcome_bundle(b"welcome", b"tree").unwrap();
    assert_eq!(&bytes[0..4], &[0, 0, 0, 7]);
    assert_eq!(decode_welcome_bundle(&bytes).unwrap(), (b"welcome".to_vec(), b"tree".to_vec()));
    assert!(decode_welcome_bundle(&bytes[..bytes.len() - 1]).is_err());
    let mut extra = bytes.clone();
    extra.push(0);
    assert!(decode_welcome_bundle(&extra).is_err());
}

#[test]
fn mls_error_message() {
    assert_eq!(MlsError::msg("boom").to_string(), "MLS operation failed: boom");
}
