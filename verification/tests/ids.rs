use atlas_schema::{process_uid, process_uid_from_digest, process_uid_preimage, BootId, DeviceUid, EventId, ProcessUid};

fn seq(start: u8) -> [u8; 16] {
    std::array::from_fn(|i| start + i as u8)
}

#[test]
fn uid_display_is_lowercase_hex() {
    let id = DeviceUid::from_bytes(seq(0xf0));
    assert_eq!(id.to_string(), "f0f1f2f3f4f5f6f7f8f9fafbfcfdfeff");
    assert_eq!(id.to_debug_string(), "DeviceUid(f0f1f2f3f4f5f6f7f8f9fafbfcfdfeff)");
}

#[test]
fn other_uids_display_as_hex_too() {
    assert_eq!(BootId::from_bytes([0; 16]).to_string(), "00000000000000000000000000000000");
    assert_eq!(ProcessUid::from_bytes(seq(0x0a)).to_debug_string(), "ProcessUid(0a0b0c0d0e0f10111213141516171819)");
    assert_eq!(BootId::from_bytes(seq(0x10)).to_debug_string(), "BootId(101112131415161718191a1b1c1d1e1f)");
}

#[test]
fn event_id_new_is_v7() {
    let id = EventId::new_v7();
    assert!(EventId::from_uuid(id.as_uuid()).is_some());
}

#[test]
fn event_id_rejects_non_v7() {
    assert!(EventId::from_uuid(*uuid::Uuid::nil().as_bytes()).is_none());
    let v4 = uuid::Uuid::from_bytes([
        0x11, 0x11, 0x11, 0x11, 0x11, 0x11, 0x41, 0x11, 0x81, 0x11, 0x11, 0x11, 0x11, 0x11, 0x11, 0x11,
    ]);
    assert_eq!(v4.get_version_num(), 4);
    assert!(EventId::from_uuid(*v4.as_bytes()).is_none());
}

#[test]
fn event_id_needs_the_rfc_variant() {
    let mut b = [0x01, 0x92, 0x2a, 0x6e, 0x5b, 0x00, 0x70, 0x00, 0x80, 0x00, 0x00, 0x00, 0x00, 0x00, 0x00, 0x01];
    let id = EventId::from_uuid(b).expect("v7, RFC variant");
    assert_eq!(id.as_bytes(), &b);
    assert_eq!(id.to_string(), "01922a6e-5b00-7000-8000-000000000001");
    b[8] = 0xc0; // Microsoft variant
    assert!(EventId::from_uuid(b).is_none());
    b[8] = 0x40; // NCS variant
    assert!(EventId::from_uuid(b).is_none());
}

#[test]
fn event_id_text_matches_uuid_crate() {
    let id = EventId::new_v7();
    assert_eq!(id.to_string(), uuid::Uuid::from_bytes(id.as_uuid()).hyphenated().to_string());
}

/// Conformance vectors: any other implementation of the formula must
/// produce these exact outputs.
#[test]
fn process_uid_test_vectors() {
    let zero = process_uid(&DeviceUid::from_bytes([0; 16]), &BootId::from_bytes([0; 16]), 0);
    assert_eq!(zero.to_string(), "8a01e78b10f07bca76e121414f3c9f00");

    let v = process_uid(&DeviceUid::from_bytes(seq(0x00)), &BootId::from_bytes(seq(0x10)), 0x0001_0000_0000_002a);
    assert_eq!(v.to_string(), "b1e0e2e71592001f8cc1b00c7846432e");
}

#[test]
fn process_uid_depends_on_every_input() {
    let d = DeviceUid::from_bytes(seq(0x00));
    let b = BootId::from_bytes(seq(0x10));
    let base = process_uid(&d, &b, 42);
    assert_ne!(base, process_uid(&DeviceUid::from_bytes(seq(0x01)), &b, 42));
    assert_ne!(base, process_uid(&d, &BootId::from_bytes(seq(0x11)), 42));
    assert_ne!(base, process_uid(&d, &b, 43));
}

#[test]
fn process_uid_is_the_prefix_of_blake3_over_the_tagged_input() {
    let d = DeviceUid::from_bytes(seq(0x20));
    let b = BootId::from_bytes(seq(0x30));
    let mut input = b"atlas.process.v1".to_vec();
    input.extend_from_slice(d.as_bytes());
    input.extend_from_slice(b.as_bytes());
    input.extend_from_slice(&7u64.to_le_bytes());
    let digest = blake3::hash(&input);
    assert_eq!(process_uid(&d, &b, 7).as_bytes()[..], digest.as_bytes()[..16]);
}

#[test]
fn process_uid_preimage_is_tag_ids_and_little_endian_key() {
    let d = DeviceUid::from_bytes(seq(0x20));
    let b = BootId::from_bytes(seq(0x30));
    let input = process_uid_preimage(&d, &b, 0x0102_0304_0506_0708);
    assert_eq!(input.len(), 16 + 16 + 16 + 8);
    assert_eq!(&input[..16], b"atlas.process.v1");
    assert_eq!(&input[16..32], &seq(0x20));
    assert_eq!(&input[32..48], &seq(0x30));
    assert_eq!(&input[48..], &[0x08, 0x07, 0x06, 0x05, 0x04, 0x03, 0x02, 0x01]);
}

#[test]
fn process_uid_from_digest_keeps_the_first_sixteen_bytes() {
    let digest: [u8; 32] = std::array::from_fn(|i| 0xa0 + i as u8);
    let uid = process_uid_from_digest(&digest);
    assert_eq!(uid.as_bytes(), &seq(0xa0));
    assert_eq!(uid.to_string(), "a0a1a2a3a4a5a6a7a8a9aaabacadaeaf");
}
