use bolt12_payer_proof::tlv::{append_raw_tlv_record, last_tlv_type, scan_tlv_stream};

/// The BigSize encoding of `value`: the bytes of an empty record of that
/// type, less the trailing zero length.
fn encoded(value: u64) -> Vec<u8> {
    let mut bytes = Vec::new();
    append_raw_tlv_record(&mut bytes, value, &[]);
    assert_eq!(bytes.pop(), Some(0));
    bytes
}

#[test]
fn bigsize_encodings_by_size() {
    assert_eq!(encoded(0), vec![0x00]);
    assert_eq!(encoded(0xfc), vec![0xfc]);
    assert_eq!(encoded(0xfd), vec![0xfd, 0x00, 0xfd]);
    assert_eq!(encoded(0xffff), vec![0xfd, 0xff, 0xff]);
    assert_eq!(encoded(0x10000), vec![0xfe, 0x00, 0x01, 0x00, 0x00]);
    assert_eq!(encoded(0xffff_ffff), vec![0xfe, 0xff, 0xff, 0xff, 0xff]);
    assert_eq!(
        encoded(0x1_0000_0000),
        vec![0xff, 0x00, 0x00, 0x00, 0x01, 0x00, 0x00, 0x00, 0x00]
    );
    assert_eq!(
        encoded(3_000_000_001),
        vec![0xfe, 0xb2, 0xd0, 0x5e, 0x01]
    );
}

#[test]
fn bigsize_round_trip() {
    for value in [0u64, 1, 0xfc, 0xfd, 0x1234, 0xffff, 0x10000, 0xdead_beef, 0x1_0000_0000, u64::MAX] {
        let mut bytes = encoded(value);
        bytes.extend_from_slice(&[3, 7, 7, 7]);
        assert_eq!(scan_tlv_stream(&bytes), Some(Some(value)));
    }
}

#[test]
fn bigsize_rejects_short_and_non_minimal() {
    // a type cut short
    assert_eq!(scan_tlv_stream(&[0xfd, 0x01]), None);
    // non-minimal encodings of a type
    assert_eq!(scan_tlv_stream(&[0xfd, 0x00, 0xfc, 0]), None);
    assert_eq!(scan_tlv_stream(&[0xfe, 0x00, 0x00, 0xff, 0xff, 0]), None);
    assert_eq!(scan_tlv_stream(&[0xff, 0, 0, 0, 0, 0xff, 0xff, 0xff, 0xff, 0]), None);
    // a minimal three-byte type after a first record
    assert_eq!(scan_tlv_stream(&[9, 0, 0xfd, 0x01, 0x00, 0]), Some(Some(0x100)));
}

#[test]
fn last_type_of_streams() {
    assert_eq!(last_tlv_type(&[]), None);
    // type 1, length 2; type 3, length 0
    assert_eq!(last_tlv_type(&[1, 2, 0xaa, 0xbb, 3, 0]), Some(3));
    // a record whose value runs past the end still counts as read
    assert_eq!(last_tlv_type(&[5, 10, 0xaa]), Some(5));
}

#[test]
fn scan_refuses_unreadable_streams() {
    assert_eq!(scan_tlv_stream(&[]), Some(None));
    assert_eq!(scan_tlv_stream(&[1]), None);
    assert_eq!(scan_tlv_stream(&[0xfd, 0x00]), None);
    assert_eq!(scan_tlv_stream(&[1, 0, 2, 0xfd]), None);
    assert_eq!(scan_tlv_stream(&[1, 0, 2, 0]), Some(Some(2)));
}

#[test]
fn append_record_becomes_last() {
    let mut bytes = vec![1, 2, 0xaa, 0xbb];
    append_raw_tlv_record(&mut bytes, 3_000_000_001, b"experimental-payer-proof-field");
    let mut expected = vec![1, 2, 0xaa, 0xbb, 0xfe, 0xb2, 0xd0, 0x5e, 0x01, 30];
    expected.extend_from_slice(b"experimental-payer-proof-field");
    assert_eq!(bytes, expected);
    assert_eq!(last_tlv_type(&bytes), Some(3_000_000_001));
}

#[test]
fn append_to_empty_stream() {
    let mut bytes = Vec::new();
    append_raw_tlv_record(&mut bytes, 7, &[]);
    assert_eq!(bytes, vec![7, 0]);
    assert_eq!(last_tlv_type(&bytes), Some(7));
}
