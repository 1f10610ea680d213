//! Tests of the frame codec: firmware versions, telemetry readings and
//! ASCII identifiers.

use iqos_ble::error::IqosError;
use iqos_ble::firmware::{FirmwareKind, FirmwareVersion};
use iqos_ble::identifier::{
    decode_ascii_identifier, HOLDER_PRODUCT_NUM_PREFIX, PRODUCT_NUM_PREFIX,
};
use iqos_ble::telemetry::Telemetry;

#[test]
fn stick_firmware_response_decodes_end_to_end() {
    let bytes = [
        0x00u8, 0xC0, 0x88, 0x00, 0x00, 0x00, 0x02, 0x05, 0x0A, 0x07, 0x55, 0xAA,
    ];
    let v = FirmwareVersion::from_bytes(&bytes, FirmwareKind::Vape).unwrap();
    assert_eq!(v.major, 2);
    assert_eq!(v.minor, 5);
    assert_eq!(v.patch, 10);
    assert_eq!(v.year, 7);
}

#[test]
fn holder_firmware_response_uses_its_own_tag() {
    let bytes = [0x00u8, 0x08, 0x88, 0x00, 0x00, 0x00, 0x01, 0x02, 0x03, 0x04];
    let v = FirmwareVersion::from_bytes(&bytes, FirmwareKind::Holder).unwrap();
    assert_eq!((v.major, v.minor, v.patch, v.year), (1, 2, 3, 4));
    // The same frame is not a stick response.
    assert_eq!(
        FirmwareVersion::from_bytes(&bytes, FirmwareKind::Vape),
        Err(IqosError::ProtocolMismatch)
    );
}

#[test]
fn short_firmware_buffer_fails_with_length_condition() {
    let bytes = [0x00u8, 0xC0, 0x88, 0x00, 0x00, 0x00, 0x02, 0x05, 0x0A];
    assert_eq!(
        FirmwareVersion::from_bytes(&bytes, FirmwareKind::Vape),
        Err(IqosError::FrameTooShort { expected_min: 10 })
    );
    assert_eq!(
        FirmwareVersion::from_bytes(&[], FirmwareKind::Vape),
        Err(IqosError::FrameTooShort { expected_min: 10 })
    );
}

#[test]
fn mismatched_firmware_header_fails_regardless_of_fields() {
    let good = [0x00u8, 0xC0, 0x88, 0x00, 0x00, 0x00, 0x02, 0x05, 0x0A, 0x07];
    for i in 0..4 {
        let mut bad = good;
        bad[i] = bad[i].wrapping_add(1);
        assert_eq!(
            FirmwareVersion::from_bytes(&bad, FirmwareKind::Vape),
            Err(IqosError::ProtocolMismatch),
            "header byte {i} mismatch must be rejected"
        );
    }
}

#[test]
fn firmware_roundtrip_recovers_arbitrary_fields() {
    for &(major, minor, patch, year) in
        &[(0u8, 0u8, 0u8, 0u8), (255, 254, 253, 252), (1, 0, 9, 25)]
    {
        let bytes = [0x00, 0xC0, 0x88, 0x00, 0x99, 0x99, major, minor, patch, year];
        let v = FirmwareVersion::from_bytes(&bytes, FirmwareKind::Vape).unwrap();
        assert_eq!((v.major, v.minor, v.patch, v.year), (major, minor, patch, year));
    }
}

#[test]
fn telemetry_decodes_usage_count() {
    let mut bytes = [0u8; 12];
    bytes[2] = 0x90;
    bytes[3] = 0x22;
    bytes[10] = 0x34;
    bytes[11] = 0x12;
    let t = Telemetry::from_bytes(&bytes).unwrap();
    assert_eq!(t.total_usage_count, 0x1234);
    assert_eq!(t.usage_period, 0);
}

#[test]
fn telemetry_rejects_short_and_foreign_buffers() {
    assert_eq!(
        Telemetry::from_bytes(&[0u8; 11]),
        Err(IqosError::FrameTooShort { expected_min: 12 })
    );
    let mut bytes = [0u8; 12];
    bytes[2] = 0x90;
    bytes[3] = 0x23;
    assert_eq!(Telemetry::from_bytes(&bytes), Err(IqosError::ProtocolMismatch));
}

#[test]
fn telemetry_new_is_zeroed() {
    let t = Telemetry::new();
    assert_eq!(t.total_usage_count, 0);
    assert_eq!(t.usage_period, 0);
}

#[test]
fn stick_identifier_drops_trailing_byte() {
    let mut bytes = Vec::new();
    bytes.extend_from_slice(&PRODUCT_NUM_PREFIX);
    bytes.extend_from_slice(b"ABC123");
    bytes.push(0xDD); // checksum-like trailing byte of the stick frame
    let text = decode_ascii_identifier(&bytes, &PRODUCT_NUM_PREFIX, true)
        .unwrap()
        .unwrap();
    assert_eq!(text, "ABC123");
}

#[test]
fn holder_identifier_keeps_last_byte() {
    let mut bytes = Vec::new();
    bytes.extend_from_slice(&HOLDER_PRODUCT_NUM_PREFIX);
    bytes.extend_from_slice(b"HLD9");
    let text = decode_ascii_identifier(&bytes, &HOLDER_PRODUCT_NUM_PREFIX, false)
        .unwrap()
        .unwrap();
    assert_eq!(text, "HLD9");
}

#[test]
fn identifier_replaces_unprintable_bytes_with_dots() {
    let mut bytes = Vec::new();
    bytes.extend_from_slice(&PRODUCT_NUM_PREFIX);
    bytes.extend_from_slice(&[b'A', 0x00, 0x1F, 0x7F, 0xFF, b'Z']);
    let text = decode_ascii_identifier(&bytes, &PRODUCT_NUM_PREFIX, false)
        .unwrap()
        .unwrap();
    assert_eq!(text, "A....Z");
}

#[test]
fn identifier_filter_is_idempotent_on_content() {
    let mut bytes = Vec::new();
    bytes.extend_from_slice(&PRODUCT_NUM_PREFIX);
    bytes.extend_from_slice(&[0x02, b'Q', 0x9C]);
    let once = decode_ascii_identifier(&bytes, &PRODUCT_NUM_PREFIX, false)
        .unwrap()
        .unwrap();
    let mut again = Vec::new();
    again.extend_from_slice(&PRODUCT_NUM_PREFIX);
    again.extend_from_slice(once.as_bytes());
    let twice = decode_ascii_identifier(&again, &PRODUCT_NUM_PREFIX, false)
        .unwrap()
        .unwrap();
    assert_eq!(once, twice);
}

#[test]
fn identifier_with_foreign_prefix_yields_no_text() {
    let mut bytes = Vec::new();
    bytes.extend_from_slice(&HOLDER_PRODUCT_NUM_PREFIX);
    bytes.extend_from_slice(b"XYZ");
    assert_eq!(
        decode_ascii_identifier(&bytes, &PRODUCT_NUM_PREFIX, true).unwrap(),
        None
    );
}

#[test]
fn identifier_is_total_on_any_buffer_of_prefix_length() {
    // Exactly the prefix: empty text, trailing-byte drop included.
    assert_eq!(
        decode_ascii_identifier(&PRODUCT_NUM_PREFIX, &PRODUCT_NUM_PREFIX, true).unwrap(),
        Some(String::new())
    );
    assert_eq!(
        decode_ascii_identifier(&PRODUCT_NUM_PREFIX, &PRODUCT_NUM_PREFIX, false).unwrap(),
        Some(String::new())
    );
}

#[test]
fn identifier_never_fails_on_buffers_of_prefix_length_or_more() {
    for len in 4usize..40 {
        let bytes: Vec<u8> = (0..len).map(|i| (i * 37) as u8).collect();
        assert!(decode_ascii_identifier(&bytes, &PRODUCT_NUM_PREFIX, true).is_ok());
        assert!(decode_ascii_identifier(&bytes, &PRODUCT_NUM_PREFIX, false).is_ok());
        assert!(decode_ascii_identifier(&bytes, &HOLDER_PRODUCT_NUM_PREFIX, false).is_ok());
    }
}

#[test]
fn identifier_shorter_than_prefix_fails_with_length_condition() {
    assert_eq!(
        decode_ascii_identifier(&[0x00, 0xC0, 0x88], &PRODUCT_NUM_PREFIX, true),
        Err(IqosError::FrameTooShort { expected_min: 4 })
    );
}
