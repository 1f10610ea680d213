//! Tests of model detection, the staged initializer and the device handle.

use iqos_ble::cmds;
use iqos_ble::error::{IqosError, MissingField};
use iqos_ble::identifier::HOLDER_PRODUCT_NUM_PREFIX;
use iqos_ble::initializer::IQOSBuilder;
use iqos_ble::model::IQOSModel;

#[test]
fn every_named_variant_is_reachable() {
    assert_eq!(
        IQOSModel::from_name(b"IQOS ILUMA i Prime"),
        IQOSModel::IlumaIPrime
    );
    assert_eq!(IQOSModel::from_name(b"IQOS ILUMA Prime"), IQOSModel::IlumaPrime);
    assert_eq!(IQOSModel::from_name(b"IQOS ILUMA i ONE"), IQOSModel::IlumaIOne);
    assert_eq!(IQOSModel::from_name(b"IQOS ILUMA ONE"), IQOSModel::IlumaOne);
    assert_eq!(IQOSModel::from_name(b"IQOS ILUMA i"), IQOSModel::IlumaI);
    assert_eq!(IQOSModel::from_name(b"IQOS ILUMA"), IQOSModel::Iluma);
}

#[test]
fn unrecognized_name_falls_back_to_the_generic_family() {
    assert_eq!(IQOSModel::from_name(b"SOME OTHER DEVICE"), IQOSModel::Iluma);
    assert_eq!(IQOSModel::from_name(b""), IQOSModel::Iluma);
}

#[test]
fn one_piece_detection_covers_both_generations() {
    assert!(IQOSModel::IlumaOne.is_iluma_one());
    assert!(IQOSModel::IlumaIOne.is_iluma_one());
    assert!(!IQOSModel::Iluma.is_iluma_one());
    assert!(!IQOSModel::IlumaI.is_iluma_one());
    assert!(!IQOSModel::IlumaPrime.is_iluma_one());
    assert!(!IQOSModel::IlumaIPrime.is_iluma_one());
}

fn stick_firmware_frame() -> Vec<u8> {
    vec![0x00, 0xC0, 0x88, 0x00, 0x00, 0x00, 0x02, 0x05, 0x0A, 0x07]
}

fn holder_firmware_frame() -> Vec<u8> {
    vec![0x00, 0x08, 0x88, 0x00, 0x00, 0x00, 0x01, 0x04, 0x07, 0x06]
}

fn holder_product_frame() -> Vec<u8> {
    let mut f = Vec::new();
    f.extend_from_slice(&HOLDER_PRODUCT_NUM_PREFIX);
    f.extend_from_slice(b"HOLDER42");
    f
}

fn ready_builder(name: &[u8]) -> IQOSBuilder {
    let mut b = IQOSBuilder::new();
    b.attach_peripheral();
    b.detect_model(name);
    b.set_serial_number("SN0001".to_string());
    b.resolve_battery_characteristic();
    b.resolve_control_characteristic();
    b.apply_firmware_response(&stick_firmware_frame()).unwrap();
    b
}

#[test]
fn build_fails_naming_the_first_missing_mandatory_field() {
    let b = IQOSBuilder::new();
    assert_eq!(
        b.build().unwrap_err(),
        IqosError::Configuration(MissingField::Peripheral)
    );

    let mut b = IQOSBuilder::new();
    b.attach_peripheral();
    assert_eq!(
        b.build().unwrap_err(),
        IqosError::Configuration(MissingField::Model)
    );

    let mut b = IQOSBuilder::new();
    b.attach_peripheral();
    b.detect_model(b"IQOS ILUMA");
    assert_eq!(
        b.build().unwrap_err(),
        IqosError::Configuration(MissingField::SerialNumber)
    );

    let mut b = IQOSBuilder::new();
    b.attach_peripheral();
    b.detect_model(b"IQOS ILUMA");
    b.set_serial_number("SN".to_string());
    assert_eq!(
        b.build().unwrap_err(),
        IqosError::Configuration(MissingField::BatteryCharacteristic)
    );

    let mut b = IQOSBuilder::new();
    b.attach_peripheral();
    b.detect_model(b"IQOS ILUMA");
    b.set_serial_number("SN".to_string());
    b.resolve_battery_characteristic();
    assert_eq!(
        b.build().unwrap_err(),
        IqosError::Configuration(MissingField::ControlCharacteristic)
    );

    let mut b = IQOSBuilder::new();
    b.attach_peripheral();
    b.detect_model(b"IQOS ILUMA");
    b.set_serial_number("SN".to_string());
    b.resolve_battery_characteristic();
    b.resolve_control_characteristic();
    assert_eq!(
        b.build().unwrap_err(),
        IqosError::Configuration(MissingField::FirmwareVersion)
    );
}

#[test]
fn missing_optional_identifiers_default_to_the_placeholder() {
    let device = ready_builder(b"IQOS ILUMA").build().unwrap();
    assert_eq!(device.modelnumber().as_str(), "Unknown");
    assert_eq!(device.softwarerevision().as_str(), "Unknown");
    assert_eq!(device.manufacturername().as_str(), "Unknown");
    assert_eq!(device.product_number().as_str(), "Unknown");
    assert_eq!(device.serialnumber().as_str(), "SN0001");
    assert_eq!(device.battery_status(), 0);
    let v = device.firmware_version();
    assert_eq!((v.major, v.minor, v.patch, v.year), (2, 5, 10, 7));
}

#[test]
fn two_piece_family_gets_a_holder_record() {
    let mut b = ready_builder(b"IQOS ILUMA");
    assert!(b.holder_info_required());
    b.load_holder_info(&holder_product_frame(), &holder_firmware_frame())
        .unwrap();
    let device = b.build().unwrap();
    let holder = device.holder().as_ref().expect("two-piece family must carry a holder record");
    assert_eq!(holder.holder_product_number().as_str(), "HOLDER42");
    let v = holder.firmware_version();
    assert_eq!((v.major, v.minor, v.patch, v.year), (1, 4, 7, 6));
}

#[test]
fn one_piece_family_skips_the_holder_stage() {
    let mut b = ready_builder(b"IQOS ILUMA ONE");
    assert!(!b.holder_info_required());
    // Even fed the holder responses, the stage does nothing for a one-piece
    // family.
    b.load_holder_info(&holder_product_frame(), &holder_firmware_frame())
        .unwrap();
    let device = b.build().unwrap();
    assert!(device.holder().is_none());
    assert!(device.is_one_piece());
}

#[test]
fn holder_stage_propagates_a_bad_firmware_frame() {
    let mut b = ready_builder(b"IQOS ILUMA");
    // Stick-tagged frame handed to the holder decoder: protocol mismatch.
    let r = b.load_holder_info(&holder_product_frame(), &stick_firmware_frame());
    assert_eq!(r, Err(IqosError::ProtocolMismatch));
    let device = b.build().unwrap();
    assert!(device.holder().is_none());
}

#[test]
fn product_number_stage_commits_the_decoded_text() {
    let mut b = ready_builder(b"IQOS ILUMA");
    let mut frame = vec![0x00, 0xC0, 0x88, 0x03];
    frame.extend_from_slice(b"PM1234");
    frame.push(0xEE); // trailing byte, not part of the text
    b.apply_product_number_response(&frame).unwrap();
    let device = b.build().unwrap();
    assert_eq!(device.product_number().as_str(), "PM1234");
}

#[test]
fn product_number_stage_skips_a_foreign_response() {
    let mut b = ready_builder(b"IQOS ILUMA");
    b.apply_product_number_response(&[0x00, 0x08, 0x88, 0x03, b'X'])
        .unwrap();
    let device = b.build().unwrap();
    assert_eq!(device.product_number().as_str(), "Unknown");
}

#[test]
fn battery_reload_reads_the_percentage_at_offset_two() {
    let mut device = ready_builder(b"IQOS ILUMA").build().unwrap();
    device.reload_battery_from(&[0x00, 0x00, 87]).unwrap();
    assert_eq!(device.battery_status(), 87);
    assert_eq!(
        device.reload_battery_from(&[0x00, 0x00]),
        Err(IqosError::FrameTooShort { expected_min: 3 })
    );
    assert_eq!(device.battery_status(), 87);
}

#[test]
fn model_predicates_follow_the_detected_family() {
    let device = ready_builder(b"IQOS ILUMA").build().unwrap();
    assert_eq!(device.model(), &IQOSModel::Iluma);
    assert!(device.is_iluma());
    assert!(device.is_iluma_or_higher());
    assert!(!device.is_iluma_i());
    assert!(device.as_iluma().is_some());
    assert!(device.as_iluma_i().is_none());

    let device = ready_builder(b"IQOS ILUMA i").build().unwrap();
    assert!(!device.is_iluma());
    assert!(device.is_iluma_or_higher());
    assert!(device.is_iluma_i());
    assert!(device.as_iluma().is_none());
    assert!(device.as_iluma_i().is_some());
}

#[test]
fn command_infos_describe_their_commands() {
    let d = cmds::diagnosis::command_info();
    assert_eq!(d.name, "diagnosis");
    assert_eq!(d.usage, "Usage: diagnosis");
    assert!(!d.requires_device);
    assert!(!d.hidden);
    let t = cmds::telemetry::command_info();
    assert_eq!(t.name, "telemetry");
    assert_eq!(t.usage, "Usage: telemetry");
    assert!(!t.requires_device);
    assert!(!t.hidden);
}
