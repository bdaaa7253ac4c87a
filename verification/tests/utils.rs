use std::str::FromStr;
use winrtble::model::{
    BleError, CharPropFlags, CharacteristicProperties, ClientConfigValue, CommunicationStatus,
    Guid, Uuid, WindowsError,
};
use winrtble::utils::{
    encryption_failure, is_encryption_error, windows_error, to_char_props, to_descriptor_value, to_error,
    to_guid, to_uuid,
};

fn lib_uuid(text: &str) -> Uuid {
    Uuid { bytes: uuid::Uuid::from_str(text).unwrap().into_bytes() }
}

fn lib_guid(g: windows_core::GUID) -> Guid {
    Guid { data1: g.data1, data2: g.data2, data3: g.data3, data4: g.data4 }
}

#[test]
fn check_uuid_to_guid_conversion() {
    let uuid_str = "10B201FF-5B3B-45A1-9508-CF3EFCD7BBAF";
    let uuid = lib_uuid(uuid_str);

    let guid_converted = to_guid(&uuid);

    let guid_expected = lib_guid(windows_core::GUID::try_from(uuid_str).unwrap());
    assert_eq!(guid_converted, guid_expected);
}

#[test]
fn check_guid_to_uuid_conversion() {
    let uuid_str = "10B201FF-5B3B-45A1-9508-CF3EFCD7BBAF";
    let guid = lib_guid(windows_core::GUID::try_from(uuid_str).unwrap());

    let uuid_converted = to_uuid(&guid);

    let uuid_expected = lib_uuid(uuid_str);
    assert_eq!(uuid_converted, uuid_expected);
}

#[test]
fn guid_fields_are_big_endian_groups() {
    let uuid = lib_uuid("a1a2a3a4-b1b2-c1c2-d1d2-d3d4d5d6d7d8");
    let guid = to_guid(&uuid);
    assert_eq!(guid.data1, 0xa1a2a3a4);
    assert_eq!(guid.data2, 0xb1b2);
    assert_eq!(guid.data3, 0xc1c2);
    assert_eq!(guid.data4, [0xd1, 0xd2, 0xd3, 0xd4, 0xd5, 0xd6, 0xd7, 0xd8]);
}

#[test]
fn to_uuid_reads_zero_padded_groups() {
    let guid = Guid { data1: 0x1, data2: 0x2, data3: 0xa, data4: [0, 1, 2, 3, 4, 5, 6, 0xff] };
    let uuid = to_uuid(&guid);
    assert_eq!(uuid, lib_uuid("00000001-0002-000a-0001-0203040506ff"));
}

#[test]
fn uuid_guid_round_trip() {
    let uuid = lib_uuid("0000180d-0000-1000-8000-00805f9b34fb");
    assert_eq!(to_uuid(&to_guid(&uuid)), uuid);
    let guid = Guid { data1: 0xdeadbeef, data2: 0x0102, data3: 0xfffe, data4: [9, 8, 7, 6, 5, 4, 3, 2] };
    assert_eq!(to_guid(&to_uuid(&guid)), guid);
}

#[test]
fn to_error_maps_each_status() {
    assert_eq!(to_error(CommunicationStatus { code: 0 }), Ok(()));
    assert_eq!(to_error(CommunicationStatus { code: 1 }), Err(BleError::NotConnected));
    assert_eq!(
        to_error(CommunicationStatus { code: 2 }),
        Err(BleError::NotSupported("ProtocolError".to_string()))
    );
    assert_eq!(to_error(CommunicationStatus { code: 3 }), Err(BleError::PermissionDenied));
    assert_eq!(
        to_error(CommunicationStatus { code: 42 }),
        Err(BleError::Other("Communication Error:".to_string()))
    );
}

#[test]
fn descriptor_value_prefers_indications() {
    assert_eq!(to_descriptor_value(CharacteristicProperties { bits: 32 | 16 }), ClientConfigValue::Indicate);
    assert_eq!(to_descriptor_value(CharacteristicProperties { bits: 16 | 2 }), ClientConfigValue::Notify);
    assert_eq!(to_descriptor_value(CharacteristicProperties { bits: 2 | 8 }), ClientConfigValue::Off);
}

#[test]
fn char_props_keep_the_standard_bits() {
    assert_eq!(to_char_props(&CharacteristicProperties { bits: 0x3ff }), CharPropFlags { bits: 0xff });
    assert_eq!(to_char_props(&CharacteristicProperties { bits: 0x100 | 0x12 }), CharPropFlags { bits: 0x12 });
    assert_eq!(to_char_props(&CharacteristicProperties { bits: 0 }), CharPropFlags::default());
}

#[test]
fn encryption_failure_by_code_or_message() {
    assert!(encryption_failure(0x8065000F_u32 as i32, ""));
    assert!(encryption_failure(0x80650005_u32 as i32, ""));
    assert!(encryption_failure(5, "The attribute requires ENCRYPTION"));
    assert!(encryption_failure(5, "Insufficient Authentication"));
    assert!(!encryption_failure(5, "The device is unreachable"));
    assert!(!encryption_failure(0x80650009_u32 as i32, "Prepare queue full"));
}

#[test]
fn encryption_error_from_windows_error() {
    let err = windows_core::Error::from_hresult(windows_core::HRESULT(0x8065000F_u32 as i32));
    assert!(is_encryption_error(&windows_error(&err)));
    let auth = windows_core::Error::from_hresult(windows_core::HRESULT(0x80650005_u32 as i32));
    assert!(is_encryption_error(&windows_error(&auth)));
    let other = windows_core::Error::from_hresult(windows_core::HRESULT(0x80004005_u32 as i32));
    assert!(!is_encryption_error(&windows_error(&other)));
}

#[test]
fn encryption_error_from_code_and_message() {
    let by_message = WindowsError { code: 5, message: "Insufficient encryption (0x5)".to_string() };
    assert!(is_encryption_error(&by_message));
    let plain = WindowsError { code: 5, message: "Device unreachable".to_string() };
    assert!(!is_encryption_error(&plain));
    let err = windows_core::Error::from_hresult(windows_core::HRESULT(0x8065000F_u32 as i32));
    let read = windows_error(&err);
    assert_eq!(read.code, 0x8065000F_u32 as i32);
    assert!(read.message == "0x8065000F" || read.message.ends_with(" (0x8065000F)"));
}
