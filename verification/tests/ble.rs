use std::str::FromStr;
use winrtble::ble::characteristic::{subscribe_config, to_characteristic, NotifyRegistration};
use winrtble::ble::descriptor::to_descriptor;
use winrtble::ble::operation::{
    operation_outcome, AttemptDecision, AttemptResult, AutoPairRetry, GattOperation,
    PairingDecision,
};
use winrtble::model::{
    compare_uuid, BleError, CharPropFlags, CharacteristicProperties, ClientConfigValue,
    CommunicationStatus, Descriptor, Guid, Uuid, UuidOrder, WriteOption, WriteType, CHAR_NOTIFY,
    CHAR_READ,
};
use winrtble::text::{chars_of, contains_str};
use winrtble::utils::to_guid;

fn lib_uuid(text: &str) -> Uuid {
    Uuid { bytes: uuid::Uuid::from_str(text).unwrap().into_bytes() }
}

fn guid_of(text: &str) -> Guid {
    to_guid(&lib_uuid(text))
}

#[test]
fn write_type_to_write_option() {
    assert_eq!(WriteOption::from(WriteType::WithResponse), WriteOption { code: 0 });
    assert_eq!(WriteOption::from(WriteType::WithoutResponse), WriteOption { code: 1 });
}

#[test]
fn descriptor_record_from_guid() {
    let service = lib_uuid("0000180d-0000-1000-8000-00805f9b34fb");
    let characteristic = lib_uuid("00002a37-0000-1000-8000-00805f9b34fb");
    let d = to_descriptor(&guid_of("00002902-0000-1000-8000-00805f9b34fb"), service, characteristic);
    assert_eq!(
        d,
        Descriptor {
            uuid: lib_uuid("00002902-0000-1000-8000-00805f9b34fb"),
            service_uuid: service,
            characteristic_uuid: characteristic,
        }
    );
}

#[test]
fn characteristic_record_sorts_and_dedups_descriptors() {
    let service = lib_uuid("0000180d-0000-1000-8000-00805f9b34fb");
    let guids = vec![
        guid_of("00002904-0000-1000-8000-00805f9b34fb"),
        guid_of("00002902-0000-1000-8000-00805f9b34fb"),
        guid_of("00002903-0000-1000-8000-00805f9b34fb"),
        guid_of("00002902-0000-1000-8000-00805f9b34fb"),
    ];
    let c = to_characteristic(
        &guid_of("00002a37-0000-1000-8000-00805f9b34fb"),
        &CharacteristicProperties { bits: 0x12 | 0x100 },
        &guids,
        service,
    );
    let cuuid = lib_uuid("00002a37-0000-1000-8000-00805f9b34fb");
    assert_eq!(c.uuid, cuuid);
    assert_eq!(c.service_uuid, service);
    assert_eq!(c.properties, CharPropFlags { bits: 0x12 });
    assert!(c.properties.contains(CHAR_READ) && c.properties.contains(CHAR_NOTIFY));
    let uuids: Vec<Uuid> = c.descriptors.iter().map(|d| d.uuid).collect();
    assert_eq!(
        uuids,
        vec![
            lib_uuid("00002902-0000-1000-8000-00805f9b34fb"),
            lib_uuid("00002903-0000-1000-8000-00805f9b34fb"),
            lib_uuid("00002904-0000-1000-8000-00805f9b34fb"),
        ]
    );
    for d in &c.descriptors {
        assert_eq!(d.service_uuid, service);
        assert_eq!(d.characteristic_uuid, cuuid);
    }
}

#[test]
fn characteristic_record_without_descriptors() {
    let service = lib_uuid("0000180f-0000-1000-8000-00805f9b34fb");
    let c = to_characteristic(
        &guid_of("00002a19-0000-1000-8000-00805f9b34fb"),
        &CharacteristicProperties { bits: 2 },
        &vec![],
        service,
    );
    assert!(c.descriptors.is_empty());
    assert_eq!(c.properties, CharPropFlags { bits: 2 });
}

#[test]
fn descriptor_order_matches_uuid_crate_order() {
    let texts = [
        "ffffffff-0000-0000-0000-000000000000",
        "00000000-0000-0000-0000-000000000001",
        "7fffffff-ffff-ffff-ffff-ffffffffffff",
        "00000000-0000-0000-0000-000000000000",
    ];
    let guids: Vec<Guid> = texts.iter().map(|t| guid_of(t)).collect();
    let service = lib_uuid(texts[3]);
    let c = to_characteristic(&guids[0], &CharacteristicProperties { bits: 0 }, &guids, service);
    let mut expected: Vec<uuid::Uuid> = texts.iter().map(|t| uuid::Uuid::from_str(t).unwrap()).collect();
    expected.sort();
    let got: Vec<[u8; 16]> = c.descriptors.iter().map(|d| d.uuid.bytes).collect();
    let want: Vec<[u8; 16]> = expected.iter().map(|u| u.into_bytes()).collect();
    assert_eq!(got, want);
}

#[test]
fn compare_uuid_orders_bytewise() {
    let a = lib_uuid("00000000-0000-0000-0000-000000000001");
    let b = lib_uuid("00000000-0000-0000-0000-000000000002");
    let c = lib_uuid("01000000-0000-0000-0000-000000000000");
    assert_eq!(compare_uuid(&a, &b), UuidOrder::Before);
    assert_eq!(compare_uuid(&c, &b), UuidOrder::After);
    assert_eq!(compare_uuid(&a, &a), UuidOrder::Same);
}

#[test]
fn subscribe_needs_notify_or_indicate() {
    assert_eq!(subscribe_config(CharacteristicProperties { bits: 16 }), Ok(ClientConfigValue::Notify));
    assert_eq!(subscribe_config(CharacteristicProperties { bits: 48 }), Ok(ClientConfigValue::Indicate));
    assert_eq!(
        subscribe_config(CharacteristicProperties { bits: 2 | 8 }),
        Err(BleError::NotSupported("Can not subscribe to attribute".to_string()))
    );
}

#[test]
fn operation_outcome_reports_status() {
    assert_eq!(operation_outcome(GattOperation::Write, CommunicationStatus { code: 0 }, "x"), Ok(()));
    assert_eq!(
        operation_outcome(GattOperation::Write, CommunicationStatus { code: 1 }, "GattCommunicationStatus(1)"),
        Err(BleError::Other("Windows UWP threw error on write: GattCommunicationStatus(1)".to_string()))
    );
    assert_eq!(
        operation_outcome(GattOperation::Read, CommunicationStatus { code: 3 }, "r"),
        Err(BleError::Other("Windows UWP threw error on read: r".to_string()))
    );
    assert_eq!(
        operation_outcome(GattOperation::Subscribe, CommunicationStatus { code: 2 }, "s"),
        Err(BleError::Other("Windows UWP threw error on subscribe: s".to_string()))
    );
    assert_eq!(
        operation_outcome(GattOperation::Unsubscribe, CommunicationStatus { code: 2 }, "u"),
        Err(BleError::Other("Windows UWP threw error on unsubscribe: u".to_string()))
    );
    assert_eq!(
        operation_outcome(GattOperation::WriteDescriptor, CommunicationStatus { code: 9 }, "d"),
        Err(BleError::Other("Windows UWP threw error on write descriptor: d".to_string()))
    );
}

#[test]
fn retry_pairs_once_on_encryption_failure() {
    let mut retry = AutoPairRetry::new();
    assert_eq!(retry.after_attempt(AttemptResult::Failed { encryption: true }), AttemptDecision::Pair);
    assert_eq!(retry.after_pairing(true), PairingDecision::Retry);
    assert_eq!(retry.after_attempt(AttemptResult::Failed { encryption: true }), AttemptDecision::GiveUp);
}

#[test]
fn retry_accepts_completed_and_gives_up_on_other_errors() {
    let mut retry = AutoPairRetry::new();
    assert_eq!(retry.after_attempt(AttemptResult::Completed), AttemptDecision::Accept);
    assert_eq!(retry.after_attempt(AttemptResult::Failed { encryption: false }), AttemptDecision::GiveUp);
    let mut retry = AutoPairRetry::new();
    assert_eq!(retry.after_attempt(AttemptResult::Failed { encryption: true }), AttemptDecision::Pair);
    assert_eq!(retry.after_pairing(false), PairingDecision::GiveUp);
    assert_eq!(retry.after_attempt(AttemptResult::Completed), AttemptDecision::Accept);
}

#[test]
fn text_search() {
    assert_eq!(chars_of("aé"), vec!['a', 'é']);
    assert!(contains_str("insufficient encryption", "encryption"));
    assert!(contains_str("abc", ""));
    assert!(!contains_str("ab", "abc"));
    assert!(!contains_str("encryptio", "encryption"));
}

#[test]
fn char_prop_flags_default_is_empty() {
    assert_eq!(CharPropFlags::default().bits, 0);
}

#[test]
fn characteristic_record_is_the_same_on_every_call() {
    let service = lib_uuid("0000180d-0000-1000-8000-00805f9b34fb");
    let guids = vec![
        guid_of("00002903-0000-1000-8000-00805f9b34fb"),
        guid_of("00002902-0000-1000-8000-00805f9b34fb"),
    ];
    let reordered = vec![guids[1], guids[0]];
    let guid = guid_of("00002a37-0000-1000-8000-00805f9b34fb");
    let props = CharacteristicProperties { bits: 0x1a };
    let a = to_characteristic(&guid, &props, &guids, service);
    let b = to_characteristic(&guid, &props, &guids, service);
    let c = to_characteristic(&guid, &props, &reordered, service);
    assert_eq!(a, b);
    assert_eq!(a, c);
}

#[test]
fn notify_registration_keeps_the_token_until_forgotten() {
    let mut reg = NotifyRegistration::new();
    assert_eq!(reg.token(), None);
    reg.record(42);
    assert_eq!(reg.token(), Some(42));
    reg.forget();
    assert_eq!(reg.token(), None);
}
