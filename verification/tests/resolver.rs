use light_poller::bleuuid::{
    uuid_from_u16, BLUETOOTH_BASE_UUID, LIGHT_CHARACTERISTIC, LIGHT_CHARACTERISTIC_UUID,
};
use light_poller::config::{
    Config, DEFAULT_READ_COUNT, DEFAULT_READ_INTERVAL, DEFAULT_SCAN_DURATION,
};
use light_poller::error::RunError;
use light_poller::resolver::find_characteristic;

#[test]
fn short_identifier_is_placed_in_the_base_identifier() {
    assert_eq!(uuid_from_u16(0x2A5F), 0x00002a5f_0000_1000_8000_00805f9b34fb_u128);
    assert_eq!(uuid_from_u16(0x1122), 0x00001122_0000_1000_8000_00805f9b34fb_u128);
    assert_eq!(uuid_from_u16(0), BLUETOOTH_BASE_UUID);
    assert_eq!(uuid_from_u16(0xFFFF), 0x0000ffff_0000_1000_8000_00805f9b34fb_u128);
}

#[test]
fn light_characteristic_is_the_expansion_of_its_short_number() {
    assert_eq!(uuid_from_u16(LIGHT_CHARACTERISTIC), LIGHT_CHARACTERISTIC_UUID);
}

#[test]
fn light_characteristic_reads_as_its_hyphenated_form() {
    let parsed = uuid::Uuid::parse_str("00002a5f-0000-1000-8000-00805f9b34fb").unwrap();
    assert_eq!(parsed.as_u128(), LIGHT_CHARACTERISTIC_UUID);
    assert_eq!(uuid::Uuid::from_u128(uuid_from_u16(0x2A5F)), parsed);
}

#[test]
fn default_config_holds_the_stated_defaults() {
    let config = Config::default();
    assert_eq!(config.scan_duration, 2000);
    assert_eq!(config.read_count, 20);
    assert_eq!(config.read_interval, 200);
    assert_eq!(config.target_name, "choicemmed");
    assert_eq!(config.target_uuid, 0x00002a5f_0000_1000_8000_00805f9b34fb_u128);
    assert_eq!(DEFAULT_SCAN_DURATION, 2000);
    assert_eq!(DEFAULT_READ_COUNT, 20);
    assert_eq!(DEFAULT_READ_INTERVAL, 200);
}

#[test]
fn characteristic_is_found_by_its_identifier() {
    let target = uuid_from_u16(0x2A5F);
    let uuids = vec![uuid_from_u16(0x2A00), uuid_from_u16(0x2A01), target, uuid_from_u16(0x2A19)];
    assert_eq!(find_characteristic(&uuids, target), Ok(2));
}

#[test]
fn absent_characteristic_is_an_error() {
    let target = uuid_from_u16(0x2A5F);
    let uuids = vec![uuid_from_u16(0x2A00), uuid_from_u16(0x2A01)];
    assert_eq!(find_characteristic(&uuids, target), Err(RunError::CharacteristicNotFound));
    let none: Vec<u128> = Vec::new();
    assert_eq!(find_characteristic(&none, target), Err(RunError::CharacteristicNotFound));
}

#[test]
fn first_of_several_equal_identifiers_is_taken() {
    let target = uuid_from_u16(0x2A5F);
    let uuids = vec![uuid_from_u16(0x2A00), target, target];
    assert_eq!(find_characteristic(&uuids, target), Ok(1));
}

#[test]
fn lookup_does_not_depend_on_the_order_of_the_list() {
    let target = uuid_from_u16(0x2A5F);
    let a = uuid_from_u16(0x2A00);
    let b = uuid_from_u16(0x2A19);
    let orders = vec![
        vec![a, b, target],
        vec![a, target, b],
        vec![target, a, b],
        vec![b, a, target],
        vec![b, target, a],
        vec![target, b, a],
    ];
    for uuids in orders.iter() {
        let found = find_characteristic(uuids, target).unwrap();
        assert_eq!(uuids[found], target);
    }
    let without = vec![vec![a, b], vec![b, a]];
    for uuids in without.iter() {
        assert_eq!(find_characteristic(uuids, target), Err(RunError::CharacteristicNotFound));
    }
}

#[test]
fn every_error_has_its_own_message() {
    let all = vec![
        RunError::NoAdapter,
        RunError::ScanProperty,
        RunError::NoMatchFound,
        RunError::Connection,
        RunError::Discovery,
        RunError::CharacteristicNotFound,
        RunError::Read,
    ];
    assert_eq!(RunError::NoAdapter.message(), "adapter: no usable Bluetooth radio found");
    assert_eq!(RunError::Read.message(), "poll: a characteristic read failed");
    for (i, a) in all.iter().enumerate() {
        assert!(!a.message().is_empty());
        for (j, b) in all.iter().enumerate() {
            if i != j {
                assert_ne!(a.message(), b.message());
            }
        }
    }
}
