use asha_reconnect::service::{
    asha_profile, service_match, uuid_as_u16, uuid_from_u16, ASHA_SERVICE_U16, ASHA_SERVICE_UUID,
    BLUETOOTH_BASE_UUID,
};

const BATTERY_SERVICE_UUID: u128 = 0x0000180f_0000_1000_8000_00805f9b34fb;

#[test]
fn asha_constants_agree() {
    assert_eq!(ASHA_SERVICE_U16, 0xFDF0);
    assert_eq!(ASHA_SERVICE_UUID, 0x0000fdf0_0000_1000_8000_00805f9b34fb);
    assert_eq!(asha_profile(), ASHA_SERVICE_UUID);
}

#[test]
fn short_identifier_expands_into_base_uuid() {
    assert_eq!(uuid_from_u16(0xFDF0), 0x0000fdf0_0000_1000_8000_00805f9b34fb);
    assert_eq!(uuid_from_u16(0x180F), BATTERY_SERVICE_UUID);
    assert_eq!(uuid_from_u16(0), BLUETOOTH_BASE_UUID);
    assert_eq!(uuid_from_u16(0xFFFF), 0x0000ffff_0000_1000_8000_00805f9b34fb);
}

#[test]
fn short_identifier_is_read_back() {
    assert_eq!(uuid_as_u16(ASHA_SERVICE_UUID), Some(0xFDF0));
    assert_eq!(uuid_as_u16(BATTERY_SERVICE_UUID), Some(0x180F));
    assert_eq!(uuid_as_u16(BLUETOOTH_BASE_UUID), Some(0));
}

#[test]
fn uuid_outside_the_base_has_no_short_identifier() {
    // One bit off in the low 96 bits.
    assert_eq!(uuid_as_u16(0x0000fdf0_0000_1000_8000_00805f9b34fa), None);
    // A 32-bit short form does not fit in 16 bits.
    assert_eq!(uuid_as_u16(0x0001fdf0_0000_1000_8000_00805f9b34fb), None);
    assert_eq!(uuid_as_u16(0), None);
    assert_eq!(uuid_as_u16(u128::MAX), None);
    assert_eq!(uuid_as_u16(0x6e400001_b5a3_f393_e0a9_e50e24dcca9e), None);
}

#[test]
fn round_trip_over_every_short_identifier() {
    let mut short: u16 = 0;
    loop {
        assert_eq!(uuid_as_u16(uuid_from_u16(short)), Some(short));
        if short == u16::MAX {
            break;
        }
        short += 1;
    }
}

#[test]
fn device_with_asha_uuid_matches() {
    assert!(service_match(&vec![ASHA_SERVICE_UUID]));
    assert!(service_match(&vec![BATTERY_SERVICE_UUID, ASHA_SERVICE_UUID]));
    assert!(service_match(&vec![ASHA_SERVICE_UUID, BATTERY_SERVICE_UUID]));
}

#[test]
fn device_without_asha_uuid_does_not_match() {
    assert!(!service_match(&vec![]));
    assert!(!service_match(&vec![BATTERY_SERVICE_UUID]));
    // The short value in a UUID that is not built on the base does not count.
    assert!(!service_match(&vec![0x0000fdf0_0000_1000_8000_00805f9b34fc]));
    assert!(!service_match(&vec![0x0001fdf0_0000_1000_8000_00805f9b34fb]));
}
