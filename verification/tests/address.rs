use asha_reconnect::address::Address;

#[test]
fn key_reads_octets_big_endian() {
    assert_eq!(Address::new([0x00, 0x11, 0x22, 0x33, 0x44, 0x55]).key(), 0x0011_2233_4455);
    assert_eq!(Address::new([0; 6]).key(), 0);
    assert_eq!(Address::new([0xFF; 6]).key(), 0xFFFF_FFFF_FFFF);
    assert_eq!(Address::new([0, 0, 0, 0, 0, 1]).key(), 1);
    assert_eq!(Address::new([1, 0, 0, 0, 0, 0]).key(), 0x0100_0000_0000);
}

#[test]
fn new_keeps_the_octets() {
    let address = Address::new([1, 2, 3, 4, 5, 6]);
    assert_eq!(address.octets, [1, 2, 3, 4, 5, 6]);
}

#[test]
fn same_tells_addresses_apart() {
    let a = Address::new([1, 2, 3, 4, 5, 6]);
    let b = Address::new([1, 2, 3, 4, 5, 6]);
    let c = Address::new([6, 5, 4, 3, 2, 1]);
    let d = Address::new([1, 2, 3, 4, 5, 7]);
    assert!(a.same(&b));
    assert!(!a.same(&c));
    assert!(!a.same(&d));
    assert_eq!(a, b);
    assert_ne!(a, c);
}

#[test]
fn distinct_addresses_have_distinct_keys() {
    let mut seen: Vec<u64> = Vec::new();
    for position in 0..6 {
        for value in [1u8, 2, 0x80, 0xFF] {
            let mut octets = [0u8; 6];
            octets[position] = value;
            let key = Address::new(octets).key();
            assert!(!seen.contains(&key));
            seen.push(key);
        }
    }
}
