use tap_arp::ethertype::{u8_as_u16, EtherType};

#[test]
fn reads_big_endian() {
    assert_eq!(u8_as_u16(&[0x08, 0x06]), 0x0806);
    assert_eq!(u8_as_u16(&[0x86, 0xDD, 0x11]), 0x86DD);
    assert_eq!(u8_as_u16(&[0x00, 0x01]), 1);
    assert_eq!(u8_as_u16(&[0xFF, 0xFF]), 0xFFFF);
}

#[test]
fn classifies_known_protocols() {
    assert_eq!(EtherType::from(0x0800), EtherType::IPv4);
    assert_eq!(EtherType::from(0x0806), EtherType::ARP);
    assert_eq!(EtherType::from(0x86DD), EtherType::IPv6);
}

#[test]
fn classifies_other_values_as_themselves() {
    assert_eq!(EtherType::from(0x0000), EtherType::Other(0x0000));
    assert_eq!(EtherType::from(0x0801), EtherType::Other(0x0801));
    assert_eq!(EtherType::from(0x8035), EtherType::Other(0x8035));
    assert_eq!(EtherType::from(0xFFFF), EtherType::Other(0xFFFF));
    assert_eq!(EtherType::from(0xDD86), EtherType::Other(0xDD86));
}

#[test]
fn classifying_twice_gives_the_same_tag() {
    for v in [0x0800u16, 0x0806, 0x86DD, 0x1234] {
        let field = [(v >> 8) as u8, v as u8];
        let first = EtherType::from(u8_as_u16(&field));
        let second = EtherType::from(u8_as_u16(&field));
        assert_eq!(first, second);
    }
}

#[test]
fn classification_is_total() {
    let mut others = 0u32;
    for v in 0..=u16::MAX {
        if let EtherType::Other(x) = EtherType::from(v) {
            assert_eq!(x, v);
            others += 1;
        }
    }
    assert_eq!(others, 65536 - 3);
}
