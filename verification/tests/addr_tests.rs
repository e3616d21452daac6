use tun_core::addr::{
    count_ones128, count_ones32, ipv4_mask_from_prefix, ipv4_mask_to_prefix,
    ipv6_mask_from_prefix, ipv6_mask_to_prefix, IntoAddress, IpAddress, Ipv4Address,
    Ipv6Address, ToIpv4Netmask, ToIpv6Netmask,
};
use tun_core::error::ConfigError;
use tun_core::text::{format_mac_address, parse_ipv4_bytes, parse_ipv4_text, parse_ipv6_text};

#[test]
fn parse_dotted_quad() {
    assert_eq!(parse_ipv4_text("10.0.0.9"), Ok(Ipv4Address { bits: 0x0A00_0009 }));
    assert_eq!(parse_ipv4_text("255.255.255.255"), Ok(Ipv4Address { bits: 0xFFFF_FFFF }));
    assert_eq!(parse_ipv4_text("0.0.0.0"), Ok(Ipv4Address { bits: 0 }));
    assert_eq!(parse_ipv4_text("192.168.1.42"), Ok(Ipv4Address { bits: 0xC0A8_012A }));
}

#[test]
fn parse_rejects_malformed_text() {
    assert_eq!(parse_ipv4_text(""), Err(ConfigError::InvalidAddress));
    assert_eq!(parse_ipv4_text("10.0.0"), Err(ConfigError::InvalidAddress));
    assert_eq!(parse_ipv4_text("10.0.0.9.1"), Err(ConfigError::InvalidAddress));
    assert_eq!(parse_ipv4_text("256.0.0.1"), Err(ConfigError::InvalidAddress));
    assert_eq!(parse_ipv4_text("01.2.3.4"), Err(ConfigError::InvalidAddress));
    assert_eq!(parse_ipv4_text("a.b.c.d"), Err(ConfigError::InvalidAddress));
    assert_eq!(parse_ipv4_text("10..0.9"), Err(ConfigError::InvalidAddress));
    assert_eq!(parse_ipv4_text("10.0.0."), Err(ConfigError::InvalidAddress));
    assert_eq!(parse_ipv4_text("1000.0.0.1"), Err(ConfigError::InvalidAddress));
    assert_eq!(parse_ipv4_bytes(b"10.0.0.9 "), Err(ConfigError::InvalidAddress));
}

#[test]
fn mask_from_prefix_both_families() {
    assert_eq!(ipv4_mask_from_prefix(24), Ok(Ipv4Address { bits: 0xFFFF_FF00 }));
    assert_eq!(ipv4_mask_from_prefix(0), Ok(Ipv4Address { bits: 0 }));
    assert_eq!(ipv4_mask_from_prefix(32), Ok(Ipv4Address { bits: 0xFFFF_FFFF }));
    assert_eq!(ipv4_mask_from_prefix(33), Err(ConfigError::InvalidAddress));
    assert_eq!(
        ipv6_mask_from_prefix(64),
        Ok(Ipv6Address { bits: 0xFFFF_FFFF_FFFF_FFFF_0000_0000_0000_0000 })
    );
    assert_eq!(ipv6_mask_from_prefix(129), Err(ConfigError::InvalidAddress));
}

#[test]
fn mask_to_prefix_requires_contiguous_mask() {
    assert_eq!(ipv4_mask_to_prefix(Ipv4Address { bits: 0xFFFF_FF00 }), Ok(24));
    assert_eq!(ipv4_mask_to_prefix(Ipv4Address { bits: 0 }), Ok(0));
    assert_eq!(ipv4_mask_to_prefix(Ipv4Address { bits: 0xFFFF_FFFF }), Ok(32));
    assert_eq!(
        ipv4_mask_to_prefix(Ipv4Address { bits: 0xFF00_FF00 }),
        Err(ConfigError::InvalidAddress)
    );
    assert_eq!(
        ipv6_mask_to_prefix(Ipv6Address { bits: 0xFFFF_FFFF_FFFF_FFFF_0000_0000_0000_0000 }),
        Ok(64)
    );
    assert_eq!(
        ipv6_mask_to_prefix(Ipv6Address { bits: 1 }),
        Err(ConfigError::InvalidAddress)
    );
}

#[test]
fn netmask_traits_count_prefix() {
    assert_eq!(ToIpv4Netmask::prefix(&24u8), 24);
    assert_eq!(ToIpv4Netmask::prefix(&Ipv4Address { bits: 0xFFFF_FF00 }), 24);
    assert_eq!(ToIpv4Netmask::prefix(&Ipv4Address { bits: 0xFFFF_FFFF }), 32);
    assert_eq!(ToIpv6Netmask::prefix(&64u8), 64);
    assert_eq!(
        ToIpv6Netmask::prefix(&Ipv6Address { bits: 0xFFFF_FFFF_FFFF_FFFF_0000_0000_0000_0000 }),
        64
    );
    assert_eq!(count_ones32(0xF0F0_F0F0), 16);
    assert_eq!(count_ones128(0x3), 2);
}

#[test]
fn into_address_conversions() {
    // A raw word is read low byte first.
    assert_eq!(
        0x0900_000Au32.into_address(),
        Ok(IpAddress::V4(Ipv4Address { bits: 0x0A00_0009 }))
    );
    assert_eq!(
        (10u8, 0u8, 0u8, 9u8).into_address(),
        Ok(IpAddress::V4(Ipv4Address { bits: 0x0A00_0009 }))
    );
    assert_eq!(
        (24u8, true).into_address(),
        Ok(IpAddress::V4(Ipv4Address { bits: 0xFFFF_FF00 }))
    );
    assert_eq!((33u8, true).into_address(), Err(ConfigError::InvalidAddress));
    assert_eq!((129u8, false).into_address(), Err(ConfigError::InvalidAddress));
    assert_eq!(
        "10.0.0.9".into_address(),
        Ok(IpAddress::V4(Ipv4Address { bits: 0x0A00_0009 }))
    );
    assert_eq!("not an address".into_address(), Err(ConfigError::InvalidAddress));
    let owned = String::from("192.168.1.42");
    assert_eq!(
        owned.into_address(),
        Ok(IpAddress::V4(Ipv4Address { bits: 0xC0A8_012A }))
    );
    let v6 = Ipv6Address { bits: 1 };
    assert_eq!(v6.into_address(), Ok(IpAddress::V6(v6)));
    assert!(IpAddress::V6(v6).is_ipv6());
    assert!(!IpAddress::V6(v6).is_ipv4());
}

#[test]
fn ipv4_octets_round_trip() {
    let a = Ipv4Address::new(10, 0, 0, 9);
    assert_eq!(a.bits, 0x0A00_0009);
    assert_eq!(a.octets(), [10, 0, 0, 9]);
}

#[test]
fn mac_address_text_form() {
    assert_eq!(format_mac_address(&[0x00, 0x1A, 0x2B, 0x3C, 0x4D, 0x5E]), "001A2B3C4D5E");
    assert_eq!(format_mac_address(&[0xFF, 0xFF, 0xFF, 0xFF, 0xFF, 0xFF]), "FFFFFFFFFFFF");
    assert_eq!(format_mac_address(&[0, 0, 0, 0, 0, 0]), "000000000000");
}

#[test]
fn parse_colon_grouped_ipv6() {
    assert_eq!(parse_ipv6_text("::"), Ok(Ipv6Address { bits: 0 }));
    assert_eq!(parse_ipv6_text("::1"), Ok(Ipv6Address { bits: 1 }));
    assert_eq!(
        parse_ipv6_text("1:2:3:4:5:6:7:8"),
        Ok(Ipv6Address { bits: 0x0001_0002_0003_0004_0005_0006_0007_0008 })
    );
    assert_eq!(
        parse_ipv6_text("fe80::1"),
        Ok(Ipv6Address { bits: 0xFE80_0000_0000_0000_0000_0000_0000_0001 })
    );
    assert_eq!(
        parse_ipv6_text("FE80::A:1"),
        Ok(Ipv6Address { bits: 0xFE80_0000_0000_0000_0000_0000_000A_0001 })
    );
    assert_eq!(
        parse_ipv6_text("1:2:3:4:5:6:7::"),
        Ok(Ipv6Address { bits: 0x0001_0002_0003_0004_0005_0006_0007_0000 })
    );
    assert_eq!(
        parse_ipv6_text("2001:db8::ff00:42:8329"),
        Ok(Ipv6Address { bits: 0x2001_0DB8_0000_0000_0000_FF00_0042_8329 })
    );
}

#[test]
fn parse_rejects_malformed_ipv6() {
    assert_eq!(parse_ipv6_text(""), Err(ConfigError::InvalidAddress));
    assert_eq!(parse_ipv6_text(":::"), Err(ConfigError::InvalidAddress));
    assert_eq!(parse_ipv6_text("1::2::3"), Err(ConfigError::InvalidAddress));
    assert_eq!(parse_ipv6_text("12345::"), Err(ConfigError::InvalidAddress));
    assert_eq!(parse_ipv6_text("1:2:3:4:5:6:7"), Err(ConfigError::InvalidAddress));
    assert_eq!(parse_ipv6_text("1:2:3:4:5:6:7:8:9"), Err(ConfigError::InvalidAddress));
    assert_eq!(parse_ipv6_text("1:2:3:4:5:6:7:8::"), Err(ConfigError::InvalidAddress));
    assert_eq!(parse_ipv6_text(":1:2:3:4:5:6:7"), Err(ConfigError::InvalidAddress));
    assert_eq!(parse_ipv6_text("1:"), Err(ConfigError::InvalidAddress));
    assert_eq!(parse_ipv6_text("g::1"), Err(ConfigError::InvalidAddress));
}

#[test]
fn text_into_address_covers_both_families() {
    assert_eq!(
        "fe80::1".into_address(),
        Ok(IpAddress::V6(Ipv6Address { bits: 0xFE80_0000_0000_0000_0000_0000_0000_0001 }))
    );
    assert_eq!(
        String::from("::").into_address(),
        Ok(IpAddress::V6(Ipv6Address { bits: 0 }))
    );
}
