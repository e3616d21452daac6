#![allow(non_snake_case)]

use tun_core::bitfield::{__BindgenBitfieldUnit, NetLuidInfo};

#[test]
fn bindgen_test_layout__NET_LUID_LH__bindgen_ty_1() {
    assert_eq!(core::mem::size_of::<NetLuidInfo>(), 8usize);
    assert_eq!(core::mem::align_of::<NetLuidInfo>(), 8usize);
}

#[test]
fn bitfield_get_bit_reads_each_bit() {
    let unit = __BindgenBitfieldUnit::new(0b1010_0001);
    assert!(unit.get_bit(0));
    assert!(!unit.get_bit(1));
    assert!(unit.get_bit(5));
    assert!(unit.get_bit(7));
    assert!(!unit.get_bit(8));
    assert!(!unit.get_bit(63));
}

#[test]
fn bitfield_set_bit_changes_only_that_bit() {
    let mut unit = __BindgenBitfieldUnit::new(0);
    unit.set_bit(3, true);
    assert_eq!(unit.storage, 0b1000);
    unit.set_bit(0, true);
    assert_eq!(unit.storage, 0b1001);
    unit.set_bit(3, false);
    assert_eq!(unit.storage, 0b0001);
    unit.set_bit(63, true);
    assert_eq!(unit.storage, 0x8000_0000_0000_0001);
}

#[test]
fn bitfield_get_extracts_ranges() {
    let unit = __BindgenBitfieldUnit::new(0xABCD_EF01_2345_6789);
    assert_eq!(unit.get(0, 16), 0x6789);
    assert_eq!(unit.get(16, 16), 0x2345);
    assert_eq!(unit.get(48, 16), 0xABCD);
    assert_eq!(unit.get(0, 64), 0xABCD_EF01_2345_6789);
    assert_eq!(unit.get(4, 8), 0x78);
    assert_eq!(unit.get(12, 0), 0);
}

#[test]
fn bitfield_set_overwrites_range_only() {
    let mut unit = __BindgenBitfieldUnit::new(0xFFFF_FFFF_FFFF_FFFF);
    unit.set(16, 16, 0x1234);
    assert_eq!(unit.storage, 0xFFFF_FFFF_1234_FFFF);
    let mut zero = __BindgenBitfieldUnit::new(0);
    zero.set(8, 4, 0xFF);
    assert_eq!(zero.storage, 0xF00);
}

#[test]
fn net_luid_packs_three_fields() {
    let bits = NetLuidInfo::new_bitfield_1(0x123456, 0xABCDEF, 0x9876);
    let info = NetLuidInfo { bitfield: bits };
    assert_eq!(info.Reserved(), 0x123456);
    assert_eq!(info.NetLuidIndex(), 0xABCDEF);
    assert_eq!(info.IfType(), 0x9876);
}

#[test]
fn net_luid_setters_update_fields() {
    let mut info = NetLuidInfo::new(0);
    info.set_NetLuidIndex(7);
    info.set_IfType(53);
    assert_eq!(info.Reserved(), 0);
    assert_eq!(info.NetLuidIndex(), 7);
    assert_eq!(info.IfType(), 53);
    info.set_Reserved(0xFFFFFF);
    assert_eq!(info.NetLuidIndex(), 7);
    assert_eq!(info.Reserved(), 0xFFFFFF);
}
