use tun_core::addr::{Ipv4Address, Ipv6Address};
use tun_core::builder::{ConfigAction, DeviceBuilder, Layer};
use tun_core::device::DeviceState;

#[test]
fn configuration_ordering_scenario() {
    // MTU 1350, address 10.0.0.9/24, enabled: the plan applies the MTU,
    // then the address, and brings the interface up last; the configured
    // device reports exactly those values.
    let builder = DeviceBuilder::new()
        .mtu(1350)
        .ipv4(Ipv4Address::new(10, 0, 0, 9), 24u8, None)
        .enable(true);
    let plan = builder.config_actions();
    assert_eq!(plan, vec![
        ConfigAction::SetMtu(1350),
        ConfigAction::SetIpv4(Ipv4Address { bits: 0x0A00_0009 }, 24, None),
        ConfigAction::Enable(true),
    ]);
    let mut device = DeviceState::new();
    device.apply_all(&plan);
    assert_eq!(device.mtu(), 1350);
    assert_eq!(device.address(), Some(Ipv4Address { bits: 0x0A00_0009 }));
    assert_eq!(device.netmask(), Some(Ipv4Address { bits: 0xFFFF_FF00 }));
    assert!(device.enabled());
}

#[test]
fn enable_comes_last_even_unrequested() {
    let builder = DeviceBuilder::new().mtu(900);
    let plan = builder.config_actions();
    assert_eq!(plan.last(), Some(&ConfigAction::Enable(true)));
    assert_eq!(plan.len(), 2);
    let mut device = DeviceState::new();
    device.apply_all(&plan);
    assert!(device.enabled());
    assert_eq!(device.mtu(), 900);
}

#[test]
fn mac_address_applies_on_link_layer_only() {
    let mac = [1, 2, 3, 4, 5, 6];
    let l3 = DeviceBuilder::new().mac_addr(mac).config_actions();
    assert!(!l3.iter().any(|a| matches!(a, ConfigAction::SetMacAddress(_))));
    let l2 = DeviceBuilder::new().mac_addr(mac).layer(Layer::L2).config_actions();
    assert!(l2.iter().any(|a| matches!(a, ConfigAction::SetMacAddress(_))));
    let mut device = DeviceState::new();
    device.apply_all(&l2);
    assert_eq!(device.mac_address(), Some(mac));
}

#[test]
fn ipv6_addresses_keep_request_order() {
    let a1 = Ipv6Address { bits: 1 };
    let a2 = Ipv6Address { bits: 2 };
    let builder = DeviceBuilder::new().ipv6(a1, 64u8).ipv6(a2, 96u8);
    let plan = builder.config_actions();
    let v6: Vec<&ConfigAction> = plan
        .iter()
        .filter(|a| matches!(a, ConfigAction::AddIpv6(_, _)))
        .collect();
    assert_eq!(v6, vec![&ConfigAction::AddIpv6(a1, 64), &ConfigAction::AddIpv6(a2, 96)]);
}

#[test]
fn ipv6_tuple_appends_every_entry() {
    let a1 = Ipv6Address { bits: 10 };
    let a2 = Ipv6Address { bits: 20 };
    let builder = DeviceBuilder::new().ipv6_tuple(vec![(a1, 64u8), (a2, 48u8)]);
    let plan = builder.config_actions();
    assert!(plan.contains(&ConfigAction::AddIpv6(a1, 64)));
    assert!(plan.contains(&ConfigAction::AddIpv6(a2, 48)));
}

#[test]
fn build_config_takes_creation_options() {
    let mut builder = DeviceBuilder::new()
        .name(String::from("tun7"))
        .layer(Layer::L3)
        .ring_capacity(0x40_0000)
        .mtu(1280);
    let config = builder.build_config();
    assert_eq!(config.dev_name.as_deref(), Some("tun7"));
    assert_eq!(config.layer, Some(Layer::L3));
    assert_eq!(config.ring_capacity, Some(0x40_0000));
    // The taken options are gone; the apply-time options remain.
    let second = builder.build_config();
    assert_eq!(second.dev_name, None);
    let plan = builder.config_actions();
    assert_eq!(plan[0], ConfigAction::SetMtu(1280));
}

#[test]
fn disabled_interface_stays_down() {
    let plan = DeviceBuilder::new().enable(false).config_actions();
    assert_eq!(plan, vec![ConfigAction::Enable(false)]);
    let mut device = DeviceState::new();
    device.apply_all(&plan);
    assert!(!device.enabled());
}
