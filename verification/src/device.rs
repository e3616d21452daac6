//! The device's configuration surface and the descriptor-backed device.
//!
//! `DeviceState` holds, as plain values, everything a configured interface
//! reports: sizes, addresses, metric and enabled-state.  Applying a
//! configuration plan to it states exactly what each step changes, and the
//! OS layer executes the same plan call for call.  `DeviceImpl` is the
//! descriptor-backed device of the mobile platform: a wrapped descriptor
//! and the packet-information switch.

use vstd::prelude::*;
use vstd::string::StringSliceAdditionalSpecFns;
use crate::addr::{spec_mask32, Ipv4Address, Ipv6Address};
use crate::builder::{ConfigAction, Layer};
use crate::error::ConfigError;
use crate::fd::Tun;

verus! {

/// The default MTU an interface starts with.
pub const DEFAULT_MTU: u16 = 1500;

/// The OS bound on an interface name, counting the terminating zero byte.
pub const IFNAMSIZ: usize = 16;

/// The interface-up flag of the OS flag word.
pub const IFF_UP: u16 = 0x1;

/// The interface-running flag of the OS flag word.
pub const IFF_RUNNING: u16 = 0x40;

/// Whether an interface name can be handed to the OS: it must carry no
/// zero byte and fit the OS name buffer with its terminator.
pub open spec fn spec_validate_ifname(name: Seq<u8>) -> Result<(), ConfigError> {
    if name.contains(0u8) {
        Err(ConfigError::InvalidConfig)
    } else if name.len() + 1 > IFNAMSIZ {
        Err(ConfigError::NameTooLong)
    } else {
        Ok(())
    }
}

/// Check an interface name before any OS call: a zero byte can not cross
/// the C boundary, and an over-long name is rejected as such.
pub fn validate_ifname(name: &str) -> (r: Result<(), ConfigError>)
    ensures
        r == spec_validate_ifname(name.spec_bytes()),
{
    let bytes = name.as_bytes();
    let n = bytes.len();
    let mut i: usize = 0;
    while i < n
        invariant
            i <= n,
            n == name.spec_bytes().len(),
            bytes@ == name.spec_bytes(),
            forall|k: int| 0 <= k < i ==> name.spec_bytes()[k] != 0u8,
        decreases n - i,
    {
        if bytes[i] == 0 {
            return Err(ConfigError::InvalidConfig);
        }
        i = i + 1;
    }
    if n >= IFNAMSIZ {
        Err(ConfigError::NameTooLong)
    } else {
        Ok(())
    }
}

/// The new OS flag word when an interface is brought up or down: coming up
/// sets the up and running flags, going down clears the up flag only.
pub fn apply_enabled_flags(flags: u16, value: bool) -> (r: u16)
    ensures
        value ==> r == (flags | (IFF_UP | IFF_RUNNING)),
        !value ==> r == (flags & !IFF_UP),
{
    if value {
        flags | (IFF_UP | IFF_RUNNING)
    } else {
        flags & !IFF_UP
    }
}

/// Whether a creation request can be honored by a backend that offers
/// only the network layer and a single queue: any other layer or queue
/// count is rejected before any OS call.
pub fn validate_creation_request(layer: Layer, queues: u32) -> (r: Result<(), ConfigError>)
    ensures
        layer != Layer::L3 ==> r == Err::<(), ConfigError>(ConfigError::UnsupportedLayer),
        layer == Layer::L3 && queues != 1 ==> r == Err::<(), ConfigError>(
            ConfigError::InvalidQueuesNumber,
        ),
        layer == Layer::L3 && queues == 1 ==> r == Ok::<(), ConfigError>(()),
{
    if layer != Layer::L3 {
        Err(ConfigError::UnsupportedLayer)
    } else if queues != 1 {
        Err(ConfigError::InvalidQueuesNumber)
    } else {
        Ok(())
    }
}

/// An MTU reported by the OS as a signed word: representable or rejected.
pub fn mtu_from_os(value: i32) -> (r: Result<u16, ConfigError>)
    ensures
        0 <= value <= u16::MAX ==> r == Ok::<u16, ConfigError>(value as u16),
        !(0 <= value <= u16::MAX) ==> r == Err::<u16, ConfigError>(ConfigError::InvalidConfig),
{
    if value >= 0 && value <= 0xFFFF {
        Ok(value as u16)
    } else {
        Err(ConfigError::InvalidConfig)
    }
}

/// Everything a configured interface reports, as plain values.
pub struct DeviceState {
    pub mtu: u16,
    pub mtu_v6: u16,
    pub metric: u16,
    pub tx_queue_len: u32,
    pub mac_addr: Option<[u8; 6]>,
    pub ipv4: Option<(Ipv4Address, u8, Option<Ipv4Address>)>,
    pub ipv6: Vec<(Ipv6Address, u8)>,
    pub enabled: bool,
}

/// The mathematical value of a configured interface's reported state.
#[verifier::ext_equal]
pub struct DeviceModel {
    pub mtu: u16,
    pub mtu_v6: u16,
    pub metric: u16,
    pub tx_queue_len: u32,
    pub mac_addr: Option<[u8; 6]>,
    pub ipv4: Option<(Ipv4Address, u8, Option<Ipv4Address>)>,
    pub ipv6: Seq<(Ipv6Address, u8)>,
    pub enabled: bool,
}

impl View for DeviceState {
    type V = DeviceModel;

    open spec fn view(&self) -> DeviceModel {
        DeviceModel {
            mtu: self.mtu,
            mtu_v6: self.mtu_v6,
            metric: self.metric,
            tx_queue_len: self.tx_queue_len,
            mac_addr: self.mac_addr,
            ipv4: self.ipv4,
            ipv6: self.ipv6@,
            enabled: self.enabled,
        }
    }
}

/// What one configuration step changes, and nothing else.
pub open spec fn spec_apply(s: DeviceModel, a: ConfigAction) -> DeviceModel {
    match a {
        ConfigAction::SetMtu(m) => DeviceModel { mtu: m, ..s },
        ConfigAction::SetMtuV6(m) => DeviceModel { mtu_v6: m, ..s },
        ConfigAction::SetMetric(m) => DeviceModel { metric: m, ..s },
        ConfigAction::SetTxQueueLen(m) => DeviceModel { tx_queue_len: m, ..s },
        ConfigAction::SetMacAddress(mac) => DeviceModel { mac_addr: Some(mac), ..s },
        ConfigAction::SetIpv4(addr, prefix, dest) => DeviceModel {
            ipv4: Some((addr, prefix, dest)),
            ..s
        },
        ConfigAction::AddIpv6(addr, prefix) => DeviceModel {
            ipv6: s.ipv6.push((addr, prefix)),
            ..s
        },
        ConfigAction::Enable(e) => DeviceModel { enabled: e, ..s },
    }
}

/// A whole plan applied step by step, first step first.
pub open spec fn spec_apply_all(s: DeviceModel, plan: Seq<ConfigAction>) -> DeviceModel
    decreases plan.len(),
{
    if plan.len() == 0 {
        s
    } else {
        spec_apply_all(spec_apply(s, plan.first()), plan.drop_first())
    }
}

/// Folding one more step at the end applies it to the folded state.
pub proof fn lemma_apply_all_push(s: DeviceModel, plan: Seq<ConfigAction>, a: ConfigAction)
    ensures
        spec_apply_all(s, plan.push(a)) == spec_apply(spec_apply_all(s, plan), a),
    decreases plan.len(),
{
    if plan.len() == 0 {
        assert(plan.push(a).first() == a);
        assert(plan.push(a).drop_first() =~= Seq::<ConfigAction>::empty());
        assert(spec_apply_all(spec_apply(s, a), Seq::<ConfigAction>::empty()) == spec_apply(s, a));
        assert(spec_apply_all(s, plan.push(a)) == spec_apply_all(
            spec_apply(s, a),
            Seq::<ConfigAction>::empty(),
        ));
    } else {
        assert(plan.push(a).first() == plan.first());
        assert(plan.push(a).drop_first() =~= plan.drop_first().push(a));
        lemma_apply_all_push(spec_apply(s, plan.first()), plan.drop_first(), a);
        assert(spec_apply_all(s, plan.push(a)) =~= spec_apply(spec_apply_all(s, plan), a));
    }
}

impl DeviceState {
    /// A fresh, unconfigured, down interface.
    pub fn new() -> (r: DeviceState)
        ensures
            r@ == (DeviceModel {
                mtu: DEFAULT_MTU,
                mtu_v6: DEFAULT_MTU,
                metric: 0u16,
                tx_queue_len: 0u32,
                mac_addr: None::<[u8; 6]>,
                ipv4: None::<(Ipv4Address, u8, Option<Ipv4Address>)>,
                ipv6: Seq::<(Ipv6Address, u8)>::empty(),
                enabled: false,
            }),
    {
        let r = DeviceState {
            mtu: DEFAULT_MTU,
            mtu_v6: DEFAULT_MTU,
            metric: 0,
            tx_queue_len: 0,
            mac_addr: None,
            ipv4: None,
            ipv6: Vec::new(),
            enabled: false,
        };
        proof {
            assert(r@ =~= DeviceModel {
                mtu: DEFAULT_MTU,
                mtu_v6: DEFAULT_MTU,
                metric: 0u16,
                tx_queue_len: 0u32,
                mac_addr: None::<[u8; 6]>,
                ipv4: None::<(Ipv4Address, u8, Option<Ipv4Address>)>,
                ipv6: Seq::<(Ipv6Address, u8)>::empty(),
                enabled: false,
            });
        }
        r
    }

    /// Execute one configuration step on the reported state.
    pub fn apply(&mut self, action: &ConfigAction)
        ensures
            final(self)@ == spec_apply(old(self)@, *action),
    {
        match action {
            ConfigAction::SetMtu(m) => {
                self.mtu = *m;
            },
            ConfigAction::SetMtuV6(m) => {
                self.mtu_v6 = *m;
            },
            ConfigAction::SetMetric(m) => {
                self.metric = *m;
            },
            ConfigAction::SetTxQueueLen(m) => {
                self.tx_queue_len = *m;
            },
            ConfigAction::SetMacAddress(mac) => {
                self.mac_addr = Some(*mac);
            },
            ConfigAction::SetIpv4(addr, prefix, dest) => {
                self.ipv4 = Some((*addr, *prefix, *dest));
            },
            ConfigAction::AddIpv6(addr, prefix) => {
                self.ipv6.push((*addr, *prefix));
            },
            ConfigAction::Enable(e) => {
                self.enabled = *e;
            },
        }
        proof {
            assert(self@ =~= spec_apply(old(self)@, *action));
        }
    }

    /// Execute a whole plan, in order.
    pub fn apply_all(&mut self, plan: &Vec<ConfigAction>)
        ensures
            final(self)@ == spec_apply_all(old(self)@, plan@),
    {
        let n = plan.len();
        let mut i: usize = 0;
        while i < n
            invariant
                i <= n,
                n == plan@.len(),
                self@ == spec_apply_all(old(self)@, plan@.take(i as int)),
            decreases n - i,
        {
            self.apply(&plan[i]);
            proof {
                assert(plan@.take(i + 1) =~= plan@.take(i as int).push(plan@[i as int]));
                lemma_apply_all_push(old(self)@, plan@.take(i as int), plan@[i as int]);
            }
            i = i + 1;
        }
        proof {
            assert(plan@.take(n as int) =~= plan@);
        }
    }

    /// The reported MTU.
    pub fn mtu(&self) -> (r: u16)
        ensures
            r == self.mtu,
    {
        self.mtu
    }

    /// The reported IPv6 MTU.
    pub fn mtu_v6(&self) -> (r: u16)
        ensures
            r == self.mtu_v6,
    {
        self.mtu_v6
    }

    /// The configured IPv4 address, if any.
    pub fn address(&self) -> (r: Option<Ipv4Address>)
        ensures
            self.ipv4 matches Some(v4cfg) ==> r == Some(v4cfg.0),
            self.ipv4 is None ==> r is None,
    {
        match &self.ipv4 {
            Some((a, _, _)) => Some(*a),
            None => None,
        }
    }

    /// The netmask of the configured IPv4 address: the mask of its prefix
    /// length, when that length fits an address.
    pub fn netmask(&self) -> (r: Option<Ipv4Address>)
        ensures
            self.ipv4 matches Some(v4cfg) ==> r == (if v4cfg.1 <= 32 {
                Some(Ipv4Address { bits: spec_mask32(v4cfg.1) })
            } else {
                None::<Ipv4Address>
            }),
            self.ipv4 is None ==> r is None,
    {
        match &self.ipv4 {
            Some((_, p, _)) => match crate::addr::ipv4_mask_from_prefix(*p) {
                Ok(mask) => Some(mask),
                Err(_) => None,
            },
            None => None,
        }
    }

    /// The configured IPv4 peer, if any.
    pub fn destination(&self) -> (r: Option<Ipv4Address>)
        ensures
            self.ipv4 matches Some(v4cfg) ==> r == v4cfg.2,
            self.ipv4 is None ==> r is None,
    {
        match &self.ipv4 {
            Some((_, _, d)) => *d,
            None => None,
        }
    }

    /// The reported hardware address, if one was set.
    pub fn mac_address(&self) -> (r: Option<[u8; 6]>)
        ensures
            r == self.mac_addr,
    {
        self.mac_addr
    }

    /// Whether the interface is up.
    pub fn enabled(&self) -> (r: bool)
        ensures
            r == self.enabled,
    {
        self.enabled
    }
}

/// The descriptor-backed device: a wrapped descriptor and the
/// packet-information switch.
pub struct DeviceImpl {
    tun: Tun,
}

impl DeviceImpl {
    /// The wrapped backend.
    pub closed spec fn spec_tun(&self) -> Tun {
        self.tun
    }

    /// Wrap a descriptor backend as a device.
    pub fn from_tun(tun: Tun) -> (r: DeviceImpl)
        ensures
            r.spec_tun() == tun,
    {
        DeviceImpl { tun }
    }

    /// Whether the packet-information header is stripped and ignored.
    pub fn ignore_packet_info(&self) -> (r: bool)
        ensures
            r == self.spec_tun().ignore_packet_info,
    {
        self.tun.ignore_packet_info()
    }

    /// Choose whether to strip and ignore the header.
    pub fn set_ignore_packet_info(&mut self, ign: bool)
        ensures
            final(self).spec_tun() == (Tun { ignore_packet_info: ign, ..old(self).spec_tun() }),
    {
        self.tun.set_ignore_packet_info(ign);
    }

    /// Whether the platform frames packets with its header.
    pub fn packet_information(&self) -> (r: bool)
        ensures
            r == self.spec_tun().packet_information,
    {
        self.tun.packet_information()
    }
}

} // verus!
