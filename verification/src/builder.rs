//! Declarative interface configuration and its application plan.
//!
//! A `DeviceBuilder` collects the requested options; `config_actions`
//! lowers them into the fixed order in which they must reach the OS: sizes
//! and link-layer address first, then network addresses, and the
//! enabled-state last, so an interface comes up only after it is fully
//! addressed.  `DeviceState` is the configuration surface of a device as
//! plain values; applying the plan to it shows what the configured device
//! reports.

use vstd::prelude::*;
use crate::addr::{Ipv4Address, Ipv6Address, ToIpv4Netmask, ToIpv6Netmask};

verus! {

/// The OSI layer a device operates on.
#[derive(Clone, Copy, Debug, PartialEq, Eq, Structural, Default)]
pub enum Layer {
    L2,
    #[default]
    L3,
}

/// The options consumed at device creation, taken out of the builder.
pub struct DeviceConfig {
    pub dev_name: Option<String>,
    pub layer: Option<Layer>,
    pub device_guid: Option<u128>,
    pub wintun_file: Option<String>,
    pub ring_capacity: Option<u32>,
    pub packet_information: Option<bool>,
    pub offload: Option<bool>,
    pub multi_queue: Option<bool>,
}

/// One configuration step, in the form the OS layer executes.
#[derive(Debug, PartialEq, Eq)]
pub enum ConfigAction {
    SetMtu(u16),
    SetMtuV6(u16),
    SetMetric(u16),
    SetTxQueueLen(u32),
    SetMacAddress([u8; 6]),
    SetIpv4(Ipv4Address, u8, Option<Ipv4Address>),
    AddIpv6(Ipv6Address, u8),
    Enable(bool),
}

/// Builder for a TUN/TAP interface.
pub struct DeviceBuilder {
    pub dev_name: Option<String>,
    pub enabled: Option<bool>,
    pub mtu: Option<u16>,
    pub mtu_v6: Option<u16>,
    pub ipv4: Option<(Ipv4Address, u8, Option<Ipv4Address>)>,
    pub ipv6: Option<Vec<(Ipv6Address, u8)>>,
    pub layer: Option<Layer>,
    pub mac_addr: Option<[u8; 6]>,
    pub device_guid: Option<u128>,
    pub wintun_file: Option<String>,
    pub ring_capacity: Option<u32>,
    pub metric: Option<u16>,
    pub packet_information: Option<bool>,
    pub tx_queue_len: Option<u32>,
    pub offload: Option<bool>,
    pub multi_queue: Option<bool>,
}

impl DeviceBuilder {
    /// A builder with nothing requested.
    pub fn new() -> (r: DeviceBuilder)
        ensures
            r.dev_name is None,
            r.enabled is None,
            r.mtu is None,
            r.mtu_v6 is None,
            r.ipv4 is None,
            r.ipv6 is None,
            r.layer is None,
            r.mac_addr is None,
            r.device_guid is None,
            r.wintun_file is None,
            r.ring_capacity is None,
            r.metric is None,
            r.packet_information is None,
            r.tx_queue_len is None,
            r.offload is None,
            r.multi_queue is None,
    {
        DeviceBuilder {
            dev_name: None,
            enabled: None,
            mtu: None,
            mtu_v6: None,
            ipv4: None,
            ipv6: None,
            layer: None,
            mac_addr: None,
            device_guid: None,
            wintun_file: None,
            ring_capacity: None,
            metric: None,
            packet_information: None,
            tx_queue_len: None,
            offload: None,
            multi_queue: None,
        }
    }

    /// Request an interface name.
    pub fn name(self, dev_name: String) -> (r: Self)
        ensures
            r == (DeviceBuilder { dev_name: Some(dev_name), ..self }),
    {
        DeviceBuilder { dev_name: Some(dev_name), ..self }
    }

    /// Request an MTU.
    pub fn mtu(self, mtu: u16) -> (r: Self)
        ensures
            r == (DeviceBuilder { mtu: Some(mtu), ..self }),
    {
        DeviceBuilder { mtu: Some(mtu), ..self }
    }

    /// Request an MTU for the IPv6 stack.
    pub fn mtu_v6(self, mtu: u16) -> (r: Self)
        ensures
            r == (DeviceBuilder { mtu_v6: Some(mtu), ..self }),
    {
        DeviceBuilder { mtu_v6: Some(mtu), ..self }
    }

    /// Request a hardware address (honored on the link layer only).
    pub fn mac_addr(self, mac_addr: [u8; 6]) -> (r: Self)
        ensures
            r == (DeviceBuilder { mac_addr: Some(mac_addr), ..self }),
    {
        DeviceBuilder { mac_addr: Some(mac_addr), ..self }
    }

    /// Request an IPv4 address with a netmask and optional peer.
    pub fn ipv4<N: ToIpv4Netmask>(
        self,
        address: Ipv4Address,
        mask: N,
        destination: Option<Ipv4Address>,
    ) -> (r: Self)
        ensures
            r == (DeviceBuilder {
                ipv4: Some((address, mask.spec_prefix(), destination)),
                ..self
            }),
    {
        let prefix = mask.prefix();
        DeviceBuilder { ipv4: Some((address, prefix, destination)), ..self }
    }

    /// Request one more IPv6 address with its netmask.
    pub fn ipv6<N: ToIpv6Netmask>(self, address: Ipv6Address, mask: N) -> (r: Self)
        ensures
            self.ipv6 matches Some(v) ==> (r.ipv6 matches Some(v2) && v2@ == v@.push(
                (address, mask.spec_prefix()),
            )),
            self.ipv6 is None ==> (r.ipv6 matches Some(v2) && v2@ =~= seq![
                (address, mask.spec_prefix()),
            ]),
            r.dev_name == self.dev_name,
            r.enabled == self.enabled,
            r.mtu == self.mtu,
            r.mtu_v6 == self.mtu_v6,
            r.ipv4 == self.ipv4,
            r.layer == self.layer,
            r.mac_addr == self.mac_addr,
            r.device_guid == self.device_guid,
            r.wintun_file == self.wintun_file,
            r.ring_capacity == self.ring_capacity,
            r.metric == self.metric,
            r.packet_information == self.packet_information,
            r.tx_queue_len == self.tx_queue_len,
            r.offload == self.offload,
            r.multi_queue == self.multi_queue,
    {
        let prefix = mask.prefix();
        let mut b = self;
        match &mut b.ipv6 {
            Some(v) => {
                v.push((address, prefix));
            },
            None => {
                let mut v: Vec<(Ipv6Address, u8)> = Vec::new();
                v.push((address, prefix));
                b.ipv6 = Some(v);
            },
        }
        b
    }

    /// Request several IPv6 addresses at once, in order.
    pub fn ipv6_tuple<N: ToIpv6Netmask>(self, addrs: Vec<(Ipv6Address, N)>) -> (r: Self)
        ensures
            ({
                let added = Seq::new(addrs@.len(), |i: int| (addrs@[i].0, addrs@[i].1.spec_prefix()));
                &&& (self.ipv6 matches Some(v) ==> (r.ipv6 matches Some(v2) && v2@ == v@ + added))
                &&& (self.ipv6 is None ==> (r.ipv6 matches Some(v2) && v2@ == added))
            }),
            r.dev_name == self.dev_name,
            r.enabled == self.enabled,
            r.mtu == self.mtu,
            r.mtu_v6 == self.mtu_v6,
            r.ipv4 == self.ipv4,
            r.layer == self.layer,
            r.mac_addr == self.mac_addr,
            r.device_guid == self.device_guid,
            r.wintun_file == self.wintun_file,
            r.ring_capacity == self.ring_capacity,
            r.metric == self.metric,
            r.packet_information == self.packet_information,
            r.tx_queue_len == self.tx_queue_len,
            r.offload == self.offload,
            r.multi_queue == self.multi_queue,
    {
        let ghost added = Seq::new(addrs@.len(), |i: int| (addrs@[i].0, addrs@[i].1.spec_prefix()));
        let mut b = self;
        let mut v: Vec<(Ipv6Address, u8)> = match b.ipv6 {
            Some(v) => v,
            None => Vec::new(),
        };
        let ghost base = v@;
        let n = addrs.len();
        let mut i: usize = 0;
        let mut rest = addrs;
        let mut out: Vec<(Ipv6Address, u8)> = v;
        let ghost orig = rest@;
        while i < n
            invariant
                i <= n,
                n == orig.len(),
                rest@ == orig,
                added == Seq::new(orig.len(), |k: int| (orig[k].0, orig[k].1.spec_prefix())),
                out@ == base + added.take(i as int),
            decreases n - i,
        {
            let prefix = (&rest[i].1).prefix();
            let a = rest[i].0;
            out.push((a, prefix));
            proof {
                assert(base + added.take(i + 1) =~= (base + added.take(i as int)).push(
                    (orig[i as int].0, orig[i as int].1.spec_prefix()),
                ));
            }
            i = i + 1;
        }
        proof {
            assert(added.take(n as int) =~= added);
        }
        b.ipv6 = Some(out);
        b
    }

    /// Request the OSI layer.
    pub fn layer(self, layer: Layer) -> (r: Self)
        ensures
            r == (DeviceBuilder { layer: Some(layer), ..self }),
    {
        DeviceBuilder { layer: Some(layer), ..self }
    }

    /// Request a fixed adapter identity.
    pub fn device_guid(self, device_guid: u128) -> (r: Self)
        ensures
            r == (DeviceBuilder { device_guid: Some(device_guid), ..self }),
    {
        DeviceBuilder { device_guid: Some(device_guid), ..self }
    }

    /// Request a driver library path.
    pub fn wintun_file(self, wintun_file: String) -> (r: Self)
        ensures
            r == (DeviceBuilder { wintun_file: Some(wintun_file), ..self }),
    {
        DeviceBuilder { wintun_file: Some(wintun_file), ..self }
    }

    /// Request a ring capacity for the driver session.
    pub fn ring_capacity(self, ring_capacity: u32) -> (r: Self)
        ensures
            r == (DeviceBuilder { ring_capacity: Some(ring_capacity), ..self }),
    {
        DeviceBuilder { ring_capacity: Some(ring_capacity), ..self }
    }

    /// Request a route metric.
    pub fn metric(self, metric: u16) -> (r: Self)
        ensures
            r == (DeviceBuilder { metric: Some(metric), ..self }),
    {
        DeviceBuilder { metric: Some(metric), ..self }
    }

    /// Request a transmit queue length.
    pub fn tx_queue_len(self, tx_queue_len: u32) -> (r: Self)
        ensures
            r == (DeviceBuilder { tx_queue_len: Some(tx_queue_len), ..self }),
    {
        DeviceBuilder { tx_queue_len: Some(tx_queue_len), ..self }
    }

    /// Request offload support.
    pub fn offload(self, offload: bool) -> (r: Self)
        ensures
            r == (DeviceBuilder { offload: Some(offload), ..self }),
    {
        DeviceBuilder { offload: Some(offload), ..self }
    }

    /// Request multi-queue support.
    pub fn multi_queue(self, multi_queue: bool) -> (r: Self)
        ensures
            r == (DeviceBuilder { multi_queue: Some(multi_queue), ..self }),
    {
        DeviceBuilder { multi_queue: Some(multi_queue), ..self }
    }

    /// Request or refuse the packet-information header.
    pub fn packet_information(self, packet_information: bool) -> (r: Self)
        ensures
            r == (DeviceBuilder { packet_information: Some(packet_information), ..self }),
    {
        DeviceBuilder { packet_information: Some(packet_information), ..self }
    }

    /// Request the enabled-state to end at.
    pub fn enable(self, enable: bool) -> (r: Self)
        ensures
            r == (DeviceBuilder { enabled: Some(enable), ..self }),
    {
        DeviceBuilder { enabled: Some(enable), ..self }
    }

    /// Take the creation-time options out of the builder.
    pub fn build_config(&mut self) -> (r: DeviceConfig)
        ensures
            r.dev_name == old(self).dev_name,
            r.layer == old(self).layer,
            r.device_guid == old(self).device_guid,
            r.wintun_file == old(self).wintun_file,
            r.ring_capacity == old(self).ring_capacity,
            r.packet_information == old(self).packet_information,
            r.offload == old(self).offload,
            r.multi_queue == old(self).multi_queue,
            final(self).dev_name is None,
            final(self).layer is None,
            final(self).device_guid is None,
            final(self).wintun_file is None,
            final(self).ring_capacity is None,
            final(self).packet_information is None,
            final(self).offload is None,
            final(self).multi_queue is None,
            final(self).enabled == old(self).enabled,
            final(self).mtu == old(self).mtu,
            final(self).mtu_v6 == old(self).mtu_v6,
            final(self).ipv4 == old(self).ipv4,
            final(self).ipv6 == old(self).ipv6,
            final(self).mac_addr == old(self).mac_addr,
            final(self).metric == old(self).metric,
            final(self).tx_queue_len == old(self).tx_queue_len,
    {
        DeviceConfig {
            dev_name: self.dev_name.take(),
            layer: self.layer.take(),
            device_guid: self.device_guid.take(),
            wintun_file: self.wintun_file.take(),
            ring_capacity: self.ring_capacity.take(),
            packet_information: self.packet_information.take(),
            offload: self.offload.take(),
            multi_queue: self.multi_queue.take(),
        }
    }
}

/// The hardware address is set only when the link layer was requested.
pub open spec fn spec_mac_actions(b: DeviceBuilder) -> Seq<ConfigAction> {
    match b.mac_addr {
        Some(mac) => {
            let layer = match b.layer {
                Some(l) => l,
                None => Layer::L3,
            };
            if layer == Layer::L2 {
                seq![ConfigAction::SetMacAddress(mac)]
            } else {
                Seq::empty()
            }
        },
        None => Seq::empty(),
    }
}

/// One action per requested IPv6 address, in request order.
pub open spec fn spec_ipv6_actions(b: DeviceBuilder) -> Seq<ConfigAction> {
    match b.ipv6 {
        Some(v) => Seq::new(v@.len(), |i: int| ConfigAction::AddIpv6(v@[i].0, v@[i].1)),
        None => Seq::empty(),
    }
}

/// An option's action, or nothing.
pub open spec fn spec_opt_action(a: Option<ConfigAction>) -> Seq<ConfigAction> {
    match a {
        Some(x) => seq![x],
        None => Seq::empty(),
    }
}

/// The size, metric, queue-length and hardware-address steps, which all
/// precede any network address.
pub open spec fn spec_pre_actions(b: DeviceBuilder) -> Seq<ConfigAction> {
    spec_opt_action(match b.mtu {
        Some(m) => Some(ConfigAction::SetMtu(m)),
        None => None,
    }) + spec_opt_action(match b.mtu_v6 {
        Some(m) => Some(ConfigAction::SetMtuV6(m)),
        None => None,
    }) + spec_opt_action(match b.metric {
        Some(m) => Some(ConfigAction::SetMetric(m)),
        None => None,
    }) + spec_opt_action(match b.tx_queue_len {
        Some(m) => Some(ConfigAction::SetTxQueueLen(m)),
        None => None,
    }) + spec_mac_actions(b)
}

/// The IPv4 step, when one was requested.
pub open spec fn spec_ipv4_actions(b: DeviceBuilder) -> Seq<ConfigAction> {
    spec_opt_action(match b.ipv4 {
        Some((a, p, d)) => Some(ConfigAction::SetIpv4(a, p, d)),
        None => None,
    })
}

/// The enabled-state the plan ends at.
pub open spec fn spec_planned_enabled(b: DeviceBuilder) -> bool {
    match b.enabled {
        Some(e) => e,
        None => true,
    }
}

/// The full plan: sizes, metric, queue length and hardware address first,
/// then the IPv4 address, then every IPv6 address, and the enabled-state
/// last — an interface comes up only after it is addressed.
pub open spec fn spec_config_plan(b: DeviceBuilder) -> Seq<ConfigAction> {
    spec_pre_actions(b) + spec_ipv4_actions(b) + spec_ipv6_actions(b) + seq![
        ConfigAction::Enable(spec_planned_enabled(b)),
    ]
}

/// Every step before the addresses is a size, metric, queue-length or
/// hardware-address step.
pub proof fn lemma_pre_kinds(b: DeviceBuilder)
    ensures
        forall|i: int|
            0 <= i < spec_pre_actions(b).len() ==> {
                let a = #[trigger] spec_pre_actions(b)[i];
                !(a is Enable) && !(a is SetIpv4) && !(a is AddIpv6)
            },
{
}

/// Every step of the IPv6 part adds an IPv6 address.
pub proof fn lemma_ipv6_kinds(b: DeviceBuilder)
    ensures
        forall|i: int|
            0 <= i < spec_ipv6_actions(b).len() ==> (#[trigger] spec_ipv6_actions(b)[i]) is AddIpv6,
{
}

impl DeviceBuilder {
    /// Lower the builder's requests into the ordered list of steps the OS
    /// layer must execute.
    #[verifier::rlimit(100)]
    pub fn config_actions(&self) -> (r: Vec<ConfigAction>)
        ensures
            r@ == spec_config_plan(*self),
    {
        let mut out: Vec<ConfigAction> = Vec::new();
        if let Some(m) = self.mtu {
            out.push(ConfigAction::SetMtu(m));
        }
        if let Some(m) = self.mtu_v6 {
            out.push(ConfigAction::SetMtuV6(m));
        }
        if let Some(m) = self.metric {
            out.push(ConfigAction::SetMetric(m));
        }
        if let Some(m) = self.tx_queue_len {
            out.push(ConfigAction::SetTxQueueLen(m));
        }
        if let Some(mac) = self.mac_addr {
            let layer = match self.layer {
                Some(l) => l,
                None => Layer::L3,
            };
            if layer == Layer::L2 {
                out.push(ConfigAction::SetMacAddress(mac));
            }
        }
        proof {
            assert(out@ =~= spec_pre_actions(*self));
        }
        if let Some((a, p, d)) = self.ipv4 {
            out.push(ConfigAction::SetIpv4(a, p, d));
        }
        proof {
            assert(out@ =~= spec_pre_actions(*self) + spec_ipv4_actions(*self));
        }
        let ghost before_v6 = out@;
        if let Some(v) = &self.ipv6 {
            let n = v.len();
            let mut i: usize = 0;
            while i < n
                invariant
                    i <= n,
                    self.ipv6 matches Some(vv) && vv@ == v@,
                    n == v@.len(),
                    out@ == before_v6 + spec_ipv6_actions(*self).take(i as int),
                decreases n - i,
            {
                let (a, p) = v[i];
                out.push(ConfigAction::AddIpv6(a, p));
                proof {
                    assert(spec_ipv6_actions(*self)[i as int] == ConfigAction::AddIpv6(
                        v@[i as int].0,
                        v@[i as int].1,
                    ));
                    assert(before_v6 + spec_ipv6_actions(*self).take(i + 1) =~= (before_v6
                        + spec_ipv6_actions(*self).take(i as int)).push(
                        spec_ipv6_actions(*self)[i as int],
                    ));
                }
                i = i + 1;
            }
            proof {
                assert(spec_ipv6_actions(*self).take(n as int) =~= spec_ipv6_actions(*self));
            }
        }
        let enabled = match self.enabled {
            Some(e) => e,
            None => true,
        };
        out.push(ConfigAction::Enable(enabled));
        proof {
            assert(out@ =~= spec_config_plan(*self));
        }
        out
    }
}

/// The ordering law of the plan: it always ends by setting the
/// enabled-state, no other step touches it, and the MTU, when requested,
/// precedes the IPv4 address, which precedes every IPv6 address.
pub proof fn lemma_config_order(b: DeviceBuilder)
    ensures
        ({
            let plan = spec_config_plan(b);
            &&& plan.len() > 0
            &&& plan.last() == ConfigAction::Enable(spec_planned_enabled(b))
            &&& forall|i: int| 0 <= i < plan.len() - 1 ==> !(#[trigger] plan[i] is Enable)
            &&& forall|i: int, j: int|
                0 <= i < plan.len() && 0 <= j < plan.len() && #[trigger] plan[i] is SetMtu
                    && #[trigger] plan[j] is SetIpv4 ==> i < j
            &&& forall|i: int, j: int|
                0 <= i < plan.len() && 0 <= j < plan.len() && #[trigger] plan[i] is SetIpv4
                    && #[trigger] plan[j] is AddIpv6 ==> i < j
        }),
{
    let plan = spec_config_plan(b);
    let pre = spec_pre_actions(b);
    let v4 = spec_ipv4_actions(b);
    let v6 = spec_ipv6_actions(b);
    lemma_pre_kinds(b);
    lemma_ipv6_kinds(b);
    assert(plan.last() == ConfigAction::Enable(spec_planned_enabled(b)));
    assert forall|i: int| 0 <= i < plan.len() - 1 implies !(#[trigger] plan[i] is Enable) by {
        if i < pre.len() {
            assert(plan[i] == pre[i]);
        } else if i < pre.len() + v4.len() {
            assert(plan[i] == v4[i - pre.len()]);
            assert(v4[i - pre.len()] is SetIpv4);
        } else {
            assert(plan[i] == v6[i - pre.len() - v4.len()]);
        }
    }
    assert forall|i: int, j: int|
        0 <= i < plan.len() && 0 <= j < plan.len() && #[trigger] plan[i] is SetMtu
            && #[trigger] plan[j] is SetIpv4 implies i < j by {
        assert(i < pre.len()) by {
            if i >= pre.len() {
                if i < pre.len() + v4.len() {
                    assert(plan[i] == v4[i - pre.len()]);
                    assert(plan[i] is SetIpv4);
                } else if i < pre.len() + v4.len() + v6.len() {
                    assert(plan[i] == v6[i - pre.len() - v4.len()]);
                } else {
                    assert(plan[i] == ConfigAction::Enable(spec_planned_enabled(b)));
                }
            }
        }
        assert(j >= pre.len()) by {
            if j < pre.len() {
                assert(plan[j] == pre[j]);
            }
        }
    }
    assert forall|i: int, j: int|
        0 <= i < plan.len() && 0 <= j < plan.len() && #[trigger] plan[i] is SetIpv4
            && #[trigger] plan[j] is AddIpv6 implies i < j by {
        assert(i < pre.len() + v4.len()) by {
            if i >= pre.len() + v4.len() {
                if i < pre.len() + v4.len() + v6.len() {
                    assert(plan[i] == v6[i - pre.len() - v4.len()]);
                    assert(plan[i] is AddIpv6);
                } else {
                    assert(plan[i] == ConfigAction::Enable(spec_planned_enabled(b)));
                }
            }
        }
        assert(j >= pre.len() + v4.len()) by {
            if j < pre.len() {
                assert(plan[j] == pre[j]);
            } else if j < pre.len() + v4.len() {
                assert(plan[j] == v4[j - pre.len()]);
                assert(plan[j] is SetIpv4);
            }
        }
    }
}

} // verus!
