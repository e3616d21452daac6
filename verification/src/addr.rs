//! Address values and the conversions the configuration layer needs.
//!
//! Addresses are held as plain integers in network order: the first octet
//! of the textual form is the high byte of the value.  The module covers
//! the conversions the builder accepts (raw words, octet tuples, dotted
//! text), prefix-length/netmask arithmetic in both directions, and the
//! hardware-address text form.

use vstd::prelude::*;
use crate::error::ConfigError;

verus! {

/// An IPv4 address as its 32-bit network-order value.
#[derive(Clone, Copy, Debug, PartialEq, Eq, Structural)]
pub struct Ipv4Address {
    pub bits: u32,
}

/// An IPv6 address as its 128-bit network-order value.
#[derive(Clone, Copy, Debug, PartialEq, Eq, Structural)]
pub struct Ipv6Address {
    pub bits: u128,
}

/// Either kind of address.
#[derive(Clone, Copy, Debug, PartialEq, Eq, Structural)]
pub enum IpAddress {
    V4(Ipv4Address),
    V6(Ipv6Address),
}

/// The 32-bit value with octets `a.b.c.d`.
pub open spec fn spec_ipv4_bits(a: u8, b: u8, c: u8, d: u8) -> u32 {
    ((a as u32) << 24) | ((b as u32) << 16) | ((c as u32) << 8) | (d as u32)
}

impl Ipv4Address {
    /// The address `a.b.c.d`.
    pub fn new(a: u8, b: u8, c: u8, d: u8) -> (r: Ipv4Address)
        ensures
            r.bits == spec_ipv4_bits(a, b, c, d),
    {
        Ipv4Address {
            bits: ((a as u32) << 24) | ((b as u32) << 16) | ((c as u32) << 8) | (d as u32),
        }
    }

    /// The four octets, most significant first.
    pub fn octets(&self) -> (r: [u8; 4])
        ensures
            r[0] == (self.bits >> 24) as u8,
            r[1] == ((self.bits >> 16) & 0xFF) as u8,
            r[2] == ((self.bits >> 8) & 0xFF) as u8,
            r[3] == (self.bits & 0xFF) as u8,
    {
        [
            (self.bits >> 24) as u8,
            ((self.bits >> 16) & 0xFF) as u8,
            ((self.bits >> 8) & 0xFF) as u8,
            (self.bits & 0xFF) as u8,
        ]
    }
}

impl IpAddress {
    /// Whether this is an IPv6 address.
    pub fn is_ipv6(&self) -> (r: bool)
        ensures
            r == (self is V6),
    {
        match self {
            IpAddress::V4(_) => false,
            IpAddress::V6(_) => true,
        }
    }

    /// Whether this is an IPv4 address.
    pub fn is_ipv4(&self) -> (r: bool)
        ensures
            r == (self is V4),
    {
        match self {
            IpAddress::V4(_) => true,
            IpAddress::V6(_) => false,
        }
    }
}

/// The IPv4 netmask of a prefix length: `prefix` one-bits from the top.
/// Meaningful for `prefix <= 32`.
pub open spec fn spec_mask32(prefix: u8) -> u32 {
    if prefix == 0 {
        0u32
    } else {
        (0xFFFF_FFFFu32 << ((32 - prefix) as u32)) as u32
    }
}

/// The IPv6 netmask of a prefix length: `prefix` one-bits from the top.
/// Meaningful for `prefix <= 128`.
pub open spec fn spec_mask128(prefix: u8) -> u128 {
    if prefix == 0 {
        0u128
    } else {
        (0xFFFF_FFFF_FFFF_FFFF_FFFF_FFFF_FFFF_FFFFu128 << ((128 - prefix) as u128)) as u128
    }
}

/// The netmask with `prefix` leading one-bits, or `InvalidAddress` when the
/// prefix exceeds an IPv4 address's 32 bits.
pub fn ipv4_mask_from_prefix(prefix: u8) -> (r: Result<Ipv4Address, ConfigError>)
    ensures
        prefix <= 32 ==> r == Ok::<Ipv4Address, ConfigError>(Ipv4Address {
            bits: spec_mask32(prefix),
        }),
        prefix > 32 ==> r == Err::<Ipv4Address, ConfigError>(ConfigError::InvalidAddress),
{
    if prefix > 32 {
        Err(ConfigError::InvalidAddress)
    } else if prefix == 0 {
        Ok(Ipv4Address { bits: 0 })
    } else {
        let shift: u32 = 32 - (prefix as u32);
        Ok(Ipv4Address { bits: 0xFFFF_FFFFu32 << shift })
    }
}

/// The netmask with `prefix` leading one-bits, or `InvalidAddress` when the
/// prefix exceeds an IPv6 address's 128 bits.
pub fn ipv6_mask_from_prefix(prefix: u8) -> (r: Result<Ipv6Address, ConfigError>)
    ensures
        prefix <= 128 ==> r == Ok::<Ipv6Address, ConfigError>(Ipv6Address {
            bits: spec_mask128(prefix),
        }),
        prefix > 128 ==> r == Err::<Ipv6Address, ConfigError>(ConfigError::InvalidAddress),
{
    if prefix > 128 {
        Err(ConfigError::InvalidAddress)
    } else if prefix == 0 {
        Ok(Ipv6Address { bits: 0 })
    } else {
        let shift: u128 = 128 - (prefix as u128);
        Ok(Ipv6Address { bits: 0xFFFF_FFFF_FFFF_FFFF_FFFF_FFFF_FFFF_FFFFu128 << shift })
    }
}

/// The prefix length of a contiguous IPv4 netmask; `InvalidAddress` when
/// the mask is not of the form "ones, then zeros".
pub fn ipv4_mask_to_prefix(mask: Ipv4Address) -> (r: Result<u8, ConfigError>)
    ensures
        r matches Ok(p) ==> p <= 32 && mask.bits == spec_mask32(p),
        r is Err ==> forall|p: u8| p <= 32 ==> mask.bits != spec_mask32(p),
{
    let mut p: u8 = 0;
    loop
        invariant
            p <= 33,
            forall|q: u8| q < p ==> mask.bits != spec_mask32(q),
        ensures
            (p <= 32 && mask.bits == spec_mask32(p)) || (p == 33 && forall|q: u8|
                q <= 32 ==> mask.bits != spec_mask32(q)),
        decreases 33 - p,
    {
        if p > 32 {
            break;
        }
        let m = if p == 0 {
            0u32
        } else {
            0xFFFF_FFFFu32 << ((32 - p) as u32)
        };
        if mask.bits == m {
            break;
        }
        p = p + 1;
    }
    if p <= 32 {
        Ok(p)
    } else {
        Err(ConfigError::InvalidAddress)
    }
}

/// The prefix length of a contiguous IPv6 netmask; `InvalidAddress` when
/// the mask is not of the form "ones, then zeros".
pub fn ipv6_mask_to_prefix(mask: Ipv6Address) -> (r: Result<u8, ConfigError>)
    ensures
        r matches Ok(p) ==> p <= 128 && mask.bits == spec_mask128(p),
        r is Err ==> forall|p: u8| p <= 128 ==> mask.bits != spec_mask128(p),
{
    let mut p: u8 = 0;
    loop
        invariant
            p <= 129,
            forall|q: u8| q < p ==> mask.bits != spec_mask128(q),
        ensures
            (p <= 128 && mask.bits == spec_mask128(p)) || (p == 129 && forall|q: u8|
                q <= 128 ==> mask.bits != spec_mask128(q)),
        decreases 129 - p,
    {
        if p > 128 {
            break;
        }
        let m = if p == 0 {
            0u128
        } else {
            0xFFFF_FFFF_FFFF_FFFF_FFFF_FFFF_FFFF_FFFFu128 << ((128 - p) as u128)
        };
        if mask.bits == m {
            break;
        }
        p = p + 1;
    }
    if p <= 128 {
        Ok(p)
    } else {
        Err(ConfigError::InvalidAddress)
    }
}

/// How many of the low `k` bits of `b` are ones.
pub open spec fn spec_ones_below32(b: u32, k: int) -> int
    decreases k,
{
    if k <= 0 {
        0
    } else {
        spec_ones_below32(b, k - 1) + (if (b >> ((k - 1) as u32)) & 1 == 1 {
            1int
        } else {
            0int
        })
    }
}

/// How many of the low `k` bits of `b` are ones.
pub open spec fn spec_ones_below128(b: u128, k: int) -> int
    decreases k,
{
    if k <= 0 {
        0
    } else {
        spec_ones_below128(b, k - 1) + (if (b >> ((k - 1) as u128)) & 1 == 1 {
            1int
        } else {
            0int
        })
    }
}

/// Count the one-bits of a 32-bit word.
pub fn count_ones32(b: u32) -> (r: u8)
    ensures
        r == spec_ones_below32(b, 32),
{
    let mut k: u32 = 0;
    let mut count: u8 = 0;
    while k < 32
        invariant
            k <= 32,
            count == spec_ones_below32(b, k as int),
            count <= k,
        decreases 32 - k,
    {
        if (b >> k) & 1 == 1 {
            count = count + 1;
        }
        k = k + 1;
    }
    count
}

/// Count the one-bits of a 128-bit word.
pub fn count_ones128(b: u128) -> (r: u8)
    ensures
        r == spec_ones_below128(b, 128),
{
    let mut k: u32 = 0;
    let mut count: u8 = 0;
    while k < 128
        invariant
            k <= 128,
            count == spec_ones_below128(b, k as int),
            count <= k,
        decreases 128 - k,
    {
        if (b >> (k as u128)) & 1 == 1 {
            count = count + 1;
        }
        k = k + 1;
    }
    count
}

/// Anything the builder accepts as an IPv4 netmask argument.
pub trait ToIpv4Netmask {
    /// The prefix length this value denotes.
    spec fn spec_prefix(&self) -> u8;

    /// Return the prefix length.
    fn prefix(&self) -> (r: u8)
        ensures
            r == self.spec_prefix(),
    ;
}

impl ToIpv4Netmask for u8 {
    open spec fn spec_prefix(&self) -> u8 {
        *self
    }

    fn prefix(&self) -> u8 {
        *self
    }
}

impl ToIpv4Netmask for Ipv4Address {
    /// A mask value denotes the number of its one-bits.
    open spec fn spec_prefix(&self) -> u8 {
        spec_ones_below32(self.bits, 32) as u8
    }

    fn prefix(&self) -> u8 {
        count_ones32(self.bits)
    }
}

/// Anything the builder accepts as an IPv6 netmask argument.
pub trait ToIpv6Netmask {
    /// The prefix length this value denotes.
    spec fn spec_prefix(&self) -> u8;

    /// Return the prefix length.
    fn prefix(&self) -> (r: u8)
        ensures
            r == self.spec_prefix(),
    ;
}

impl ToIpv6Netmask for u8 {
    open spec fn spec_prefix(&self) -> u8 {
        *self
    }

    fn prefix(&self) -> u8 {
        *self
    }
}

impl ToIpv6Netmask for Ipv6Address {
    /// A mask value denotes the number of its one-bits.
    open spec fn spec_prefix(&self) -> u8 {
        spec_ones_below128(self.bits, 128) as u8
    }

    fn prefix(&self) -> u8 {
        count_ones128(self.bits)
    }
}

/// Anything the configuration layer accepts as an address.
pub trait IntoAddress {
    /// The address this value denotes, or the rejection.
    spec fn spec_into_address(&self) -> Result<IpAddress, ConfigError>;

    /// Convert to an address.
    fn into_address(&self) -> (r: Result<IpAddress, ConfigError>)
        ensures
            r == self.spec_into_address(),
    ;
}

impl IntoAddress for u32 {
    /// A raw word is read in little-endian octet order: its low byte is the
    /// first octet.
    open spec fn spec_into_address(&self) -> Result<IpAddress, ConfigError> {
        Ok(IpAddress::V4(Ipv4Address {
            bits: spec_ipv4_bits(
                (*self & 0xFF) as u8,
                ((*self >> 8) & 0xFF) as u8,
                ((*self >> 16) & 0xFF) as u8,
                ((*self >> 24) & 0xFF) as u8,
            ),
        }))
    }

    fn into_address(&self) -> (r: Result<IpAddress, ConfigError>) {
        Ok(IpAddress::V4(Ipv4Address::new(
            (*self & 0xFF) as u8,
            ((*self >> 8) & 0xFF) as u8,
            ((*self >> 16) & 0xFF) as u8,
            ((*self >> 24) & 0xFF) as u8,
        )))
    }
}

impl IntoAddress for i32 {
    /// Same little-endian octet reading, on the value's bit pattern.
    open spec fn spec_into_address(&self) -> Result<IpAddress, ConfigError> {
        (*self as u32).spec_into_address()
    }

    fn into_address(&self) -> (r: Result<IpAddress, ConfigError>) {
        #[verifier::truncate]
        let v = *self as u32;
        v.into_address()
    }
}

impl IntoAddress for (u8, u8, u8, u8) {
    /// Four octets, first to last.
    open spec fn spec_into_address(&self) -> Result<IpAddress, ConfigError> {
        Ok(IpAddress::V4(Ipv4Address { bits: spec_ipv4_bits(self.0, self.1, self.2, self.3) }))
    }

    fn into_address(&self) -> (r: Result<IpAddress, ConfigError>) {
        Ok(IpAddress::V4(Ipv4Address::new(self.0, self.1, self.2, self.3)))
    }
}

impl IntoAddress for (u8, bool) {
    /// A prefix length with an address-family flag (true for IPv4) denotes
    /// the family's netmask; an oversized prefix is rejected.
    open spec fn spec_into_address(&self) -> Result<IpAddress, ConfigError> {
        let (prefix, ipv4) = *self;
        if ipv4 {
            if prefix <= 32 {
                Ok(IpAddress::V4(Ipv4Address { bits: spec_mask32(prefix) }))
            } else {
                Err(ConfigError::InvalidAddress)
            }
        } else {
            if prefix <= 128 {
                Ok(IpAddress::V6(Ipv6Address { bits: spec_mask128(prefix) }))
            } else {
                Err(ConfigError::InvalidAddress)
            }
        }
    }

    fn into_address(&self) -> (r: Result<IpAddress, ConfigError>) {
        let (prefix, ipv4) = *self;
        if ipv4 {
            match ipv4_mask_from_prefix(prefix) {
                Ok(mask) => Ok(IpAddress::V4(mask)),
                Err(e) => Err(e),
            }
        } else {
            match ipv6_mask_from_prefix(prefix) {
                Ok(mask) => Ok(IpAddress::V6(mask)),
                Err(e) => Err(e),
            }
        }
    }
}

impl IntoAddress for Ipv4Address {
    open spec fn spec_into_address(&self) -> Result<IpAddress, ConfigError> {
        Ok(IpAddress::V4(*self))
    }

    fn into_address(&self) -> (r: Result<IpAddress, ConfigError>) {
        Ok(IpAddress::V4(*self))
    }
}

impl IntoAddress for Ipv6Address {
    open spec fn spec_into_address(&self) -> Result<IpAddress, ConfigError> {
        Ok(IpAddress::V6(*self))
    }

    fn into_address(&self) -> (r: Result<IpAddress, ConfigError>) {
        Ok(IpAddress::V6(*self))
    }
}

impl IntoAddress for IpAddress {
    open spec fn spec_into_address(&self) -> Result<IpAddress, ConfigError> {
        Ok(*self)
    }

    fn into_address(&self) -> (r: Result<IpAddress, ConfigError>) {
        Ok(*self)
    }
}

} // verus!
