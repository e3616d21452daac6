//! Bit-level accessors for packed OS structures.
//!
//! The Windows backend identifies an adapter by a 64-bit locally-unique
//! identifier whose fields are packed bit ranges.  `__BindgenBitfieldUnit` gives
//! verified read/write access to such ranges inside a 64-bit word, and
//! `NetLuidInfo` exposes the three packed fields of that identifier.

use vstd::prelude::*;

verus! {

/// Bit `index` of `storage` (little-endian bit order within the word).
pub open spec fn bit_at(storage: u64, index: u64) -> bool {
    (storage >> index) & 1 == 1
}

/// A word whose low `width` bits are ones.
pub open spec fn low_mask(width: u64) -> u64 {
    if width >= 64 {
        0xFFFF_FFFF_FFFF_FFFFu64
    } else {
        ((1u64 << width) - 1) as u64
    }
}

/// Shifting one left never reaches zero for shifts below the word width.
proof fn lemma_shift_one_positive(width: u64)
    requires
        width < 64,
    ensures
        1u64 << width >= 1,
{
    assert(1u64 << width >= 1) by (bit_vector)
        requires width < 64;
}

/// The `width`-bit field of `storage` that starts at bit `offset`.
pub open spec fn bits_get(storage: u64, offset: u64, width: u64) -> u64 {
    if width == 0 {
        0u64
    } else {
        (storage >> offset) & low_mask(width)
    }
}

/// `storage` with the `width`-bit field at `offset` replaced by the low
/// `width` bits of `val`; all other bits are unchanged.
pub open spec fn bits_set(storage: u64, offset: u64, width: u64, val: u64) -> u64 {
    if width == 0 {
        storage
    } else {
        (storage & !(low_mask(width) << offset)) | ((val & low_mask(width)) << offset)
    }
}

#[allow(non_camel_case_types)]
/// A 64-bit storage word holding packed bit fields.
#[derive(Clone, Copy, Debug, PartialEq, Eq, Structural)]
pub struct __BindgenBitfieldUnit {
    pub storage: u64,
}

impl __BindgenBitfieldUnit {
    /// Wrap a raw storage word.
    pub fn new(storage: u64) -> (r: Self)
        ensures
            r.storage == storage,
    {
        __BindgenBitfieldUnit { storage }
    }

    /// Read one bit.
    pub fn get_bit(&self, index: usize) -> (r: bool)
        requires
            index < 64,
        ensures
            r == bit_at(self.storage, index as u64),
    {
        (self.storage >> (index as u64)) & 1 == 1
    }

    /// Write one bit, leaving every other bit unchanged.
    pub fn set_bit(&mut self, index: usize, val: bool)
        requires
            index < 64,
        ensures
            final(self).storage == bits_set(old(self).storage, index as u64, 1, if val { 1u64 } else { 0u64 }),
            forall|j: u64| j < 64 ==> bit_at(final(self).storage, j)
                == (if j == index as u64 { val } else { bit_at(old(self).storage, j) }),
    {
        let index = index as u64;
        if val {
            self.storage = self.storage | (1u64 << index);
        } else {
            self.storage = self.storage & !(1u64 << index);
        }
        proof {
            lemma_set_one_bit(old(self).storage, index, val);
        }
    }

    /// Read the `bit_width`-bit field starting at `bit_offset`.
    pub fn get(&self, bit_offset: usize, bit_width: u8) -> (r: u64)
        requires
            bit_offset + bit_width <= 64,
        ensures
            r == bits_get(self.storage, bit_offset as u64, bit_width as u64),
    {
        if bit_width == 0 {
            return 0;
        }
        let offset = bit_offset as u64;
        let width = bit_width as u64;
        let mask: u64 = if width == 64 {
            u64::MAX
        } else {
            proof { lemma_shift_one_positive(width); }
            (1u64 << width) - 1
        };
        assert(mask == low_mask(width));
        (self.storage >> offset) & mask
    }

    /// Overwrite the `bit_width`-bit field starting at `bit_offset` with the
    /// low `bit_width` bits of `val`, leaving all other bits unchanged.
    pub fn set(&mut self, bit_offset: usize, bit_width: u8, val: u64)
        requires
            bit_offset + bit_width <= 64,
        ensures
            final(self).storage == bits_set(old(self).storage, bit_offset as u64, bit_width as u64, val),
    {
        if bit_width == 0 {
            return;
        }
        let offset = bit_offset as u64;
        let width = bit_width as u64;
        let mask: u64 = if width == 64 {
            u64::MAX
        } else {
            proof { lemma_shift_one_positive(width); }
            (1u64 << width) - 1
        };
        assert(mask == low_mask(width));
        self.storage = (self.storage & !(mask << offset)) | ((val & mask) << offset);
    }
}

/// Setting a single bit changes that bit to the given value and no other.
proof fn lemma_set_one_bit(s: u64, i: u64, v: bool)
    requires
        i < 64,
    ensures
        (if v { s | (1u64 << i) } else { s & !(1u64 << i) })
            == bits_set(s, i, 1, if v { 1u64 } else { 0u64 }),
        forall|j: u64| j < 64 ==> bit_at(bits_set(s, i, 1, if v { 1u64 } else { 0u64 }), j)
            == (if j == i { v } else { bit_at(s, j) }),
{
    if v {
        assert(s | (1u64 << i) == (s & !(1u64 << i)) | ((1u64 & 1u64) << i)) by (bit_vector)
            requires i < 64;
        assert(forall|j: u64| j < 64 ==> #[trigger] (((s | (1u64 << i)) >> j) & 1)
            == (if j == i { 1u64 } else { (s >> j) & 1 })) by (bit_vector)
            requires i < 64;
    } else {
        assert(s & !(1u64 << i) == (s & !(1u64 << i)) | ((0u64 & 1u64) << i)) by (bit_vector)
            requires i < 64;
        assert(forall|j: u64| j < 64 ==> #[trigger] (((s & !(1u64 << i)) >> j) & 1)
            == (if j == i { 0u64 } else { (s >> j) & 1 })) by (bit_vector)
            requires i < 64;
    }
    assert(forall|j: u64| j < 64 ==> #[trigger] ((s >> j) & 1) == 1 || (s >> j) & 1 == 0) by (bit_vector);
    assert(1u64 << 1 == 2u64) by (bit_vector);
    assert(low_mask(1) == 1u64);
    let s2 = bits_set(s, i, 1, if v { 1u64 } else { 0u64 });
    assert(s2 == (if v { s | (1u64 << i) } else { s & !(1u64 << i) }));
    assert forall|j: u64| j < 64 implies bit_at(s2, j) == (if j == i { v } else { bit_at(s, j) }) by {
        if v {
            assert((((s | (1u64 << i)) >> j) & 1) == (if j == i { 1u64 } else { (s >> j) & 1 }));
        } else {
            assert((((s & !(1u64 << i)) >> j) & 1) == (if j == i { 0u64 } else { (s >> j) & 1 }));
        }
        assert((s >> j) & 1 == 1 || (s >> j) & 1 == 0);
    }
}

/// The packed fields of a Windows network-adapter LUID: 24 reserved bits,
/// a 24-bit adapter index, and a 16-bit interface type.
#[derive(Clone, Copy, Debug, PartialEq, Eq, Structural)]
pub struct NetLuidInfo {
    pub bitfield: __BindgenBitfieldUnit,
}

#[allow(non_snake_case)]
impl NetLuidInfo {
    /// Wrap a raw 64-bit LUID value.
    pub fn new(value: u64) -> (r: Self)
        ensures
            r.bitfield.storage == value,
    {
        NetLuidInfo { bitfield: __BindgenBitfieldUnit::new(value) }
    }

    /// The reserved field: bits 0 through 23.
    pub fn Reserved(&self) -> (r: u64)
        ensures
            r == bits_get(self.bitfield.storage, 0, 24),
    {
        self.bitfield.get(0, 24)
    }

    /// Replace the reserved field.
    pub fn set_Reserved(&mut self, val: u64)
        ensures
            final(self).bitfield.storage == bits_set(old(self).bitfield.storage, 0, 24, val),
    {
        self.bitfield.set(0, 24, val);
    }

    /// The adapter index: bits 24 through 47.
    pub fn NetLuidIndex(&self) -> (r: u64)
        ensures
            r == bits_get(self.bitfield.storage, 24, 24),
    {
        self.bitfield.get(24, 24)
    }

    /// Replace the adapter index.
    pub fn set_NetLuidIndex(&mut self, val: u64)
        ensures
            final(self).bitfield.storage == bits_set(old(self).bitfield.storage, 24, 24, val),
    {
        self.bitfield.set(24, 24, val);
    }

    /// The interface type: bits 48 through 63.
    pub fn IfType(&self) -> (r: u64)
        ensures
            r == bits_get(self.bitfield.storage, 48, 16),
    {
        self.bitfield.get(48, 16)
    }

    /// Replace the interface type.
    pub fn set_IfType(&mut self, val: u64)
        ensures
            final(self).bitfield.storage == bits_set(old(self).bitfield.storage, 48, 16, val),
    {
        self.bitfield.set(48, 16, val);
    }

    /// Pack the three fields into one storage word.  Each field lands in its
    /// own bit range, truncated to the range's width.
    pub fn new_bitfield_1(Reserved: u64, NetLuidIndex: u64, IfType: u64) -> (r: __BindgenBitfieldUnit)
        ensures
            bits_get(r.storage, 0, 24) == Reserved & low_mask(24),
            bits_get(r.storage, 24, 24) == NetLuidIndex & low_mask(24),
            bits_get(r.storage, 48, 16) == IfType & low_mask(16),
    {
        let mut unit = __BindgenBitfieldUnit::new(0);
        unit.set(0, 24, Reserved);
        unit.set(24, 24, NetLuidIndex);
        unit.set(48, 16, IfType);
        proof {
            lemma_pack_luid(Reserved, NetLuidIndex, IfType);
        }
        unit
    }
}

/// Packing the three LUID fields and reading each range back yields each
/// field truncated to its width.
proof fn lemma_pack_luid(r: u64, n: u64, i: u64)
    ensures
        ({
            let s = bits_set(bits_set(bits_set(0, 0, 24, r), 24, 24, n), 48, 16, i);
            &&& bits_get(s, 0, 24) == r & low_mask(24)
            &&& bits_get(s, 24, 24) == n & low_mask(24)
            &&& bits_get(s, 48, 16) == i & low_mask(16)
        }),
{
    let m24: u64 = 0xFF_FFFFu64;
    let m16: u64 = 0xFFFFu64;
    assert(1u64 << 24 == 0x100_0000u64) by (bit_vector);
    assert(1u64 << 16 == 0x1_0000u64) by (bit_vector);
    assert(low_mask(24) == m24);
    assert(low_mask(16) == m16);
    let s0 = (0u64 & !(m24 << 0)) | ((r & m24) << 0);
    let s1 = (s0 & !(m24 << 24)) | ((n & m24) << 24);
    let s2 = (s1 & !(m16 << 48)) | ((i & m16) << 48);
    assert(bits_set(0, 0, 24, r) == s0);
    assert(bits_set(s0, 24, 24, n) == s1);
    assert(bits_set(s1, 48, 16, i) == s2);
    assert({
        let m24: u64 = 0xFF_FFFFu64;
        let m16: u64 = 0xFFFFu64;
        let s0 = (0u64 & !(m24 << 0)) | ((r & m24) << 0);
        let s1 = (s0 & !(m24 << 24)) | ((n & m24) << 24);
        let s2 = (s1 & !(m16 << 48)) | ((i & m16) << 48);
        &&& (s2 >> 0) & m24 == r & m24
        &&& (s2 >> 24) & m24 == n & m24
        &&& (s2 >> 48) & m16 == i & m16
    }) by (bit_vector);
}

} // verus!
