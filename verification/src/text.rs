//! Textual address forms: parsing IPv4 and IPv6 address text, and
//! printing hardware addresses.
//!
//! Each grammar is stated over the byte sequence of the text.  IPv4 text
//! is the dotted quad: four decimal segments of one to three digits, each
//! at most 255 and without leading zeros, separated by single dots.  IPv6
//! text is colon-grouped: hexadecimal groups of one to four digits, eight
//! of them, or fewer around a single `::` that stands for the missing
//! zero groups.

use vstd::prelude::*;
use vstd::string::StringExecFns;
use vstd::string::StringSliceAdditionalSpecFns;
use vstd::utf8::encode_utf8;
use crate::addr::{spec_ipv4_bits, IntoAddress, IpAddress, Ipv4Address, Ipv6Address};
use crate::error::ConfigError;

verus! {

/// The byte of the separating dot.
pub const DOT: u8 = 0x2E;

/// A decimal digit byte.
pub open spec fn is_digit(b: u8) -> bool {
    0x30 <= b <= 0x39
}

/// Index of the first dot at or after `from`; the length when there is
/// none.
pub open spec fn find_dot(s: Seq<u8>, from: int) -> int
    decreases s.len() - from,
{
    if from < 0 || from >= s.len() {
        s.len() as int
    } else if s[from] == DOT {
        from
    } else {
        find_dot(s, from + 1)
    }
}

/// The characterization pins `find_dot` down: any position that is a dot
/// with no dot before it (from `from`) is the one `find_dot` returns.
pub proof fn lemma_find_dot_unique(s: Seq<u8>, from: int, f: int)
    requires
        0 <= from <= f <= s.len(),
        f < s.len() ==> s[f] == DOT,
        forall|m: int| from <= m < f ==> s[m] != DOT,
    ensures
        find_dot(s, from) == f,
    decreases f - from,
{
    if from < f {
        assert(s[from] != DOT);
        lemma_find_dot_unique(s, from + 1, f);
    }
}

/// The decimal value of a digit run.
pub open spec fn seg_val(s: Seq<u8>) -> int
    decreases s.len(),
{
    if s.len() == 0 {
        0
    } else {
        seg_val(s.drop_last()) * 10 + (s.last() - 0x30)
    }
}

/// Every byte is a decimal digit.
pub open spec fn all_digits(s: Seq<u8>) -> bool {
    forall|i: int| 0 <= i < s.len() ==> is_digit(#[trigger] s[i])
}

/// A well-formed segment: one to three digits, no leading zero, value at
/// most 255.
pub open spec fn seg_ok(s: Seq<u8>) -> bool {
    &&& 1 <= s.len() <= 3
    &&& all_digits(s)
    &&& (s.len() > 1 ==> s[0] != 0x30)
    &&& seg_val(s) <= 255
}

/// A digit run's value is nonnegative and below ten to its length.
pub proof fn lemma_seg_val_bound(s: Seq<u8>)
    requires
        all_digits(s),
        s.len() <= 3,
    ensures
        0 <= seg_val(s),
        s.len() <= 1 ==> seg_val(s) <= 9,
        s.len() <= 2 ==> seg_val(s) <= 99,
        seg_val(s) <= 999,
    decreases s.len(),
{
    if s.len() > 0 {
        assert(all_digits(s.drop_last())) by {
            assert(forall|i: int| 0 <= i < s.len() - 1 ==> s.drop_last()[i] == s[i]);
        }
        lemma_seg_val_bound(s.drop_last());
    }
}

/// The dotted-quad reading of a byte string: exactly three dots, four
/// well-formed segments between them.
pub open spec fn spec_parse_ipv4(s: Seq<u8>) -> Result<Ipv4Address, ConfigError> {
    let i = find_dot(s, 0);
    let j = find_dot(s, i + 1);
    let k = find_dot(s, j + 1);
    if i < s.len() && j < s.len() && k < s.len() && find_dot(s, k + 1) == s.len() && seg_ok(
        s.subrange(0, i),
    ) && seg_ok(s.subrange(i + 1, j)) && seg_ok(s.subrange(j + 1, k)) && seg_ok(
        s.subrange(k + 1, s.len() as int),
    ) {
        Ok(Ipv4Address {
            bits: spec_ipv4_bits(
                seg_val(s.subrange(0, i)) as u8,
                seg_val(s.subrange(i + 1, j)) as u8,
                seg_val(s.subrange(j + 1, k)) as u8,
                seg_val(s.subrange(k + 1, s.len() as int)) as u8,
            ),
        })
    } else {
        Err(ConfigError::InvalidAddress)
    }
}

/// Find the first dot at or after `from`, as `find_dot` does.
fn find_dot_at(b: &[u8], from: usize) -> (r: usize)
    requires
        from <= b@.len(),
    ensures
        r == find_dot(b@, from as int),
        from <= r <= b@.len(),
{
    let n = b.len();
    let mut i = from;
    while i < n
        invariant
            from <= i <= n,
            n == b@.len(),
            forall|m: int| from <= m < i ==> b@[m] != DOT,
        decreases n - i,
    {
        if b[i] == DOT {
            proof {
                lemma_find_dot_unique(b@, from as int, i as int);
            }
            return i;
        }
        i = i + 1;
    }
    proof {
        lemma_find_dot_unique(b@, from as int, n as int);
    }
    n
}

/// Parse the segment `b[start..end]`: its value when well formed, nothing
/// otherwise.
fn parse_seg(b: &[u8], start: usize, end: usize) -> (r: Option<u8>)
    requires
        start <= end <= b@.len(),
    ensures
        r is Some <==> seg_ok(b@.subrange(start as int, end as int)),
        r matches Some(v) ==> v == seg_val(b@.subrange(start as int, end as int)),
{
    let ghost seg = b@.subrange(start as int, end as int);
    let len = end - start;
    if len == 0 || len > 3 {
        return None;
    }
    if len > 1 && b[start] == 0x30 {
        return None;
    }
    let mut val: u32 = 0;
    let mut i = start;
    while i < end
        invariant
            start <= i <= end,
            end <= b@.len(),
            1 <= end - start <= 3,
            seg == b@.subrange(start as int, end as int),
            forall|m: int| 0 <= m < i - start ==> is_digit(#[trigger] seg[m]),
            val == seg_val(b@.subrange(start as int, i as int)),
            val <= 999,
        decreases end - i,
    {
        let d = b[i];
        if d < 0x30 || d > 0x39 {
            assert(!is_digit(seg[i - start]));
            return None;
        }
        proof {
            let pre = b@.subrange(start as int, i + 1);
            assert(pre.drop_last() =~= b@.subrange(start as int, i as int));
            assert(pre.last() == b@[i as int]);
            assert(all_digits(pre)) by {
                assert(forall|m: int| 0 <= m < pre.len() ==> pre[m] == seg[m]);
            }
            lemma_seg_val_bound(pre);
        }
        val = val * 10 + ((d - 0x30) as u32);
        i = i + 1;
    }
    assert(all_digits(seg)) by {
        assert(forall|m: int| 0 <= m < seg.len() ==> is_digit(seg[m]));
    }
    assert(val == seg_val(seg)) by {
        assert(b@.subrange(start as int, end as int) =~= seg);
    }
    if val > 255 {
        None
    } else {
        Some(val as u8)
    }
}

/// Parse dotted-quad text given as bytes.  Returns exactly what the
/// grammar `spec_parse_ipv4` assigns to the bytes.
pub fn parse_ipv4_bytes(b: &[u8]) -> (r: Result<Ipv4Address, ConfigError>)
    ensures
        r == spec_parse_ipv4(b@),
{
    let n = b.len();
    let i = find_dot_at(b, 0);
    if i >= n {
        return Err(ConfigError::InvalidAddress);
    }
    let j = find_dot_at(b, i + 1);
    if j >= n {
        return Err(ConfigError::InvalidAddress);
    }
    let k = find_dot_at(b, j + 1);
    if k >= n {
        return Err(ConfigError::InvalidAddress);
    }
    let l = find_dot_at(b, k + 1);
    if l < n {
        return Err(ConfigError::InvalidAddress);
    }
    let s0 = parse_seg(b, 0, i);
    let s1 = parse_seg(b, i + 1, j);
    let s2 = parse_seg(b, j + 1, k);
    let s3 = parse_seg(b, k + 1, n);
    match (s0, s1, s2, s3) {
        (Some(a), Some(bb), Some(c), Some(d)) => Ok(Ipv4Address::new(a, bb, c, d)),
        _ => Err(ConfigError::InvalidAddress),
    }
}

/// Parse dotted-quad text.
pub fn parse_ipv4_text(s: &str) -> (r: Result<Ipv4Address, ConfigError>)
    ensures
        r == spec_parse_ipv4(s.spec_bytes()),
{
    parse_ipv4_bytes(s.as_bytes())
}

/// The address a text denotes: the dotted-quad reading where it fits,
/// otherwise the colon-grouped reading; any other text is rejected.
pub open spec fn spec_text_address(s: Seq<u8>) -> Result<IpAddress, ConfigError> {
    match spec_parse_ipv4(s) {
        Ok(a) => Ok(IpAddress::V4(a)),
        Err(_) => match spec_parse_ipv6(s) {
            Ok(a) => Ok(IpAddress::V6(a)),
            Err(e) => Err(e),
        },
    }
}

impl IntoAddress for &str {
    /// The textual reading of either address family.
    open spec fn spec_into_address(&self) -> Result<IpAddress, ConfigError> {
        spec_text_address(self.spec_bytes())
    }

    fn into_address(&self) -> (r: Result<IpAddress, ConfigError>) {
        match parse_ipv4_text(self) {
            Ok(a) => Ok(IpAddress::V4(a)),
            Err(_) => match parse_ipv6_text(self) {
                Ok(a) => Ok(IpAddress::V6(a)),
                Err(e) => Err(e),
            },
        }
    }
}

impl IntoAddress for String {
    /// The textual reading of either address family.
    open spec fn spec_into_address(&self) -> Result<IpAddress, ConfigError> {
        spec_text_address(encode_utf8(self@))
    }

    fn into_address(&self) -> (r: Result<IpAddress, ConfigError>) {
        self.as_str().into_address()
    }
}

/// The uppercase hexadecimal digit of a value below sixteen.
pub open spec fn hex_char(d: u8) -> char {
    if d == 0 { '0' }
    else if d == 1 { '1' }
    else if d == 2 { '2' }
    else if d == 3 { '3' }
    else if d == 4 { '4' }
    else if d == 5 { '5' }
    else if d == 6 { '6' }
    else if d == 7 { '7' }
    else if d == 8 { '8' }
    else if d == 9 { '9' }
    else if d == 10 { 'A' }
    else if d == 11 { 'B' }
    else if d == 12 { 'C' }
    else if d == 13 { 'D' }
    else if d == 14 { 'E' }
    else { 'F' }
}

/// Two uppercase hexadecimal digits for every byte, in order.
pub open spec fn mac_text(m: Seq<u8>) -> Seq<char>
    decreases m.len(),
{
    if m.len() == 0 {
        Seq::empty()
    } else {
        mac_text(m.drop_last()) + seq![
            hex_char((m.last() / 16) as u8),
            hex_char((m.last() % 16) as u8),
        ]
    }
}

/// The one-character string of an uppercase hexadecimal digit.
fn hex_str(d: u8) -> (r: &'static str)
    requires
        d < 16,
    ensures
        r@ =~= seq![hex_char(d)],
{
    if d == 0 { proof { reveal_strlit("0"); } "0" }
    else if d == 1 { proof { reveal_strlit("1"); } "1" }
    else if d == 2 { proof { reveal_strlit("2"); } "2" }
    else if d == 3 { proof { reveal_strlit("3"); } "3" }
    else if d == 4 { proof { reveal_strlit("4"); } "4" }
    else if d == 5 { proof { reveal_strlit("5"); } "5" }
    else if d == 6 { proof { reveal_strlit("6"); } "6" }
    else if d == 7 { proof { reveal_strlit("7"); } "7" }
    else if d == 8 { proof { reveal_strlit("8"); } "8" }
    else if d == 9 { proof { reveal_strlit("9"); } "9" }
    else if d == 10 { proof { reveal_strlit("A"); } "A" }
    else if d == 11 { proof { reveal_strlit("B"); } "B" }
    else if d == 12 { proof { reveal_strlit("C"); } "C" }
    else if d == 13 { proof { reveal_strlit("D"); } "D" }
    else if d == 14 { proof { reveal_strlit("E"); } "E" }
    else { proof { reveal_strlit("F"); } "F" }
}

/// The hardware address as twelve uppercase hexadecimal characters.
pub fn format_mac_address(mac: &[u8; 6]) -> (r: String)
    ensures
        r@ == mac_text(mac@),
{
    let mut s = String::new();
    let mut i: usize = 0;
    while i < 6
        invariant
            i <= 6,
            s@ == mac_text(mac@.take(i as int)),
        decreases 6 - i,
    {
        let b = mac[i];
        let hi = b / 16;
        let lo = b % 16;
        s.append(hex_str(hi));
        s.append(hex_str(lo));
        proof {
            let pre = mac@.take(i + 1);
            assert(pre.drop_last() =~= mac@.take(i as int));
            assert(pre.last() == mac@[i as int]);
            assert(s@ =~= mac_text(mac@.take(i + 1)));
        }
        i = i + 1;
    }
    proof {
        assert(mac@.take(6) =~= mac@);
    }
    s
}

// ---------------------------------------------------------------------
// IPv6 text: colon-separated hexadecimal groups, with one optional `::`
// standing for the missing zero groups.  (The embedded dotted-quad tail
// form is not part of this grammar.)
// ---------------------------------------------------------------------

/// The byte of the group separator.
pub const COLON: u8 = 0x3A;

/// A hexadecimal digit byte, either case.
pub open spec fn is_hex_digit(b: u8) -> bool {
    (0x30 <= b <= 0x39) || (0x41 <= b <= 0x46) || (0x61 <= b <= 0x66)
}

/// The value of a hexadecimal digit byte.
pub open spec fn hex_digit_val(b: u8) -> int {
    if 0x30 <= b <= 0x39 {
        b - 0x30
    } else if 0x41 <= b <= 0x46 {
        b - 0x41 + 10
    } else {
        b - 0x61 + 10
    }
}

/// The value of a hexadecimal digit run.
pub open spec fn group_val(s: Seq<u8>) -> int
    decreases s.len(),
{
    if s.len() == 0 {
        0
    } else {
        group_val(s.drop_last()) * 16 + hex_digit_val(s.last())
    }
}

/// Every byte is a hexadecimal digit.
pub open spec fn all_hex_digits(s: Seq<u8>) -> bool {
    forall|i: int| 0 <= i < s.len() ==> is_hex_digit(#[trigger] s[i])
}

/// A well-formed group: one to four hexadecimal digits.
pub open spec fn group_ok(s: Seq<u8>) -> bool {
    1 <= s.len() <= 4 && all_hex_digits(s)
}

/// A hexadecimal digit run's value is nonnegative and below sixteen to
/// its length.
pub proof fn lemma_group_val_bound(s: Seq<u8>)
    requires
        all_hex_digits(s),
        s.len() <= 4,
    ensures
        0 <= group_val(s),
        s.len() <= 1 ==> group_val(s) <= 0xF,
        s.len() <= 2 ==> group_val(s) <= 0xFF,
        s.len() <= 3 ==> group_val(s) <= 0xFFF,
        group_val(s) <= 0xFFFF,
    decreases s.len(),
{
    if s.len() > 0 {
        assert(all_hex_digits(s.drop_last())) by {
            assert(forall|i: int| 0 <= i < s.len() - 1 ==> s.drop_last()[i] == s[i]);
        }
        lemma_group_val_bound(s.drop_last());
    }
}

/// Index of the first colon at or after `from`; the length when none.
pub open spec fn find_colon(s: Seq<u8>, from: int) -> int
    decreases s.len() - from,
{
    if from < 0 || from >= s.len() {
        s.len() as int
    } else if s[from] == COLON {
        from
    } else {
        find_colon(s, from + 1)
    }
}

/// `find_colon` stays within the searched range.
pub proof fn lemma_find_colon_bounds(s: Seq<u8>, from: int)
    requires
        0 <= from <= s.len(),
    ensures
        from <= find_colon(s, from) <= s.len(),
    decreases s.len() - from,
{
    if from < s.len() && s[from] != COLON {
        lemma_find_colon_bounds(s, from + 1);
    }
}

/// Any colon position with no colon before it is the one `find_colon`
/// returns.
pub proof fn lemma_find_colon_unique(s: Seq<u8>, from: int, f: int)
    requires
        0 <= from <= f <= s.len(),
        f < s.len() ==> s[f] == COLON,
        forall|m: int| from <= m < f ==> s[m] != COLON,
    ensures
        find_colon(s, from) == f,
    decreases f - from,
{
    if from < f {
        assert(s[from] != COLON);
        lemma_find_colon_unique(s, from + 1, f);
    }
}

/// Index of the first `::` (two adjacent colons); the length when none.
pub open spec fn find_double_colon(s: Seq<u8>, from: int) -> int
    decreases s.len() - from,
{
    if from < 0 || from + 1 >= s.len() {
        s.len() as int
    } else if s[from] == COLON && s[from + 1] == COLON {
        from
    } else {
        find_double_colon(s, from + 1)
    }
}

/// Any adjacent-colon position with none before it is the one
/// `find_double_colon` returns.
pub proof fn lemma_find_double_colon_unique(s: Seq<u8>, from: int, f: int)
    requires
        0 <= from <= f <= s.len(),
        f < s.len() ==> f + 1 < s.len() && s[f] == COLON && s[f + 1] == COLON,
        forall|m: int| from <= m < f && m + 1 < s.len() ==> !(#[trigger] s[m] == COLON && s[m + 1] == COLON),
        f == s.len() ==> forall|m: int|
            from <= m && m + 1 < s.len() ==> !(#[trigger] s[m] == COLON && s[m + 1] == COLON),
    ensures
        find_double_colon(s, from) == f,
    decreases f - from + (if f == s.len() { 1int } else { 0int }),
{
    if f == s.len() {
        if from + 1 < s.len() {
            assert(!(s[from] == COLON && s[from + 1] == COLON));
            lemma_find_double_colon_unique(s, from + 1, f);
        }
    } else if from < f {
        if from + 1 < s.len() {
            assert(!(s[from] == COLON && s[from + 1] == COLON));
        }
        lemma_find_double_colon_unique(s, from + 1, f);
    }
}

/// A non-empty colon-separated list of well-formed groups, as values.
/// Nothing (not even an empty list) for text with an empty group, a bad
/// group, or a trailing separator.
pub open spec fn spec_hex_groups(s: Seq<u8>) -> Option<Seq<u16>>
    decreases s.len(),
    via spec_hex_groups_dec
{
    let c = find_colon(s, 0);
    if c == s.len() {
        if group_ok(s) {
            Some(seq![group_val(s) as u16])
        } else {
            None
        }
    } else {
        let head = s.subrange(0, c);
        let rest = spec_hex_groups(s.subrange(c + 1, s.len() as int));
        if group_ok(head) && rest is Some {
            Some(seq![group_val(head) as u16] + rest.unwrap())
        } else {
            None
        }
    }
}

#[via_fn]
proof fn spec_hex_groups_dec(s: Seq<u8>) {
    lemma_find_colon_bounds(s, 0);
}

/// The 128-bit value of a list of groups, first group most significant.
pub open spec fn groups_val(g: Seq<u16>) -> int
    decreases g.len(),
{
    if g.len() == 0 {
        0
    } else {
        groups_val(g.drop_last()) * 0x10000 + g.last()
    }
}

/// A group list's value is nonnegative and below two to sixteen times its
/// length.
pub proof fn lemma_groups_val_bound(g: Seq<u16>, bound: int)
    requires
        g.len() <= bound,
        0 <= bound <= 8,
    ensures
        0 <= groups_val(g) < vstd::arithmetic::power2::pow2((16 * bound) as nat),
    decreases g.len(),
{
    vstd::arithmetic::power2::lemma2_to64();
    if g.len() == 0 {
        vstd::arithmetic::power2::lemma_pow2_pos((16 * bound) as nat);
    } else {
        lemma_groups_val_bound(g.drop_last(), bound - 1);
        assert(vstd::arithmetic::power2::pow2((16 * bound) as nat) == vstd::arithmetic::power2::pow2(
            (16 * (bound - 1)) as nat,
        ) * 0x10000) by {
            vstd::arithmetic::power2::lemma_pow2_adds((16 * (bound - 1)) as nat, 16);
        }
    }
}

/// The sequence of eight groups an IPv6 text denotes: either eight
/// explicit groups, or two shorter runs around one `::` with zeros for
/// the rest.
pub open spec fn spec_ipv6_groups(s: Seq<u8>) -> Option<Seq<u16>> {
    let d = find_double_colon(s, 0);
    if d == s.len() {
        match spec_hex_groups(s) {
            Some(g) => if g.len() == 8 {
                Some(g)
            } else {
                None
            },
            None => None,
        }
    } else {
        let left = s.subrange(0, d);
        let right = s.subrange(d + 2, s.len() as int);
        let lg = if left.len() == 0 {
            Some(Seq::<u16>::empty())
        } else {
            spec_hex_groups(left)
        };
        let rg = if right.len() == 0 {
            Some(Seq::<u16>::empty())
        } else {
            spec_hex_groups(right)
        };
        match (lg, rg) {
            (Some(l), Some(r)) => if l.len() + r.len() <= 7 {
                Some(l + Seq::new((8 - l.len() - r.len()) as nat, |i: int| 0u16) + r)
            } else {
                None
            },
            _ => None,
        }
    }
}

/// The colon-grouped reading of an IPv6 text.
pub open spec fn spec_parse_ipv6(s: Seq<u8>) -> Result<Ipv6Address, ConfigError> {
    match spec_ipv6_groups(s) {
        Some(g) => Ok(Ipv6Address { bits: groups_val(g) as u128 }),
        None => Err(ConfigError::InvalidAddress),
    }
}

/// Parse the group `b[start..end]`: its value when well formed.
fn parse_group(b: &[u8], start: usize, end: usize) -> (r: Option<u16>)
    requires
        start <= end <= b@.len(),
    ensures
        r is Some <==> group_ok(b@.subrange(start as int, end as int)),
        r matches Some(v) ==> v == group_val(b@.subrange(start as int, end as int)),
{
    let ghost seg = b@.subrange(start as int, end as int);
    let len = end - start;
    if len == 0 || len > 4 {
        return None;
    }
    let mut val: u32 = 0;
    let mut i = start;
    while i < end
        invariant
            start <= i <= end,
            end <= b@.len(),
            1 <= end - start <= 4,
            seg == b@.subrange(start as int, end as int),
            forall|m: int| 0 <= m < i - start ==> is_hex_digit(#[trigger] seg[m]),
            val == group_val(b@.subrange(start as int, i as int)),
            val <= 0xFFFF,
        decreases end - i,
    {
        let d = b[i];
        let digit: u32 = if d >= 0x30 && d <= 0x39 {
            (d - 0x30) as u32
        } else if d >= 0x41 && d <= 0x46 {
            (d - 0x41 + 10) as u32
        } else if d >= 0x61 && d <= 0x66 {
            (d - 0x61 + 10) as u32
        } else {
            assert(!is_hex_digit(seg[i - start]));
            return None;
        };
        proof {
            let pre = b@.subrange(start as int, i + 1);
            assert(pre.drop_last() =~= b@.subrange(start as int, i as int));
            assert(pre.last() == b@[i as int]);
            assert(all_hex_digits(pre)) by {
                assert(forall|m: int| 0 <= m < pre.len() ==> pre[m] == seg[m]);
            }
            lemma_group_val_bound(pre);
        }
        val = val * 16 + digit;
        i = i + 1;
    }
    assert(all_hex_digits(seg)) by {
        assert(forall|m: int| 0 <= m < seg.len() ==> is_hex_digit(seg[m]));
    }
    assert(val == group_val(seg)) by {
        assert(b@.subrange(start as int, end as int) =~= seg);
    }
    Some(val as u16)
}

/// Find the first colon in `b[from..end]`; `end` when there is none.
fn find_colon_in(b: &[u8], from: usize, end: usize) -> (r: usize)
    requires
        from <= end <= b@.len(),
    ensures
        from <= r <= end,
        r < end ==> b@[r as int] == COLON,
        forall|m: int| from <= m < r ==> b@[m] != COLON,
{
    let mut i = from;
    while i < end
        invariant
            from <= i <= end,
            end <= b@.len(),
            forall|m: int| from <= m < i ==> b@[m] != COLON,
        decreases end - i,
    {
        if b[i] == COLON {
            return i;
        }
        i = i + 1;
    }
    end
}

/// Parse the colon-separated group list in `b[start..end]`, as
/// `spec_hex_groups` reads it.
fn parse_groups_at(b: &[u8], start: usize, end: usize) -> (r: Option<Vec<u16>>)
    requires
        start <= end <= b@.len(),
    ensures
        ({
            let sub = b@.subrange(start as int, end as int);
            &&& (r matches Some(v) ==> spec_hex_groups(sub) == Some(v@))
            &&& (r is None ==> spec_hex_groups(sub) is None)
        }),
    decreases end - start,
{
    let ghost sub = b@.subrange(start as int, end as int);
    let c = find_colon_in(b, start, end);
    proof {
        assert(forall|m: int| 0 <= m < c - start ==> sub[m] == b@[start + m] && sub[m] != COLON);
        if c < end {
            assert(sub[c - start] == b@[c as int]);
        }
        lemma_find_colon_unique(sub, 0, c - start);
    }
    if c == end {
        match parse_group(b, start, end) {
            Some(v) => {
                let mut out: Vec<u16> = Vec::new();
                out.push(v);
                proof {
                    assert(out@ =~= seq![v]);
                }
                Some(out)
            },
            None => None,
        }
    } else {
        proof {
            assert(sub.subrange(0, c - start) =~= b@.subrange(start as int, c as int));
            assert(sub.subrange(c - start + 1, sub.len() as int) =~= b@.subrange(
                c + 1,
                end as int,
            ));
        }
        let head = parse_group(b, start, c);
        match head {
            None => None,
            Some(hv) => match parse_groups_at(b, c + 1, end) {
                Some(mut rest) => {
                    rest.insert(0, hv);
                    proof {
                        assert(rest@ =~= seq![hv] + rest@.subrange(1, rest@.len() as int));
                    }
                    Some(rest)
                },
                None => None,
            },
        }
    }
}

/// Find the first two adjacent colons, as `find_double_colon` does.
fn find_double_colon_at(b: &[u8]) -> (r: usize)
    ensures
        r == find_double_colon(b@, 0),
        r <= b@.len(),
        r < b@.len() ==> r + 1 < b@.len() && b@[r as int] == COLON && b@[r + 1] == COLON,
{
    let n = b.len();
    if n == 0 {
        return 0;
    }
    let mut i: usize = 0;
    while i < n - 1
        invariant
            i <= n,
            n == b@.len(),
            n >= 1,
            forall|m: int|
                0 <= m < i && m + 1 < n ==> !(#[trigger] b@[m] == COLON && b@[m + 1] == COLON),
        decreases n - i,
    {
        if b[i] == COLON && b[i + 1] == COLON {
            proof {
                lemma_find_double_colon_unique(b@, 0, i as int);
            }
            return i;
        }
        i = i + 1;
    }
    proof {
        lemma_find_double_colon_unique(b@, 0, n as int);
    }
    n
}

/// The 128-bit value of exactly eight groups.
fn groups_to_bits(g: &Vec<u16>) -> (r: u128)
    requires
        g@.len() == 8,
    ensures
        r == groups_val(g@),
{
    proof {
        vstd::arithmetic::power2::lemma2_to64();
    }
    let mut acc: u128 = 0;
    let mut i: usize = 0;
    while i < 8
        invariant
            i <= 8,
            g@.len() == 8,
            acc == groups_val(g@.take(i as int)),
            acc < vstd::arithmetic::power2::pow2((16 * i) as nat),
        decreases 8 - i,
    {
        proof {
            vstd::arithmetic::power2::lemma2_to64();
            vstd::arithmetic::power2::lemma_pow2_adds((16 * i) as nat, 16);
            vstd::arithmetic::power2::lemma_pow2_adds(64, 64);
            let p = vstd::arithmetic::power2::pow2((16 * i) as nat);
            let p2 = vstd::arithmetic::power2::pow2((16 * i + 16) as nat);
            assert(p2 == p * 0x10000);
            assert(acc * 0x10000 + (g@[i as int] as int) < p * 0x10000) by (nonlinear_arith)
                requires
                    acc < p,
                    0 < p,
                    g@[i as int] <= 0xFFFF,
            ;
            if 16 * i + 16 < 128 {
                vstd::arithmetic::power2::lemma_pow2_strictly_increases((16 * i + 16) as nat, 128);
            }
            assert(vstd::arithmetic::power2::pow2(128) == vstd::arithmetic::power2::pow2(64)
                * vstd::arithmetic::power2::pow2(64));
            assert(acc * 0x10000 + (g@[i as int] as int) <= u128::MAX);
            assert(g@.take(i + 1).drop_last() =~= g@.take(i as int));
            assert(g@.take(i + 1).last() == g@[i as int]);
        }
        acc = acc * 0x10000 + (g[i] as u128);
        i = i + 1;
    }
    proof {
        assert(g@.take(8) =~= g@);
    }
    acc
}

/// Parse colon-grouped IPv6 text given as bytes.  Returns exactly what
/// the grammar `spec_parse_ipv6` assigns to the bytes.
pub fn parse_ipv6_bytes(b: &[u8]) -> (r: Result<Ipv6Address, ConfigError>)
    ensures
        r == spec_parse_ipv6(b@),
{
    let n = b.len();
    let d = find_double_colon_at(b);
    let groups: Option<Vec<u16>> = if d == n {
        proof {
            assert(b@.subrange(0, n as int) =~= b@);
        }
        match parse_groups_at(b, 0, n) {
            Some(v) => {
                if v.len() == 8 {
                    Some(v)
                } else {
                    None
                }
            },
            None => None,
        }
    } else {
        let lg: Option<Vec<u16>> = if d == 0 {
            proof {
                assert(b@.subrange(0, 0) =~= Seq::<u8>::empty());
            }
            Some(Vec::new())
        } else {
            parse_groups_at(b, 0, d)
        };
        let rg: Option<Vec<u16>> = if n - d == 2 {
            Some(Vec::new())
        } else {
            parse_groups_at(b, d + 2, n)
        };
        match (lg, rg) {
            (Some(l), Some(rr)) => {
                if l.len() <= 7 && rr.len() <= 7 - l.len() {
                    let ghost lv = l@;
                    let ghost zeros = Seq::new((8 - l@.len() - rr@.len()) as nat, |i: int| 0u16);
                    let missing = 8 - l.len() - rr.len();
                    let mut full = l;
                    let mut z: usize = 0;
                    while z < missing
                        invariant
                            z <= missing,
                            missing == zeros.len(),
                            zeros == Seq::new(zeros.len(), |i: int| 0u16),
                            full@ == lv + zeros.take(z as int),
                        decreases missing - z,
                    {
                        full.push(0);
                        proof {
                            assert(lv + zeros.take(z + 1) =~= (lv + zeros.take(z as int)).push(
                                0u16,
                            ));
                        }
                        z = z + 1;
                    }
                    proof {
                        assert(zeros.take(missing as int) =~= zeros);
                    }
                    let ghost rv = rr@;
                    let mut k: usize = 0;
                    while k < rr.len()
                        invariant
                            k <= rv.len(),
                            rr@ == rv,
                            full@ == lv + zeros + rv.take(k as int),
                        decreases rv.len() - k,
                    {
                        let next = rr[k];
                        full.push(next);
                        proof {
                            assert(lv + zeros + rv.take(k + 1) =~= (lv + zeros + rv.take(
                                k as int,
                            )).push(rv[k as int]));
                        }
                        k = k + 1;
                    }
                    proof {
                        assert(rv.take(rv.len() as int) =~= rv);
                        assert(full@ == lv + zeros + rv);
                    }
                    Some(full)
                } else {
                    None
                }
            },
            _ => None,
        }
    };
    match groups {
        Some(g) => {
            proof {
                assert(spec_ipv6_groups(b@) == Some(g@));
                lemma_groups_val_bound(g@, 8);
                vstd::arithmetic::power2::lemma2_to64();
                vstd::arithmetic::power2::lemma_pow2_adds(64, 64);
                assert(groups_val(g@) <= u128::MAX);
            }
            Ok(Ipv6Address { bits: groups_to_bits(&g) })
        },
        None => Err(ConfigError::InvalidAddress),
    }
}

/// Parse colon-grouped IPv6 text.
pub fn parse_ipv6_text(s: &str) -> (r: Result<Ipv6Address, ConfigError>)
    ensures
        r == spec_parse_ipv6(s.spec_bytes()),
{
    parse_ipv6_bytes(s.as_bytes())
}

} // verus!
