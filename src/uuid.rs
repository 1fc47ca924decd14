//! The 128-bit identifier value, its RFC 4122 field layout and its byte codec.
use vstd::prelude::*;

use crate::text::{decimal, hex_digits, push_char, push_decimal, push_hex};

verus! {

/// Exclusive upper bound of the 48-bit `node` field.
pub const NODE_LIMIT: u64 = 0x1_0000_0000_0000;

/// A UUID held as its five RFC 4122 fields.
///
/// ```text
/// xxxxxxxx-xxxx-Mxxx-Nxxx-xxxxxxxxxxxx
/// time_low  mid  hi   clk  node
/// ```
///
/// `M` is the version nibble, the top bits of `N` the variant.
#[derive(Clone, Copy, Debug, PartialEq, Eq, Structural)]
pub struct UUIDType {
    pub time_low: u32,
    pub time_mid: u16,
    pub time_hi_and_version: u16,
    pub clk_seq_and_reserved: u16,
    /// Only the low 48 bits belong to the identifier.
    pub node: u64,
}

/// Big-endian value of two bytes.
pub open spec fn be16(b0: u8, b1: u8) -> u16 {
    ((b0 as u16) << 8u16) | (b1 as u16)
}

/// Big-endian value of four bytes.
pub open spec fn be32(b0: u8, b1: u8, b2: u8, b3: u8) -> u32 {
    ((b0 as u32) << 24u32) | ((b1 as u32) << 16u32) | ((b2 as u32) << 8u32) | (b3 as u32)
}

/// Big-endian value of six bytes.
pub open spec fn be48(b0: u8, b1: u8, b2: u8, b3: u8, b4: u8, b5: u8) -> u64 {
    ((b0 as u64) << 40u64) | ((b1 as u64) << 32u64) | ((b2 as u64) << 24u64) | ((b3 as u64)
        << 16u64) | ((b4 as u64) << 8u64) | (b5 as u64)
}

/// The layout variant, held in the top bits of `clk_seq_and_reserved`.
pub enum Variant {
    /// Reserved by the NCS for backward compatibility.
    NCS,
    /// As described in RFC 4122 (the default).
    DCE,
    /// Reserved by Microsoft for backward compatibility.
    MICROSOFT,
    /// Reserved for future expansion.
    RESERVED,
}

/// `clk_seq_and_reserved` once the variant bits of `v` are written into `c`.
pub open spec fn variant_applied(c: u16, v: Variant) -> u16 {
    match v {
        Variant::NCS => c & 0x7fffu16,
        Variant::DCE => (c & 0x3fffu16) | 0x8000u16,
        Variant::MICROSOFT => (c & 0x1fffu16) | 0xc000u16,
        Variant::RESERVED => (c & 0x1ffu16) | 0xe000u16,
    }
}

/// `256^n`.
pub open spec fn pow256(n: nat) -> nat
    decreases n,
{
    if n == 0 {
        1
    } else {
        256 * pow256((n - 1) as nat)
    }
}

/// The unsigned integer whose big-endian bytes are `b`.
pub open spec fn be_value(b: Seq<u8>) -> nat
    decreases b.len(),
{
    if b.len() == 0 {
        0
    } else {
        be_value(b.drop_last()) * 256 + b.last() as nat
    }
}

impl UUIDType {
    /// The value is well formed: `node` fits in 48 bits.
    pub open spec fn wf(self) -> bool {
        self.node < NODE_LIMIT
    }

    /// The sixteen bytes of the value, in network (big-endian) order.
    pub open spec fn bytes(self) -> Seq<u8> {
        seq![
            (self.time_low >> 24u32) as u8,
            (self.time_low >> 16u32) as u8,
            (self.time_low >> 8u32) as u8,
            self.time_low as u8,
            (self.time_mid >> 8u16) as u8,
            self.time_mid as u8,
            (self.time_hi_and_version >> 8u16) as u8,
            self.time_hi_and_version as u8,
            (self.clk_seq_and_reserved >> 8u16) as u8,
            self.clk_seq_and_reserved as u8,
            (self.node >> 40u64) as u8,
            (self.node >> 32u64) as u8,
            (self.node >> 24u64) as u8,
            (self.node >> 16u64) as u8,
            (self.node >> 8u64) as u8,
            self.node as u8,
        ]
    }

    /// The fields read from sixteen big-endian bytes.
    pub open spec fn from_seq(b: Seq<u8>) -> UUIDType
        recommends
            b.len() == 16,
    {
        UUIDType {
            time_low: be32(b[0], b[1], b[2], b[3]),
            time_mid: be16(b[4], b[5]),
            time_hi_and_version: be16(b[6], b[7]),
            clk_seq_and_reserved: be16(b[8], b[9]),
            node: be48(b[10], b[11], b[12], b[13], b[14], b[15]),
        }
    }

    /// The version nibble: the top four bits of `time_hi_and_version`.
    pub open spec fn version(self) -> u16 {
        self.time_hi_and_version >> 12u16
    }

    /// The top two bits of `clk_seq_and_reserved`; `0b10` for the RFC 4122 variant.
    pub open spec fn variant_bits(self) -> u16 {
        self.clk_seq_and_reserved >> 14u16
    }

    /// The 60-bit timestamp spread over `time_low`, `time_mid` and the low
    /// twelve bits of `time_hi_and_version`.
    pub open spec fn timestamp(self) -> u64 {
        (((self.time_hi_and_version & 0x0fffu16) as u64) << 48u64) | ((self.time_mid as u64)
            << 32u64) | (self.time_low as u64)
    }

    /// The value with its version nibble replaced by the low four bits of `v`.
    pub open spec fn with_version(self, v: u8) -> UUIDType {
        UUIDType {
            time_hi_and_version: (self.time_hi_and_version & 0x0fffu16) | (((v as u16) & 0x0fu16)
                << 12u16),
            ..self
        }
    }

    /// The value with the variant bits of `v` written into `clk_seq_and_reserved`.
    pub open spec fn with_variant(self, v: Variant) -> UUIDType {
        UUIDType { clk_seq_and_reserved: variant_applied(self.clk_seq_and_reserved, v), ..self }
    }

    /// The value with bits 0 to 59 of `t` written into the timestamp fields;
    /// the version nibble is kept.
    pub open spec fn with_time(self, t: u64) -> UUIDType {
        UUIDType {
            time_low: (t & 0xffff_ffffu64) as u32,
            time_mid: ((t >> 32u64) & 0xffffu64) as u16,
            time_hi_and_version: (self.time_hi_and_version & 0xf000u16) | (((t >> 48u64)
                & 0x0fffu64) as u16),
            ..self
        }
    }

    /// Sets the version nibble to the low four bits of `value`; higher bits are ignored.
    pub fn set_version(&mut self, value: u8)
        ensures
            *final(self) == old(self).with_version(value),
    {
        let value = ((value as u16) & 0x0fu16) << 12u16;
        self.time_hi_and_version = self.time_hi_and_version & 0x0fffu16;
        self.time_hi_and_version = self.time_hi_and_version | value;
    }

    /// Writes the bits of a layout variant into `clk_seq_and_reserved`.
    pub fn set_variant(&mut self, value: Variant)
        ensures
            *final(self) == old(self).with_variant(value),
    {
        let temp = self.clk_seq_and_reserved;
        self.clk_seq_and_reserved = match value {
            Variant::NCS => temp & 0x7fffu16,
            Variant::DCE => (temp & 0x3fffu16) | 0x8000u16,
            Variant::MICROSOFT => (temp & 0x1fffu16) | 0xc000u16,
            Variant::RESERVED => (temp & 0x1ffu16) | 0xe000u16,
        };
    }

    /// Stores bits 0 to 59 of `timestamp` in the time fields, keeping the version nibble.
    pub fn set_time(&mut self, timestamp: u64)
        ensures
            *final(self) == old(self).with_time(timestamp),
    {
        self.time_low = (timestamp & 0xffff_ffffu64) as u32;
        self.time_mid = ((timestamp >> 32u64) & 0xffffu64) as u16;
        self.time_hi_and_version = self.time_hi_and_version & 0xf000u16;
        self.time_hi_and_version = self.time_hi_and_version | (((timestamp >> 48u64) & 0x0fffu64)
            as u16);
    }

    /// Reads the 60-bit timestamp back from the time fields.
    pub fn get_time(&self) -> (r: u64)
        ensures
            r == self.timestamp(),
    {
        (((self.time_hi_and_version & 0x0fffu16) as u64) << 48u64) | ((self.time_mid as u64)
            << 32u64) | (self.time_low as u64)
    }

    /// The canonical text `xxxxxxxx-xxxx-xxxx-xxxx-xxxxxxxxxxxx` in lowercase hexadecimal.
    pub open spec fn canonical(self) -> Seq<char> {
        hex_digits(self.time_low as u64, 8) + seq!['-'] + hex_digits(self.time_mid as u64, 4)
            + seq!['-'] + hex_digits(self.time_hi_and_version as u64, 4) + seq!['-'] + hex_digits(
            self.clk_seq_and_reserved as u64,
            4,
        ) + seq!['-'] + hex_digits(self.node, 12)
    }

    /// The value's sixteen bytes read as one unsigned big-endian integer.
    pub open spec fn siv(self) -> nat {
        be_value(self.bytes())
    }

    /// The canonical hyphenated lowercase hexadecimal form.
    pub fn to_string(&self) -> (r: String)
        ensures
            r@ == self.canonical(),
    {
        let mut s = String::new();
        push_hex(&mut s, self.time_low as u64, 8);
        push_char(&mut s, '-');
        push_hex(&mut s, self.time_mid as u64, 4);
        push_char(&mut s, '-');
        push_hex(&mut s, self.time_hi_and_version as u64, 4);
        push_char(&mut s, '-');
        push_hex(&mut s, self.clk_seq_and_reserved as u64, 4);
        push_char(&mut s, '-');
        push_hex(&mut s, self.node, 12);
        assert(s@ =~= self.canonical());
        s
    }

    /// The value as a single unsigned 128-bit integer in decimal.
    pub fn to_siv_string(self) -> (r: String)
        ensures
            r@ == decimal(self.siv()),
    {
        let b = self.as_bytes();
        let mut acc: u128 = 0;
        let mut i: usize = 0;
        proof {
            lemma_pow256_16();
        }
        while i < 16
            invariant
                i <= 16,
                b@ == self.bytes(),
                acc as nat == be_value(b@.take(i as int)),
                (acc as nat) < pow256(i as nat),
                pow256(16) == 0x1_0000_0000_0000_0000_0000_0000_0000_0000,
            decreases 16 - i,
        {
            proof {
                lemma_pow256_mono((i + 1) as nat, 16);
                let p = pow256(i as nat);
                assert((acc as nat) * 256 + 255 < p * 256) by (nonlinear_arith)
                    requires
                        (acc as nat) < p,
                ;
            }
            acc = acc * 256 + b[i] as u128;
            i = i + 1;
            assert(b@.take(i as int).drop_last() =~= b@.take(i - 1));
        }
        assert(b@.take(16) =~= b@);
        let mut s = String::new();
        push_decimal(&mut s, acc);
        s
    }

    /// Packs the fields into sixteen bytes, each field big-endian at its RFC 4122 offset.
    pub fn as_bytes(self) -> (r: [u8; 16])
        ensures
            r@ == self.bytes(),
    {
        let v: [u8; 16] = [
            (self.time_low >> 24u32) as u8,
            (self.time_low >> 16u32) as u8,
            (self.time_low >> 8u32) as u8,
            self.time_low as u8,
            (self.time_mid >> 8u16) as u8,
            self.time_mid as u8,
            (self.time_hi_and_version >> 8u16) as u8,
            self.time_hi_and_version as u8,
            (self.clk_seq_and_reserved >> 8u16) as u8,
            self.clk_seq_and_reserved as u8,
            (self.node >> 40u64) as u8,
            (self.node >> 32u64) as u8,
            (self.node >> 24u64) as u8,
            (self.node >> 16u64) as u8,
            (self.node >> 8u64) as u8,
            self.node as u8,
        ];
        assert(v@ =~= self.bytes());
        v
    }

    /// Reads the five fields from sixteen big-endian bytes.
    pub fn from_bytes(b: [u8; 16]) -> (r: Self)
        ensures
            r == Self::from_seq(b@),
            r.wf(),
    {
        let time_low = ((b[0] as u32) << 24u32) | ((b[1] as u32) << 16u32) | ((b[2] as u32)
            << 8u32) | (b[3] as u32);
        let time_mid = ((b[4] as u16) << 8u16) | (b[5] as u16);
        let time_hi_and_version = ((b[6] as u16) << 8u16) | (b[7] as u16);
        let clk_seq_and_reserved = ((b[8] as u16) << 8u16) | (b[9] as u16);
        let node = ((b[10] as u64) << 40u64) | ((b[11] as u64) << 32u64) | ((b[12] as u64)
            << 24u64) | ((b[13] as u64) << 16u64) | ((b[14] as u64) << 8u64) | (b[15] as u64);
        proof {
            lemma_be48_bound(b[10], b[11], b[12], b[13], b[14], b[15]);
        }
        UUIDType { time_low, time_mid, time_hi_and_version, clk_seq_and_reserved, node }
    }
}

proof fn lemma_pow256_16()
    ensures
        pow256(16) == 0x1_0000_0000_0000_0000_0000_0000_0000_0000,
{
    reveal_with_fuel(pow256, 17);
}

proof fn lemma_pow256_mono(i: nat, j: nat)
    requires
        i <= j,
    ensures
        pow256(i) <= pow256(j),
    decreases j - i,
{
    if i < j {
        lemma_pow256_mono(i, (j - 1) as nat);
    }
}

/// Six bytes read big-endian fit in 48 bits.
proof fn lemma_be48_bound(b0: u8, b1: u8, b2: u8, b3: u8, b4: u8, b5: u8)
    ensures
        be48(b0, b1, b2, b3, b4, b5) < NODE_LIMIT,
{
    assert(((b0 as u64) << 40u64) | ((b1 as u64) << 32u64) | ((b2 as u64) << 24u64) | ((b3 as u64)
        << 16u64) | ((b4 as u64) << 8u64) | (b5 as u64) < 0x1_0000_0000_0000u64) by (bit_vector);
}

/// Packing a well-formed value into bytes and reading them back gives the same fields.
pub proof fn lemma_fields_round_trip(u: UUIDType)
    requires
        u.wf(),
    ensures
        UUIDType::from_seq(u.bytes()) == u,
{
    let x = u.time_low;
    assert(((((x >> 24u32) as u8) as u32) << 24u32) | ((((x >> 16u32) as u8) as u32) << 16u32)
        | ((((x >> 8u32) as u8) as u32) << 8u32) | ((x as u8) as u32) == x) by (bit_vector);
    let m = u.time_mid;
    assert(((((m >> 8u16) as u8) as u16) << 8u16) | ((m as u8) as u16) == m) by (bit_vector);
    let h = u.time_hi_and_version;
    assert(((((h >> 8u16) as u8) as u16) << 8u16) | ((h as u8) as u16) == h) by (bit_vector);
    let c = u.clk_seq_and_reserved;
    assert(((((c >> 8u16) as u8) as u16) << 8u16) | ((c as u8) as u16) == c) by (bit_vector);
    let n = u.node;
    assert(n < 0x1_0000_0000_0000u64 ==> ((((n >> 40u64) as u8) as u64) << 40u64) | ((((n
        >> 32u64) as u8) as u64) << 32u64) | ((((n >> 24u64) as u8) as u64) << 24u64) | ((((n
        >> 16u64) as u8) as u64) << 16u64) | ((((n >> 8u64) as u8) as u64) << 8u64) | ((n as u8)
        as u64) == n) by (bit_vector);
}

/// A timestamp below 2^60 written into a value reads back unchanged, and the
/// version nibble, the variant bits and the node stay as they were.
pub proof fn lemma_time_round_trip(u: UUIDType, t: u64)
    requires
        t < 0x1000_0000_0000_0000,
    ensures
        u.with_time(t).timestamp() == t,
        u.with_time(t).version() == u.version(),
        u.with_time(t).clk_seq_and_reserved == u.clk_seq_and_reserved,
        u.with_time(t).node == u.node,
{
    let h = u.time_hi_and_version;
    assert(t < 0x1000_0000_0000_0000u64 ==> ((((((h & 0xf000u16) | (((t >> 48u64) & 0x0fffu64)
        as u16)) & 0x0fffu16) as u64) << 48u64) | (((((t >> 32u64) & 0xffffu64) as u16) as u64)
        << 32u64) | (((t & 0xffff_ffffu64) as u32) as u64)) == t) by (bit_vector);
    assert((((h & 0xf000u16) | (((t >> 48u64) & 0x0fffu64) as u16)) >> 12u16) == (h >> 12u16))
        by (bit_vector);
}

/// Reading sixteen bytes into fields and packing them again gives the same bytes.
pub proof fn lemma_bytes_round_trip(b: Seq<u8>)
    requires
        b.len() == 16,
    ensures
        UUIDType::from_seq(b).bytes() == b,
{
    let u = UUIDType::from_seq(b);
    let (b0, b1, b2, b3) = (b[0], b[1], b[2], b[3]);
    assert(((be32(b0, b1, b2, b3) >> 24u32) as u8) == b0 && ((be32(b0, b1, b2, b3) >> 16u32) as u8)
        == b1 && ((be32(b0, b1, b2, b3) >> 8u32) as u8) == b2 && (be32(b0, b1, b2, b3) as u8)
        == b3) by (bit_vector);
    assert forall|p: u8, q: u8| ((be16(p, q) >> 8u16) as u8) == p && (be16(p, q) as u8) == q by {
        assert(((((p as u16) << 8u16) | (q as u16)) >> 8u16) as u8 == p && ((((p as u16) << 8u16)
            | (q as u16)) as u8) == q) by (bit_vector);
    }
    let (c0, c1, c2, c3, c4, c5) = (b[10], b[11], b[12], b[13], b[14], b[15]);
    let n = be48(c0, c1, c2, c3, c4, c5);
    assert(((n >> 40u64) as u8) == c0 && ((n >> 32u64) as u8) == c1 && ((n >> 24u64) as u8) == c2
        && ((n >> 16u64) as u8) == c3 && ((n >> 8u64) as u8) == c4 && (n as u8) == c5)
        by (bit_vector)
        requires
            n == ((c0 as u64) << 40u64) | ((c1 as u64) << 32u64) | ((c2 as u64) << 24u64) | ((c3
                as u64) << 16u64) | ((c4 as u64) << 8u64) | (c5 as u64),
    ;
    assert(u.bytes() =~= b);
}

} // verus!
