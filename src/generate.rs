//! Generation strategies: nil, random (version 4) and time-based (version 1).
use vstd::prelude::*;

use crate::text::{decimal, hex_char, hex_digits};
use crate::uuid::{UUIDType, Variant, NODE_LIMIT};

verus! {

/// 100-nanosecond ticks from the UUID epoch (1582-10-15) to the Unix epoch (1970-01-01).
pub const UUID_EPOCH_OFFSET: u64 = 0x01b2_1dd2_1381_4000;

/// The multicast bit set in the node of a time-based value, marking it as not a hardware address.
pub const MULTICAST_BIT: u64 = 0x0000_8000_0000_0000;

/// Relies on `rand::random` (the thread-local generator): any value may come back.
pub assume_specification<T>[ rand::random::<T> ]() -> (r: T)
    where
        rand::distributions::Standard: rand::distributions::Distribution<T>,
;

/// Relies on `chrono::Utc::now` and `DateTime::timestamp_nanos_opt`: the current
/// UTC time in non-leap nanoseconds since 1970-01-01, `None` where it does not fit an `i64`.
#[verifier::external_body]
fn unix_nanos_now() -> Option<i64> {
    chrono::Utc::now().timestamp_nanos_opt()
}

/// The timestamp of a version-1 value made at `unix_nanos`: 100-nanosecond ticks since
/// the UUID epoch.
pub open spec fn v1_timestamp(unix_nanos: i64) -> u64 {
    ((unix_nanos as u64) / 100 + UUID_EPOCH_OFFSET) as u64
}

impl UUIDType {
    /// The value with the multicast bit set in its node.
    pub open spec fn with_multicast_node(self) -> UUIDType {
        UUIDType { node: self.node | MULTICAST_BIT, ..self }
    }

    /// The version-4 value built from sixteen random bytes.
    pub open spec fn v4_of(raw: Seq<u8>) -> UUIDType {
        UUIDType::from_seq(raw).with_version(4).with_variant(Variant::DCE)
    }

    /// The version-1 value built from sixteen random bytes and a clock reading.
    pub open spec fn v1_of(raw: Seq<u8>, unix_nanos: i64) -> UUIDType {
        UUIDType::from_seq(raw).with_version(1).with_variant(
            Variant::DCE,
        ).with_multicast_node().with_time(v1_timestamp(unix_nanos))
    }

    /// Sixteen random bytes taken as fields, with no version or variant applied.
    pub fn full_random() -> (r: Self)
        ensures
            r.wf(),
    {
        UUIDType::from_bytes(rand::random::<[u8; 16]>())
    }

    /// A random 48-bit node with the multicast bit set.
    pub fn generate_random_node(&self) -> (r: u64)
        ensures
            r < NODE_LIMIT,
            r & MULTICAST_BIT == MULTICAST_BIT,
    {
        let x: u64 = rand::random::<u64>();
        let r = (x & 0x0000_ffff_ffff_ffffu64) | MULTICAST_BIT;
        assert(r < 0x1_0000_0000_0000u64 && r & 0x0000_8000_0000_0000u64
            == 0x0000_8000_0000_0000u64) by (bit_vector)
            requires
                r == (x & 0x0000_ffff_ffff_ffffu64) | 0x0000_8000_0000_0000u64,
        ;
        r
    }

    /// The nil value: all 128 bits zero.
    pub fn generate_v0_nil() -> (r: Self)
        ensures
            r == (UUIDType {
                time_low: 0,
                time_mid: 0,
                time_hi_and_version: 0,
                clk_seq_and_reserved: 0,
                node: 0,
            }),
            r.bytes() == Seq::new(16, |_i: int| 0u8),
            r.canonical() == "00000000-0000-0000-0000-000000000000"@,
            decimal(r.siv()) == "0"@,
    {
        let zeros: [u8; 16] = [0u8; 16];
        let r = UUIDType::from_bytes(zeros);
        assert(r.time_low == 0 && r.time_mid == 0 && r.time_hi_and_version == 0
            && r.clk_seq_and_reserved == 0 && r.node == 0) by {
            assert(((0u8 as u32) << 24u32) | ((0u8 as u32) << 16u32) | ((0u8 as u32) << 8u32) | (0u8
                as u32) == 0u32) by (bit_vector);
            assert(((0u8 as u16) << 8u16) | (0u8 as u16) == 0u16) by (bit_vector);
            assert(((0u8 as u64) << 40u64) | ((0u8 as u64) << 32u64) | ((0u8 as u64) << 24u64) | ((0u8
                as u64) << 16u64) | ((0u8 as u64) << 8u64) | (0u8 as u64) == 0u64) by (bit_vector);
        }
        proof {
            crate::uuid::lemma_bytes_round_trip(zeros@);
            assert(zeros@ =~= Seq::new(16, |_i: int| 0u8));
            lemma_nil_text(r);
        }
        r
    }

    /// The version-4 value made from the given random bytes: version 4, RFC 4122 variant.
    pub fn generate_v4_from(raw: [u8; 16]) -> (r: Self)
        ensures
            r == Self::v4_of(raw@),
            r.wf(),
            r.version() == 4,
            r.variant_bits() == 2,
    {
        let mut uuid = UUIDType::from_bytes(raw);
        uuid.set_version(4);
        uuid.set_variant(Variant::DCE);
        proof {
            lemma_version_set(UUIDType::from_seq(raw@), 4);
            lemma_variant_dce(UUIDType::from_seq(raw@).with_version(4));
        }
        uuid
    }

    /// A random version-4 value.
    pub fn generate_v4_random() -> (r: Self)
        ensures
            r.wf(),
            r.version() == 4,
            r.variant_bits() == 2,
            r.canonical()[14] == '4',
            r.canonical()[19] == '8' || r.canonical()[19] == '9' || r.canonical()[19] == 'a'
                || r.canonical()[19] == 'b',
    {
        let r = Self::generate_v4_from(rand::random::<[u8; 16]>());
        proof {
            lemma_version_digit(r);
            lemma_variant_digit(r);
        }
        r
    }

    /// The version-1 value made from the given random bytes and a clock reading in
    /// nanoseconds since 1970-01-01: version 1, RFC 4122 variant, multicast node, and
    /// the reading in 100-nanosecond ticks since 1582-10-15 as timestamp.
    pub fn generate_v1_from(raw: [u8; 16], unix_nanos: i64) -> (r: Self)
        ensures
            r == Self::v1_of(raw@, unix_nanos),
            r.wf(),
            r.version() == 1,
            r.variant_bits() == 2,
            r.node & MULTICAST_BIT == MULTICAST_BIT,
            r.timestamp() == v1_timestamp(unix_nanos),
    {
        let mut uuid = UUIDType::from_bytes(raw);
        uuid.set_version(1);
        uuid.set_variant(Variant::DCE);
        let n = uuid.node;
        uuid.node = n | MULTICAST_BIT;
        assert(n < 0x1_0000_0000_0000u64 ==> (n | 0x0000_8000_0000_0000u64) < 0x1_0000_0000_0000u64
            && (n | 0x0000_8000_0000_0000u64) & 0x0000_8000_0000_0000u64
            == 0x0000_8000_0000_0000u64) by (bit_vector);
        let timestamp: u64 = (unix_nanos as u64) / 100 + UUID_EPOCH_OFFSET;
        uuid.set_time(timestamp);
        proof {
            let base = UUIDType::from_seq(raw@);
            lemma_version_set(base, 1);
            lemma_variant_dce(base.with_version(1));
            crate::uuid::lemma_time_round_trip(
                base.with_version(1).with_variant(Variant::DCE).with_multicast_node(),
                timestamp,
            );
        }
        uuid
    }

    /// A version-1 value stamped with the current time. A clock reading past the
    /// year 2262, which does not fit in 64-bit nanoseconds, is taken as the latest
    /// representable instant.
    pub fn generate_v1_time() -> (r: Self)
        ensures
            r.wf(),
            r.version() == 1,
            r.variant_bits() == 2,
            r.node & MULTICAST_BIT == MULTICAST_BIT,
            r.canonical()[19] == '8' || r.canonical()[19] == '9' || r.canonical()[19] == 'a'
                || r.canonical()[19] == 'b',
    {
        let raw: [u8; 16] = rand::random::<[u8; 16]>();
        let nanos: i64 = match unix_nanos_now() {
            Some(n) => n,
            None => i64::MAX,
        };
        let r = Self::generate_v1_from(raw, nanos);
        proof {
            lemma_variant_digit(r);
        }
        r
    }
}

/// The all-zero value reads `00000000-0000-0000-0000-000000000000` in canonical
/// form and `0` in decimal.
pub proof fn lemma_nil_text(u: UUIDType)
    requires
        u == (UUIDType {
            time_low: 0,
            time_mid: 0,
            time_hi_and_version: 0,
            clk_seq_and_reserved: 0,
            node: 0,
        }),
    ensures
        u.canonical() == "00000000-0000-0000-0000-000000000000"@,
        decimal(u.siv()) == "0"@,
{
    assert forall|s: u64| ((0u64 >> s) & 0xfu64) == 0u64 by {
        assert(((0u64 >> s) & 0xfu64) == 0u64) by (bit_vector);
    }
    assert forall|w: nat| hex_digits(0, w) =~= Seq::new(w, |_k: int| '0') by {}
    reveal_strlit("00000000-0000-0000-0000-000000000000");
    assert(u.canonical() =~= "00000000-0000-0000-0000-000000000000"@);
    assert forall|k: int| 0 <= k < 16 implies u.bytes()[k] == 0u8 by {
        assert((0u32 >> 24u32) as u8 == 0u8 && (0u32 >> 16u32) as u8 == 0u8 && (0u32 >> 8u32) as u8
            == 0u8) by (bit_vector);
        assert((0u16 >> 8u16) as u8 == 0u8) by (bit_vector);
        assert((0u64 >> 40u64) as u8 == 0u8 && (0u64 >> 32u64) as u8 == 0u8 && (0u64 >> 24u64) as u8
            == 0u8 && (0u64 >> 16u64) as u8 == 0u8 && (0u64 >> 8u64) as u8 == 0u8) by (bit_vector);
    }
    lemma_be_value_zeros(u.bytes());
    reveal_strlit("0");
    assert(decimal(0) =~= "0"@);
}

proof fn lemma_be_value_zeros(b: Seq<u8>)
    requires
        forall|k: int| 0 <= k < b.len() ==> b[k] == 0u8,
    ensures
        crate::uuid::be_value(b) == 0,
    decreases b.len(),
{
    if b.len() > 0 {
        lemma_be_value_zeros(b.drop_last());
    }
}

proof fn lemma_version_set(u: UUIDType, v: u8)
    requires
        v < 16,
    ensures
        u.with_version(v).version() == v as u16,
{
    let h = u.time_hi_and_version;
    assert(v < 16u8 ==> ((h & 0x0fffu16) | (((v as u16) & 0x0fu16) << 12u16)) >> 12u16 == v as u16)
        by (bit_vector);
}

proof fn lemma_variant_dce(u: UUIDType)
    ensures
        u.with_variant(Variant::DCE).variant_bits() == 2,
        u.with_variant(Variant::DCE).version() == u.version(),
{
    let c = u.clk_seq_and_reserved;
    assert(((c & 0x3fffu16) | 0x8000u16) >> 14u16 == 2u16) by (bit_vector);
}

/// The fifteenth character of the canonical text (the first of the third group)
/// is the hexadecimal digit of the version nibble.
pub proof fn lemma_version_digit(u: UUIDType)
    ensures
        u.canonical()[14] == hex_char(u.version() as nat),
{
    let h = u.time_hi_and_version;
    assert(((h as u64) >> 12u64) & 0xfu64 == (h >> 12u16) as u64) by (bit_vector);
    assert(u.canonical()[14] == crate::text::hex_digits(h as u64, 4)[0]);
}

/// Under the RFC 4122 variant the first digit of the fourth group of the canonical
/// text is one of `8`, `9`, `a`, `b`.
pub proof fn lemma_variant_digit(u: UUIDType)
    requires
        u.variant_bits() == 2,
    ensures
        u.canonical()[19] == '8' || u.canonical()[19] == '9' || u.canonical()[19] == 'a'
            || u.canonical()[19] == 'b',
{
    let c = u.clk_seq_and_reserved;
    let d = ((c as u64) >> 12u64) & 0xfu64;
    assert(c >> 14u16 == 2u16 ==> 8u64 <= d && d <= 11u64) by (bit_vector)
        requires
            d == ((c as u64) >> 12u64) & 0xfu64,
    ;
    assert(u.canonical()[19] == crate::text::hex_digits(c as u64, 4)[0]);
}

} // verus!
