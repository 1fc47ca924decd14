use std::collections::HashSet;

use uuidrs::generate::{MULTICAST_BIT, UUID_EPOCH_OFFSET};
use uuidrs::options::{generate_lines, OutputFormat, UuidVersion};
use uuidrs::uuid::{UUIDType, Variant, NODE_LIMIT};

const KNOWN: [u8; 16] = [
    0x00, 0x11, 0x22, 0x33, 0x44, 0x55, 0x46, 0x77, 0x88, 0x99, 0xaa, 0xbb, 0xcc, 0xdd, 0xee, 0xff,
];

fn sample() -> UUIDType {
    UUIDType {
        time_low: 0xdead_beef,
        time_mid: 0x0123,
        time_hi_and_version: 0xf456,
        clk_seq_and_reserved: 0x789a,
        node: 0x0000_bcde_f012_3456,
    }
}

#[test]
fn fields_round_trip_through_bytes() {
    let f = sample();
    assert_eq!(UUIDType::from_bytes(f.as_bytes()), f);
    let z = UUIDType {
        time_low: 0,
        time_mid: 0,
        time_hi_and_version: 0,
        clk_seq_and_reserved: 0,
        node: 0,
    };
    assert_eq!(UUIDType::from_bytes(z.as_bytes()), z);
    let m = UUIDType {
        time_low: u32::MAX,
        time_mid: u16::MAX,
        time_hi_and_version: u16::MAX,
        clk_seq_and_reserved: u16::MAX,
        node: NODE_LIMIT - 1,
    };
    assert_eq!(UUIDType::from_bytes(m.as_bytes()), m);
}

#[test]
fn bytes_layout_is_big_endian_at_rfc_offsets() {
    let b = sample().as_bytes();
    assert_eq!(
        b,
        [0xde, 0xad, 0xbe, 0xef, 0x01, 0x23, 0xf4, 0x56, 0x78, 0x9a, 0xbc, 0xde, 0xf0, 0x12, 0x34, 0x56]
    );
    let u = UUIDType::from_bytes(KNOWN);
    assert_eq!(u.time_low, 0x0011_2233);
    assert_eq!(u.time_mid, 0x4455);
    assert_eq!(u.time_hi_and_version, 0x4677);
    assert_eq!(u.clk_seq_and_reserved, 0x8899);
    assert_eq!(u.node, 0xaabb_ccdd_eeff);
    assert_eq!(u.as_bytes(), KNOWN);
}

#[test]
fn known_bytes_canonical_and_decimal() {
    let u = UUIDType::from_bytes(KNOWN);
    assert_eq!(u.to_string(), "00112233-4455-4677-8899-aabbccddeeff");
    assert_eq!(u.to_siv_string(), "88962710305976587138789898786303743");
    assert_eq!(u.to_siv_string(), u128::from_be_bytes(KNOWN).to_string());
}

#[test]
fn nil_value_and_texts() {
    let u = UUIDType::generate_v0_nil();
    assert_eq!(u.as_bytes(), [0u8; 16]);
    assert_eq!(u.to_string(), "00000000-0000-0000-0000-000000000000");
    assert_eq!(u.to_siv_string(), "0");
    assert_eq!(UUIDType::generate(UuidVersion::V0), u);
}

#[test]
fn largest_value_texts() {
    let u = UUIDType::from_bytes([0xff; 16]);
    assert_eq!(u.to_string(), "ffffffff-ffff-ffff-ffff-ffffffffffff");
    assert_eq!(u.to_siv_string(), u128::MAX.to_string());
}

#[test]
fn set_version_masks_to_four_bits() {
    let mut u = sample();
    u.set_version(4);
    assert_eq!(u.time_hi_and_version, 0x4456);
    u.set_version(0x1b);
    assert_eq!(u.time_hi_and_version, 0xb456);
    u.set_version(0);
    assert_eq!(u.time_hi_and_version, 0x0456);
    assert_eq!(u.time_low, 0xdead_beef);
}

#[test]
fn set_variant_applies_each_mask() {
    let base = UUIDType::from_bytes([0xff; 16]);
    let cases = [
        (Variant::NCS, 0x7fffu16),
        (Variant::DCE, 0xbfff),
        (Variant::MICROSOFT, 0xdfff),
        (Variant::RESERVED, 0xe1ff),
    ];
    for (v, expected) in cases {
        let mut u = base;
        u.set_variant(v);
        assert_eq!(u.clk_seq_and_reserved, expected);
        assert_eq!(u.time_hi_and_version, 0xffff);
    }
    let mut u = UUIDType::from_bytes([0u8; 16]);
    u.set_variant(Variant::DCE);
    assert_eq!(u.clk_seq_and_reserved, 0x8000);
}

#[test]
fn timestamp_round_trip_keeps_version() {
    let stamps = [0u64, 1, 0xffff_ffff, 0x1_0000_0000, 0x0123_4567_89ab_cdef, (1u64 << 60) - 1];
    for version in [0u8, 1, 4, 15] {
        for t in stamps {
            let mut u = sample();
            u.set_version(version);
            u.set_time(t);
            assert_eq!(u.get_time(), t);
            assert_eq!(u.time_hi_and_version >> 12, version as u16);
            assert_eq!(u.clk_seq_and_reserved, 0x789a);
            assert_eq!(u.node, 0x0000_bcde_f012_3456);
        }
    }
    let mut u = sample();
    u.set_time(0x0123_4567_89ab_cdef);
    assert_eq!(u.time_low, 0x89ab_cdef);
    assert_eq!(u.time_mid, 0x4567);
    assert_eq!(u.time_hi_and_version, 0xf123);
}

#[test]
fn v4_from_fixed_bytes() {
    let u = UUIDType::generate_v4_from([0xff; 16]);
    assert_eq!(u.to_string(), "ffffffff-ffff-4fff-bfff-ffffffffffff");
    assert_eq!(u.to_siv_string(), "340282366920937632322261936355783213055");
    let k = UUIDType::generate_v4_from(KNOWN);
    assert_eq!(k.to_string(), "00112233-4455-4677-8899-aabbccddeeff");
}

#[test]
fn v1_from_fixed_bytes_and_clock() {
    let nanos: i64 = 1_000_000_000_000_000_000;
    let u = UUIDType::generate_v1_from([0xff; 16], nanos);
    assert_eq!(u.get_time(), 10_000_000_000_000_000 + UUID_EPOCH_OFFSET);
    assert_eq!(u.get_time(), 132_192_928_000_000_000);
    assert_eq!(u.to_string(), "83424000-a4c4-11d5-bfff-ffffffffffff");
    let z = UUIDType::generate_v1_from([0u8; 16], 0);
    assert_eq!(z.node, MULTICAST_BIT);
    assert_eq!(z.get_time(), UUID_EPOCH_OFFSET);
    assert_eq!(z.to_string(), "13814000-1dd2-11b2-8000-800000000000");
}

#[test]
fn v4_random_version_digit() {
    for _ in 0..1000 {
        let s = UUIDType::generate_v4_random().to_string();
        assert_eq!(s.len(), 36);
        assert_eq!(s.as_bytes()[14], b'4');
    }
}

#[test]
fn generated_values_carry_rfc_variant() {
    for _ in 0..1000 {
        for u in [UUIDType::generate_v4_random(), UUIDType::generate_v1_time()] {
            let s = u.to_string();
            assert!(matches!(s.as_bytes()[19], b'8' | b'9' | b'a' | b'b'));
            assert_eq!(u.clk_seq_and_reserved >> 14, 2);
        }
    }
}

#[test]
fn v1_time_has_version_node_bit_and_recent_stamp() {
    let u = UUIDType::generate_v1_time();
    assert_eq!(u.time_hi_and_version >> 12, 1);
    assert_eq!(u.node & MULTICAST_BIT, MULTICAST_BIT);
    assert!(u.node < NODE_LIMIT);
    // later than 2020-01-01 in 100-nanosecond ticks since 1582-10-15
    assert!(u.get_time() > 15_778_368_000_000_000 + UUID_EPOCH_OFFSET);
    assert_eq!(u.to_string().as_bytes()[14], b'1');
}

#[test]
fn v4_random_values_are_distinct_and_unbiased() {
    let mut seen = HashSet::new();
    let mut ones = [0u32; 128];
    for _ in 0..10_000 {
        let u = UUIDType::generate_v4_random();
        assert!(seen.insert(u.to_string()));
        let v = u128::from_be_bytes(u.as_bytes());
        for (bit, count) in ones.iter_mut().enumerate() {
            *count += ((v >> bit) & 1) as u32;
        }
    }
    assert_eq!(seen.len(), 10_000);
    for (bit, &count) in ones.iter().enumerate() {
        let fixed = (76..80).contains(&bit) || (62..64).contains(&bit);
        if fixed {
            continue;
        }
        assert!((4_000..6_000).contains(&count), "bit {} set {} times", bit, count);
    }
    // the fixed bits: version 0100, variant 10
    assert_eq!(ones[76], 0);
    assert_eq!(ones[77], 0);
    assert_eq!(ones[78], 10_000);
    assert_eq!(ones[79], 0);
    assert_eq!(ones[62], 0);
    assert_eq!(ones[63], 10_000);
}

#[test]
fn full_random_is_well_formed() {
    for _ in 0..100 {
        assert!(UUIDType::full_random().node < NODE_LIMIT);
    }
}

#[test]
fn random_node_has_multicast_bit() {
    let u = sample();
    for _ in 0..100 {
        let n = u.generate_random_node();
        assert!(n < NODE_LIMIT);
        assert_eq!(n & MULTICAST_BIT, MULTICAST_BIT);
    }
}

#[test]
fn parse_output_format_tokens() {
    assert_eq!(OutputFormat::parse("str"), Ok(OutputFormat::STR));
    assert_eq!(OutputFormat::parse("  SIV \n"), Ok(OutputFormat::SIV));
    assert_eq!(OutputFormat::parse("Str"), Ok(OutputFormat::STR));
    assert_eq!(OutputFormat::parse("hex"), Err(-1));
    assert_eq!(OutputFormat::parse(""), Err(-1));
    assert_eq!("siv".parse::<OutputFormat>(), Ok(OutputFormat::SIV));
    assert_eq!(OutputFormat::from_token("SIV"), Err(-1));
}

#[test]
fn parse_version_tokens() {
    let cases = [
        ("0", UuidVersion::V0),
        ("NIL", UuidVersion::V0),
        ("1", UuidVersion::V1),
        (" Mac ", UuidVersion::V1),
        ("2", UuidVersion::V2),
        ("dce", UuidVersion::V2),
        ("3", UuidVersion::V3),
        ("MD5", UuidVersion::V3),
        ("4", UuidVersion::V4),
        ("\trandom", UuidVersion::V4),
        ("5", UuidVersion::V5),
        ("Sha1", UuidVersion::V5),
    ];
    for (token, expected) in cases {
        assert_eq!(UuidVersion::parse(token), Ok(expected));
    }
    assert_eq!(UuidVersion::parse("6"), Err(-1));
    assert_eq!(UuidVersion::parse("sha256"), Err(-1));
    assert_eq!("random".parse::<UuidVersion>(), Ok(UuidVersion::V4));
}

#[test]
fn unimplemented_versions_fall_back_to_v4() {
    for v in [UuidVersion::V2, UuidVersion::V3, UuidVersion::V4, UuidVersion::V5] {
        let u = UUIDType::generate(v);
        assert_eq!(u.time_hi_and_version >> 12, 4);
        assert_eq!(u.clk_seq_and_reserved >> 14, 2);
    }
    assert_eq!(UUIDType::generate(UuidVersion::V1).time_hi_and_version >> 12, 1);
}

#[test]
fn format_selects_text() {
    let u = UUIDType::from_bytes(KNOWN);
    assert_eq!(u.format(OutputFormat::STR), "00112233-4455-4677-8899-aabbccddeeff");
    assert_eq!(u.format(OutputFormat::SIV), "88962710305976587138789898786303743");
}

#[test]
fn count_gives_that_many_lines() {
    let lines = generate_lines(5, UuidVersion::V4, OutputFormat::STR);
    assert_eq!(lines.len(), 5);
    for l in &lines {
        assert_eq!(l.len(), 36);
        assert_eq!(l.as_bytes()[14], b'4');
    }
    let nil = generate_lines(3, UuidVersion::V0, OutputFormat::SIV);
    assert_eq!(nil, vec!["0".to_string(), "0".to_string(), "0".to_string()]);
    assert!(generate_lines(0, UuidVersion::V1, OutputFormat::STR).is_empty());
}
