use pm25_sensor::reading::{PM25ReadingBuilder, NOT_SUPPLIED};
use pm25_sensor::PM25Reading;

fn fields(r: &PM25Reading) -> [u16; 12] {
    [
        r.pm10_standard(),
        r.pm25_standard(),
        r.pm100_standard(),
        r.pm10_env(),
        r.pm25_env(),
        r.pm100_env(),
        r.particles_03um(),
        r.particles_05um(),
        r.particles_10um(),
        r.particles_25um(),
        r.particles_50um(),
        r.particles_100um(),
    ]
}

fn all_supplied() -> PM25ReadingBuilder {
    PM25ReadingBuilder::new()
        .pm10_standard([0x01, 0x10])
        .pm25_standard([0x02, 0x20])
        .pm100_standard([0x03, 0x30])
        .pm10_env([0x04, 0x40])
        .pm25_env([0x05, 0x50])
        .pm100_env([0x06, 0x60])
        .particles_03um([0x07, 0x70])
        .particles_05um([0x08, 0x80])
        .particles_10um([0x09, 0x90])
        .particles_25um([0x0A, 0xA0])
        .particles_50um([0x0B, 0xB0])
        .particles_100um([0x0C, 0xC0])
}

#[test]
fn sentinel_is_all_ones() {
    assert_eq!(NOT_SUPPLIED, 0xFFFF);
    assert_eq!(NOT_SUPPLIED, u16::MAX);
}

#[test]
fn empty_builder_yields_sentinels() {
    let reading = PM25ReadingBuilder::new().build();
    assert_eq!(fields(&reading), [0xFFFF; 12]);
}

#[test]
fn every_setter_fills_its_own_field() {
    let reading = all_supplied().build();
    assert_eq!(
        fields(&reading),
        [
            0x1001, 0x2002, 0x3003, 0x4004, 0x5005, 0x6006, 0x7007, 0x8008, 0x9009, 0xA00A,
            0xB00B, 0xC00C
        ]
    );
}

#[test]
fn setter_reads_little_endian() {
    let reading = PM25ReadingBuilder::new().pm25_standard([0x34, 0x12]).build();
    assert_eq!(reading.pm25_standard(), 0x1234);
    assert_eq!(reading.pm25_standard(), 0x34 + 256 * 0x12);
    let reading = PM25ReadingBuilder::new().particles_03um([1, 0]).build();
    assert_eq!(reading.particles_03um(), 1);
    let reading = PM25ReadingBuilder::new().particles_03um([0, 1]).build();
    assert_eq!(reading.particles_03um(), 256);
}

#[test]
fn setter_boundary_zero() {
    let reading = PM25ReadingBuilder::new().pm10_standard([0x00, 0x00]).build();
    assert_eq!(reading.pm10_standard(), 0);
}

#[test]
fn setter_boundary_max() {
    let reading = PM25ReadingBuilder::new().pm10_standard([0xFF, 0xFF]).build();
    assert_eq!(reading.pm10_standard(), 65535);
}

#[test]
fn single_setter_leaves_others_unsupplied() {
    let reading = PM25ReadingBuilder::new().pm100_env([7, 0]).build();
    let mut expected = [0xFFFFu16; 12];
    expected[5] = 7;
    assert_eq!(fields(&reading), expected);
}

#[test]
fn each_setter_alone_touches_one_field() {
    let setters: [fn(PM25ReadingBuilder, [u8; 2]) -> PM25ReadingBuilder; 12] = [
        PM25ReadingBuilder::pm10_standard,
        PM25ReadingBuilder::pm25_standard,
        PM25ReadingBuilder::pm100_standard,
        PM25ReadingBuilder::pm10_env,
        PM25ReadingBuilder::pm25_env,
        PM25ReadingBuilder::pm100_env,
        PM25ReadingBuilder::particles_03um,
        PM25ReadingBuilder::particles_05um,
        PM25ReadingBuilder::particles_10um,
        PM25ReadingBuilder::particles_25um,
        PM25ReadingBuilder::particles_50um,
        PM25ReadingBuilder::particles_100um,
    ];
    for (i, set) in setters.iter().enumerate() {
        let reading = set(PM25ReadingBuilder::new(), [0xCD, 0xAB]).build();
        let mut expected = [0xFFFFu16; 12];
        expected[i] = 0xABCD;
        assert_eq!(fields(&reading), expected);
    }
}

#[test]
fn later_value_replaces_earlier() {
    let reading = PM25ReadingBuilder::new()
        .pm25_env([1, 0])
        .pm25_env([2, 0])
        .build();
    assert_eq!(reading.pm25_env(), 2);
}

#[test]
fn readings_compare_by_value() {
    let a = all_supplied().build();
    let b = all_supplied().build();
    let c = all_supplied().particles_100um([0, 0]).build();
    assert_eq!(a, b);
    assert_ne!(a, c);
    let copy = a;
    assert_eq!(copy, a);
    assert_eq!(a.clone(), b);
}

#[test]
fn word_from_le_bytes() {
    assert_eq!(pm25_sensor::bytes::u16_from_le([0x00, 0x00]), 0);
    assert_eq!(pm25_sensor::bytes::u16_from_le([0xFF, 0x00]), 255);
    assert_eq!(pm25_sensor::bytes::u16_from_le([0x00, 0x01]), 256);
    assert_eq!(pm25_sensor::bytes::u16_from_le([0xFF, 0xFF]), 65535);
    for lo in 0..=255u8 {
        for hi in 0..=255u8 {
            assert_eq!(
                pm25_sensor::bytes::u16_from_le([lo, hi]),
                u16::from_le_bytes([lo, hi])
            );
        }
    }
}

#[test]
fn prefix_sums() {
    let bytes = [1u8, 2, 3, 250, 250];
    assert_eq!(pm25_sensor::bytes::sum_prefix(&bytes, 0), 0);
    assert_eq!(pm25_sensor::bytes::sum_prefix(&bytes, 3), 6);
    assert_eq!(pm25_sensor::bytes::sum_prefix(&bytes, 5), 506);
}

#[test]
fn prefix_sum_wraps_at_16_bits() {
    let bytes = vec![255u8; 258];
    assert_eq!(pm25_sensor::bytes::sum_prefix(&bytes, 257), 65535);
    assert_eq!(pm25_sensor::bytes::sum_prefix(&bytes, 258), 254);
}
