use lora_node::identity::{app_eui, dev_eui};
use lora_node::link::Board;
use lora_node::payload::{climate_payload, counter_payload};
use lora_node::sensor::Climate;

#[test]
fn sensor_frame_is_decoded() {
    let climate = Climate::decode(&[0x66, 0x66, 0x93, 0x80, 0x00, 0xA2]);
    assert_eq!(climate, Climate { temp_int: 25, hum_int: 56 });
}

#[test]
fn sensor_range_ends() {
    let low = Climate::decode(&[0, 0, 0xFF, 0, 0, 0xFF]);
    assert_eq!(low, Climate { temp_int: -45, hum_int: -6 });
    let high = Climate::decode(&[0xFF, 0xFF, 0, 0xFF, 0xFF, 0]);
    assert_eq!(high, Climate { temp_int: 130, hum_int: 119 });
}

#[test]
fn every_raw_word_follows_the_formula() {
    for raw in 0..=65535u32 {
        let (high, low) = ((raw >> 8) as u8, raw as u8);
        let climate = Climate::decode(&[high, low, 1, high, low, 2]);
        assert_eq!(climate.temp_int as i32, -45 + (175 * raw as i32) / 65535);
        assert_eq!(climate.hum_int as i32, -6 + (125 * raw as i32) / 65535);
    }
}

#[test]
fn no_reading_yet_is_zero() {
    assert_eq!(Climate::new(), Climate { temp_int: 0, hum_int: 0 });
}

#[test]
fn climate_payload_bytes() {
    // 2500 = 0x09C4, 5600 = 0x15E0
    assert_eq!(climate_payload(25, 56), [0x09, 0xC4, 0x15, 0xE0]);
    // -4500 = 0xEE6C, -600 = 0xFDA8 in two's complement
    assert_eq!(climate_payload(-45, -6), [0xEE, 0x6C, 0xFD, 0xA8]);
    assert_eq!(climate_payload(0, 0), [0, 0, 0, 0]);
}

#[test]
fn climate_payload_reads_back() {
    for temp in -327i16..328 {
        for hum in [-327i16, -6, -1, 0, 1, 56, 119, 327] {
            let p = climate_payload(temp, hum);
            assert_eq!(i16::from_be_bytes([p[0], p[1]]), 100 * temp);
            assert_eq!(i16::from_be_bytes([p[2], p[3]]), 100 * hum);
        }
    }
}

#[test]
fn counter_payload_bytes() {
    assert_eq!(counter_payload(0), [0, 0, 0, 0]);
    assert_eq!(counter_payload(0x0102_0304), [1, 2, 3, 4]);
    assert_eq!(counter_payload(u32::MAX), [255, 255, 255, 255]);
}

#[test]
fn counter_payload_reads_back() {
    for n in [0u32, 1, 255, 256, 65535, 65536, 16777215, 16777216, 4294967295] {
        assert_eq!(u32::from_be_bytes(counter_payload(n)), n);
    }
}

#[test]
fn euis_go_out_least_significant_byte_first() {
    assert_eq!(u64::from_le_bytes(dev_eui(Board::Lora1)), 0x23ce1bfeff091fac);
    assert_eq!(u64::from_le_bytes(dev_eui(Board::Lora2)), 0x24ce1bfeff091fac);
    assert_eq!(u64::from_le_bytes(app_eui()), 0xb130a864c5295356);
}
