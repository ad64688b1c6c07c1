use aht100::data::FULL_SCALE;
use aht100::AhtData;

fn humidity_pct(data: &AhtData) -> f64 {
    data.humidity_q20() as f64 / FULL_SCALE as f64
}

fn temperature_c(data: &AhtData) -> f64 {
    data.temperature_q20() as f64 / FULL_SCALE as f64
}

#[test]
fn datasheet_frame_decodes_to_ten_percent_and_eighty_degrees() {
    let data = AhtData::from_bytes([0x19, 0x99, 0x9A, 0x66, 0x66]);
    assert_eq!(data.hum, 0x19999);
    assert_eq!(data.temp, 0xA6666);
    assert!((humidity_pct(&data) - 10.0).abs() < 1e-3);
    assert!((temperature_c(&data) - 80.0).abs() < 1e-3);
}

#[test]
fn datasheet_frame_in_fixed_point() {
    let data = AhtData::from_bytes([0x19, 0x99, 0x9A, 0x66, 0x66]);
    assert_eq!(data.humidity_q20(), 10_485_700);
    assert_eq!(data.temperature_q20(), 83_886_000);
}

#[test]
fn zero_humidity_count_is_zero_percent() {
    let data = AhtData::from_bytes([0x00, 0x00, 0x0F, 0xFF, 0xFF]);
    assert_eq!(data.hum, 0);
    assert_eq!(data.humidity_q20(), 0);
    assert_eq!(humidity_pct(&data), 0.0);
}

#[test]
fn full_humidity_count_stays_below_one_hundred_percent() {
    let data = AhtData::from_bytes([0xFF, 0xFF, 0xF0, 0x00, 0x00]);
    assert_eq!(data.hum, (1 << 20) - 1);
    assert_eq!(data.humidity_q20(), 104_857_500);
    assert!(humidity_pct(&data) <= 100.0);
    assert!(100.0 - humidity_pct(&data) < 1e-3);
    assert!(data.hum as f32 / FULL_SCALE as f32 * 100.0 <= 100.0);
}

#[test]
fn zero_temperature_count_is_minus_fifty_degrees() {
    let data = AhtData::from_bytes([0xFF, 0xFF, 0xF0, 0x00, 0x00]);
    assert_eq!(data.temp, 0);
    assert_eq!(data.temperature_q20(), -52_428_800);
    assert_eq!(temperature_c(&data), -50.0);
}

#[test]
fn full_temperature_count_approaches_one_hundred_and_fifty_degrees() {
    let data = AhtData::from_bytes([0x00, 0x00, 0x0F, 0xFF, 0xFF]);
    assert_eq!(data.temp, (1 << 20) - 1);
    assert_eq!(data.temperature_q20(), 157_286_200);
    assert!(temperature_c(&data) < 150.0);
    assert!(150.0 - temperature_c(&data) < 1e-3);
}

#[test]
fn third_byte_is_split_between_the_two_counts() {
    let data = AhtData::from_bytes([0x00, 0x00, 0xA5, 0x00, 0x00]);
    assert_eq!(data.hum, 0xA);
    assert_eq!(data.temp, 0x5_0000);
}

#[test]
fn each_byte_lands_at_its_own_place() {
    assert_eq!(AhtData::from_bytes([0x01, 0, 0, 0, 0]), AhtData { temp: 0, hum: 1 << 12 });
    assert_eq!(AhtData::from_bytes([0, 0x01, 0, 0, 0]), AhtData { temp: 0, hum: 1 << 4 });
    assert_eq!(AhtData::from_bytes([0, 0, 0x10, 0, 0]), AhtData { temp: 0, hum: 1 });
    assert_eq!(AhtData::from_bytes([0, 0, 0x01, 0, 0]), AhtData { temp: 1 << 16, hum: 0 });
    assert_eq!(AhtData::from_bytes([0, 0, 0, 0x01, 0]), AhtData { temp: 1 << 8, hum: 0 });
    assert_eq!(AhtData::from_bytes([0, 0, 0, 0, 0x01]), AhtData { temp: 1, hum: 0 });
}

#[test]
fn counts_never_leave_twenty_bits() {
    let data = AhtData::from_bytes([0xFF; 5]);
    assert_eq!(data, AhtData { temp: 0xF_FFFF, hum: 0xF_FFFF });
    assert!(data.hum < FULL_SCALE && data.temp < FULL_SCALE);
}

#[test]
fn midscale_is_fifty_percent_and_fifty_degrees() {
    let data = AhtData::from_bytes([0x80, 0x00, 0x08, 0x00, 0x00]);
    assert_eq!(data, AhtData { temp: 1 << 19, hum: 1 << 19 });
    assert_eq!(humidity_pct(&data), 50.0);
    assert_eq!(temperature_c(&data), 50.0);
}
