use log_analyzer::temperature::{
    Temperature, POSITIVE_INFINITY_BITS, TEMPERATURE_THRESHOLD, TEMPERATURE_THRESHOLD_BITS,
};

fn exceeds(bits: u32) -> bool {
    Temperature::new(bits, String::new()).exceeds_threshold()
}

#[test]
fn threshold_encoding_is_eighty() {
    assert_eq!(TEMPERATURE_THRESHOLD, 80);
    assert_eq!(TEMPERATURE_THRESHOLD_BITS, 80.0f32.to_bits());
    assert_eq!(POSITIVE_INFINITY_BITS, f32::INFINITY.to_bits());
    assert_eq!(f32::from_bits(TEMPERATURE_THRESHOLD_BITS), 80.0);
}

#[test]
fn new_reading_keeps_its_parts() {
    let reading = Temperature::new(85.0f32.to_bits(), "85".to_string());
    assert_eq!(reading.bits, 0x42AA_0000);
    assert_eq!(reading.text, "85");
}

#[test]
fn threshold_itself_does_not_exceed() {
    assert!(!exceeds(80.0f32.to_bits()));
    assert!(!exceeds(80.0f32.to_bits() - 1));
    assert!(exceeds(80.0f32.to_bits() + 1));
}

#[test]
fn special_values() {
    assert!(exceeds(f32::INFINITY.to_bits()));
    assert!(exceeds(f32::MAX.to_bits()));
    assert!(!exceeds(f32::NEG_INFINITY.to_bits()));
    assert!(!exceeds(f32::NAN.to_bits()));
    assert!(!exceeds(0x7F80_0001));
    assert!(!exceeds(0x7FFF_FFFF));
    assert!(!exceeds(0xFFFF_FFFF));
    assert!(!exceeds(0.0f32.to_bits()));
    assert!(!exceeds((-0.0f32).to_bits()));
    assert!(!exceeds((-100.0f32).to_bits()));
    assert!(!exceeds(f32::MIN.to_bits()));
    assert!(!exceeds(1));
    assert!(!exceeds(f32::MIN_POSITIVE.to_bits()));
}

#[test]
fn comparison_on_encodings_agrees_with_the_numbers() {
    let mut bits: u32 = 0;
    loop {
        assert_eq!(exceeds(bits), f32::from_bits(bits) > 80.0, "encoding {:#010x}", bits);
        match bits.checked_add(0x0000_3FF1) {
            Some(next) => bits = next,
            None => break,
        }
    }
    for bits in 0x429F_FF00u32..0x42A0_0100 {
        assert_eq!(exceeds(bits), f32::from_bits(bits) > 80.0);
    }
    for bits in 0x7F7F_FF00u32..0x7F80_0100 {
        assert_eq!(exceeds(bits), f32::from_bits(bits) > 80.0);
    }
    for bits in 0xC29F_FF00u32..0xC2A0_0100 {
        assert_eq!(exceeds(bits), f32::from_bits(bits) > 80.0);
    }
    for bits in 0xFF7F_FF00u32..0xFF80_0100 {
        assert_eq!(exceeds(bits), f32::from_bits(bits) > 80.0);
    }
    for bits in 0xFFFF_FF00u32..=0xFFFF_FFFF {
        assert_eq!(exceeds(bits), f32::from_bits(bits) > 80.0);
    }
}
