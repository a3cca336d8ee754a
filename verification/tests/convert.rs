use cc1101::lowlevel::convert::{
    from_chanbw, from_deviation, from_drate, from_freq_if, from_frequency, from_frequency_offset,
    from_rssi_to_rssi_dbm, to_frequency_offset,
};
use cc1101::lowlevel::FXOSC;
use cc1101::rssi::rssi_to_dbm;

#[test]
fn test_frequency() {
    assert_eq!(from_frequency(433_000_000), (0x62, 0xA7, 0x10));
    assert_eq!(from_frequency(868_000_000), (0x76, 0x62, 0x21));
    assert_eq!(from_frequency(902_000_000), (0x3B, 0xB1, 0x22));
    assert_eq!(from_frequency(918_000_000), (0xC4, 0x4E, 0x23));
}

#[test]
fn test_frequency_offset() {
    assert_eq!(from_frequency_offset(0), 0);
    assert_eq!(from_frequency_offset(1586 + 1), 1);
    assert_eq!(from_frequency_offset(201538 + 1), 127);
    assert_eq!(from_frequency_offset(-203125 + 0), 128);
    assert_eq!(from_frequency_offset(-1586 - 1), 255);

    assert_eq!(to_frequency_offset(0), 0);
    assert_eq!(to_frequency_offset(1), 1586);
    assert_eq!(to_frequency_offset(127), 201538);
    assert_eq!(to_frequency_offset(128), -203125);
    assert_eq!(to_frequency_offset(255), -1586);
}

// f_dev = f_osc / 2^17 * (8 + DEVIATION_M) * 2^DEVIATION_E
fn calc_rev_dev(dev_m: u8, dev_e: u8) -> u64 {
    (((FXOSC as f32 / (2u64.pow(17) as f32)) as f32)
        * (8f32 + dev_m as f32)
        * (2u64.pow(dev_e as u32) as f32)) as u64
}

#[test]
fn test_deviation() {
    for e in 0..7 {
        for m in 1..7 {
            assert_eq!(from_deviation(calc_rev_dev(m, e)), (m, e));
        }
    }
}

#[test]
fn test_drate() {
    // Some sample settings from SmartRF Studio
    assert_eq!((117, 5), from_drate(1156));
    assert_eq!((117, 7), from_drate(4624));
    assert_eq!((117, 10), from_drate(36994));
    assert_eq!((34, 12), from_drate(115051));
    assert_eq!((59, 14), from_drate(499877));
    assert_eq!((59, 13), from_drate(249938));
    assert_eq!((248, 11), from_drate(99975));
    assert_eq!((131, 11), from_drate(76766));
    assert_eq!((131, 10), from_drate(38383));
    assert_eq!((147, 8), from_drate(9992));
    assert_eq!((131, 7), from_drate(4797));
    assert_eq!((131, 6), from_drate(2398));
    assert_eq!((131, 5), from_drate(1199));
}

#[test]
fn test_chanbw() {
    assert_eq!(from_chanbw(812500), (0b00, 0b00));
    assert_eq!(from_chanbw(650000), (0b01, 0b00));
    assert_eq!(from_chanbw(541666), (0b10, 0b00));
    assert_eq!(from_chanbw(464285), (0b11, 0b00));
    assert_eq!(from_chanbw(406250), (0b00, 0b01));
    assert_eq!(from_chanbw(325000), (0b01, 0b01));
    assert_eq!(from_chanbw(270833), (0b10, 0b01));
    assert_eq!(from_chanbw(232142), (0b11, 0b01));
    assert_eq!(from_chanbw(203125), (0b00, 0b10));
    assert_eq!(from_chanbw(162000), (0b01, 0b10));
    assert_eq!(from_chanbw(135416), (0b10, 0b10));
    assert_eq!(from_chanbw(116071), (0b11, 0b10));
    assert_eq!(from_chanbw(101562), (0b00, 0b11));
    assert_eq!(from_chanbw(81250), (0b01, 0b11));
    assert_eq!(from_chanbw(67708), (0b10, 0b11));
    assert_eq!(from_chanbw(58035), (0b11, 0b11));
}

#[test]
fn test_freq_if() {
    assert_eq!(from_freq_if(381_000), 0x0F);
    assert_eq!(from_freq_if(203_125), 0x08);
    assert_eq!(from_freq_if(152_300), 0x06);
}

#[test]
fn frequency_word_bounds() {
    assert_eq!(from_frequency(0), (0, 0, 0));
    // One step of the frequency word is FXOSC / 2^16, a little under 397 Hz.
    assert_eq!(from_frequency(396), (0, 0, 0));
    assert_eq!(from_frequency(397), (1, 0, 0));
    assert_eq!(from_frequency(26_000_000), (0, 0, 1));
    // The word is cut to its low three bytes.
    assert_eq!(from_frequency(26_000_000 * 256), (0, 0, 0));
    assert_eq!(from_frequency(0xFFFF_FFFF_FFFF), (0x89, 0xA4, 0xE8));
}

#[test]
fn frequency_offset_rounds_towards_zero() {
    assert_eq!(from_frequency_offset(1586), 0);
    assert_eq!(from_frequency_offset(-1586), 0);
    assert_eq!(from_frequency_offset(-1587), 255);
    // Beyond a signed byte the setting wraps.
    assert_eq!(from_frequency_offset(203_125), 128);
    assert_eq!(from_frequency_offset(i32::MAX), 29);
    assert_eq!(from_frequency_offset(i32::MIN), 227);
    assert_eq!(to_frequency_offset(2), 3173);
    assert_eq!(to_frequency_offset(254), -3173);
}

#[test]
fn frequency_offset_round_trip() {
    for value in 0..=255u8 {
        let hz = to_frequency_offset(value);
        // Rounding down twice may lose one step, never more.
        let back = from_frequency_offset(hz);
        let step = if value < 128 { 1 } else { 255 };
        assert!(back == value || back == value.wrapping_sub(step), "{value}: {hz} -> {back}");
    }
}

#[test]
fn deviation_edges() {
    // The smallest deviation for which a setting is defined.
    assert_eq!(from_deviation(1587), (1, 0));
    assert_eq!(from_deviation(5_157), (5, 1));
    // The register's reset setting: mantissa 7, exponent 4.
    assert_eq!(from_deviation(47_607), (7, 4));
    assert_eq!(from_deviation(380_859), (7, 7));
    // Above the field's range the exponent is cut to three bits.
    assert_eq!(from_deviation(calc_rev_dev(3, 8)), (3, 0));
}

#[test]
fn drate_carry() {
    // A mantissa that runs over is carried into the exponent.
    assert_eq!(from_drate(99), (0, 2));
    assert_eq!(from_drate(50), (3, 1));
    assert_eq!(from_drate(397), (1, 4));
}

#[test]
fn chanbw_edges() {
    assert_eq!(from_chanbw(58_000), (3, 3));
    assert_eq!(from_chanbw(102_000), (3, 2));
    // Below the field's range the exponent is cut to two bits.
    assert_eq!(from_chanbw(50_000), (0, 0));
    assert_eq!(from_chanbw(1), (2, 3));
}

#[test]
fn freq_if_rounds_to_nearest() {
    assert_eq!(from_freq_if(0), 0);
    assert_eq!(from_freq_if(12_695), 0);
    assert_eq!(from_freq_if(12_696), 1);
    assert_eq!(from_freq_if(6_487_060), 255);
}

#[test]
fn rssi_boundaries() {
    assert_eq!(rssi_to_dbm(0), -74);
    assert_eq!(rssi_to_dbm(1), -74);
    assert_eq!(rssi_to_dbm(2), -73);
    assert_eq!(rssi_to_dbm(127), -11);
    assert_eq!(rssi_to_dbm(128), -138);
    assert_eq!(rssi_to_dbm(129), -137);
    assert_eq!(rssi_to_dbm(254), -75);
    assert_eq!(rssi_to_dbm(255), -74);
}

#[test]
fn rssi_both_conversions_agree() {
    for raw in 0..=255u8 {
        assert_eq!(rssi_to_dbm(raw), from_rssi_to_rssi_dbm(raw));
        let signed = raw as i8 as i16;
        assert_eq!(rssi_to_dbm(raw), signed / 2 - 74);
    }
}
