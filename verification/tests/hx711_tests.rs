use crimpdeq::binary32::{Binary32, ONE_BITS};
use crimpdeq::hx711::{
    streaming_mean,
    GainMode,
    Hx711,
    Hx711Error,
    LineOp,
    RawSample,
    ReadCycle,
    DEFAULT_CALIBRATION_FACTOR_BITS,
    DEFAULT_CALIBRATION_SAMPLES,
    DEFAULT_TARING_SAMPLES,
    HX711_DATA_BITS,
    HX711_DELAY_TIME_US,
    HX711_MAXIMUM,
    HX711_MINIMUM,
    HX711_SIGN_BIT,
    NVS_ADDR,
};

fn bits_of(v: f32) -> Binary32 {
    Binary32::from_bits(v.to_bits())
}

fn samples_of(values: &[i32]) -> Vec<RawSample> {
    values.iter().map(|v| RawSample::clamped(*v as i64)).collect()
}

/// Sign extension and clamping written with the bit operations of the
/// converter's data sheet.
fn reference_sample(value: u32) -> i32 {
    let extended = if value & 0x80_0000 != 0 { value | 0xFF00_0000 } else { value };
    (extended as i32).clamp(-8_388_608, 8_388_607)
}

/// Runs a whole read-out, feeding the bits of `register` from bit 23 down,
/// and returns the operations in order together with the reading.
fn run_cycle(gain_mode: GainMode, register: u32) -> (Vec<LineOp>, Option<RawSample>) {
    let mut cycle = ReadCycle::new(gain_mode);
    let mut ops = Vec::new();
    let mut bit = 24;
    while let Some(op) = cycle.next_op() {
        assert!(!cycle.is_done());
        assert!(cycle.sample().is_none());
        ops.push(op);
        let level = if op == LineOp::Sample {
            bit -= 1;
            (register >> bit) & 1 == 1
        } else {
            false
        };
        cycle.advance(level);
        assert!(ops.len() < 1000);
    }
    assert!(cycle.is_done());
    (ops, cycle.sample())
}

#[test]
fn constants() {
    assert_eq!(HX711_MINIMUM, -(1 << 23));
    assert_eq!(HX711_MAXIMUM, (1 << 23) - 1);
    assert_eq!(HX711_DELAY_TIME_US, 1);
    assert_eq!(HX711_DATA_BITS, 24);
    assert_eq!(HX711_SIGN_BIT, 0x80_0000);
    assert_eq!(NVS_ADDR, 0x9000);
    assert_eq!(DEFAULT_TARING_SAMPLES, 16);
    assert_eq!(DEFAULT_CALIBRATION_SAMPLES, 100);
    assert_eq!(DEFAULT_CALIBRATION_FACTOR_BITS, 0.066f32.to_bits());
}

#[test]
fn error_descriptions() {
    assert_eq!(Hx711Error::FlashError.description(), "Flash storage error");
    assert_eq!(Hx711Error::InvalidCalibration.description(), "Invalid calibration value");
}

#[test]
fn gain_pulses() {
    assert_eq!(GainMode::A128.pulses(), 1);
    assert_eq!(GainMode::B32.pulses(), 2);
    assert_eq!(GainMode::A64.pulses(), 3);
}

#[test]
fn sign_extension_of_the_extremes() {
    assert_eq!(RawSample::from_register(0x80_0000).get(), HX711_MINIMUM);
    assert_eq!(RawSample::from_register(0x7F_FFFF).get(), HX711_MAXIMUM);
    assert_eq!(RawSample::from_register(0).get(), 0);
    assert_eq!(RawSample::from_register(1).get(), 1);
    assert_eq!(RawSample::from_register(0xFF_FFFF).get(), -1);
    assert_eq!(RawSample::from_register(0xFF_FFFE).get(), -2);
}

#[test]
fn sign_extension_matches_the_bit_operations() {
    let mut v: u32 = 0;
    while v < 0x100_0000 {
        assert_eq!(RawSample::from_register(v).get(), reference_sample(v), "register {:#x}", v);
        v += 4099;
    }
    for v in [0x7F_FFFEu32, 0x7F_FFFF, 0x80_0000, 0x80_0001, 0xFF_FFFF] {
        assert_eq!(RawSample::from_register(v).get(), reference_sample(v));
    }
}

#[test]
fn registers_wider_than_24_bits_are_clamped() {
    for v in [0x100_0000u32, 0x7FFF_FFFF, 0x8000_0000, 0xFF00_0000, 0xFF80_0000, u32::MAX, 0x1234_5678] {
        assert_eq!(RawSample::from_register(v).get(), reference_sample(v), "register {:#x}", v);
    }
    assert_eq!(RawSample::from_register(0x100_0000).get(), HX711_MAXIMUM);
    assert_eq!(RawSample::from_register(0xFF00_0000).get(), HX711_MINIMUM);
}

#[test]
fn clamped_keeps_readings_in_range() {
    assert_eq!(RawSample::clamped(5).get(), 5);
    assert_eq!(RawSample::clamped(-5).get(), -5);
    assert_eq!(RawSample::clamped(i64::MAX).get(), HX711_MAXIMUM);
    assert_eq!(RawSample::clamped(i64::MIN).get(), HX711_MINIMUM);
    assert_eq!(RawSample::clamped(8_388_608).get(), HX711_MAXIMUM);
    assert_eq!(RawSample::clamped(-8_388_609).get(), HX711_MINIMUM);
}

#[test]
fn read_cycle_runs_24_bits_then_the_gain_pulses() {
    for (gain_mode, pulses) in [(GainMode::A128, 1usize), (GainMode::B32, 2), (GainMode::A64, 3)] {
        let (ops, _) = run_cycle(gain_mode, 0);
        assert_eq!(ops.len(), 24 * 5 + pulses * 4);
        for bit in 0..24 {
            assert_eq!(
                &ops[bit * 5..bit * 5 + 5],
                &[
                    LineOp::ClockHigh,
                    LineOp::DelayUs(1),
                    LineOp::Sample,
                    LineOp::ClockLow,
                    LineOp::DelayUs(1)
                ]
            );
        }
        for pulse in 0..pulses {
            let at = 120 + pulse * 4;
            assert_eq!(
                &ops[at..at + 4],
                &[LineOp::ClockHigh, LineOp::DelayUs(1), LineOp::ClockLow, LineOp::DelayUs(1)]
            );
        }
        assert_eq!(ops.iter().filter(|op| **op == LineOp::Sample).count(), 24);
        assert_eq!(ops.iter().filter(|op| **op == LineOp::ClockHigh).count(), 24 + pulses);
        assert_eq!(ops.iter().filter(|op| **op == LineOp::ClockLow).count(), 24 + pulses);
    }
}

#[test]
fn read_cycle_assembles_the_bits_most_significant_first() {
    for register in [0u32, 1, 2, 0x12_3456, 0x7F_FFFF, 0x80_0000, 0x80_0001, 0xAB_CDEF, 0xFF_FFFF] {
        let (_, sample) = run_cycle(GainMode::A64, register);
        assert_eq!(sample.unwrap().get(), reference_sample(register), "register {:#x}", register);
    }
    let (_, sample) = run_cycle(GainMode::A128, 0x00_0100);
    assert_eq!(sample.unwrap().get(), 256);
}

#[test]
fn read_cycle_stays_done() {
    let mut cycle = ReadCycle::new(GainMode::A128);
    for _ in 0..124 {
        assert!(!cycle.is_done());
        cycle.advance(true);
    }
    assert!(cycle.is_done());
    assert_eq!(cycle.next_op(), None);
    let before = cycle.sample().unwrap().get();
    assert_eq!(before, -1);
    cycle.advance(false);
    cycle.advance(false);
    assert!(cycle.is_done());
    assert_eq!(cycle.sample().unwrap().get(), before);
}

#[test]
fn read_cycle_ignores_levels_outside_sample_operations() {
    let mut cycle = ReadCycle::new(GainMode::B32);
    while let Some(op) = cycle.next_op() {
        cycle.advance(op != LineOp::Sample);
    }
    assert_eq!(cycle.sample().unwrap().get(), 0);
}

#[test]
fn streaming_mean_of_nothing_is_zero() {
    assert_eq!(streaming_mean(&[]).get(), 0);
}

#[test]
fn streaming_mean_of_constant_readings() {
    for k in [0i32, 1, -1, 12345, -54321, HX711_MAXIMUM, HX711_MINIMUM] {
        for n in [1usize, 2, 16, 100] {
            let samples = samples_of(&vec![k; n]);
            assert_eq!(streaming_mean(&samples).get(), k, "{} readings of {}", n, k);
        }
    }
}

#[test]
fn streaming_mean_exact_values() {
    // 0 -> 10 -> 10 + (20 - 10) / 2 = 15 -> 15 + (30 - 15) / 3 = 20
    assert_eq!(streaming_mean(&samples_of(&[10, 20, 30])).get(), 20);
    // 0 -> 1 -> 1 + (2 - 1) / 2 = 1 -> 1 + (2 - 1) / 3 = 1
    assert_eq!(streaming_mean(&samples_of(&[1, 2, 2])).get(), 1);
    // 0 -> -7 -> -7 + (0 + 7) / 2 = -4 -> -4 + (-10 + 4) / 3 = -6
    assert_eq!(streaming_mean(&samples_of(&[-7, 0, -10])).get(), -6);
    // rounding is toward zero in both directions
    assert_eq!(streaming_mean(&samples_of(&[0, -1])).get(), 0);
    assert_eq!(streaming_mean(&samples_of(&[0, 1])).get(), 0);
    assert_eq!(streaming_mean(&samples_of(&[HX711_MAXIMUM, HX711_MINIMUM])).get(), 0);
    assert_eq!(streaming_mean(&samples_of(&[HX711_MINIMUM, HX711_MAXIMUM])).get(), -1);
}

#[test]
fn streaming_mean_stays_between_the_extremes() {
    let mut x: u32 = 99;
    let mut values = Vec::new();
    for _ in 0..500 {
        x = x.wrapping_mul(1664525).wrapping_add(1013904223);
        values.push(((x >> 8) as i32) - (1 << 23));
        let mean = streaming_mean(&samples_of(&values)).get();
        assert!(*values.iter().min().unwrap() <= mean);
        assert!(mean <= *values.iter().max().unwrap());
    }
}

#[test]
fn valid_calibration_factors() {
    assert!(Hx711::is_valid_calibration_factor(bits_of(0.066)));
    assert!(Hx711::is_valid_calibration_factor(bits_of(-2.5)));
    assert!(Hx711::is_valid_calibration_factor(bits_of(f32::MIN_POSITIVE / 2.0)));
    assert!(!Hx711::is_valid_calibration_factor(bits_of(0.0)));
    assert!(!Hx711::is_valid_calibration_factor(bits_of(-0.0)));
    assert!(!Hx711::is_valid_calibration_factor(bits_of(f32::NAN)));
    assert!(!Hx711::is_valid_calibration_factor(bits_of(f32::INFINITY)));
    assert!(!Hx711::is_valid_calibration_factor(bits_of(f32::NEG_INFINITY)));
}

#[test]
fn decoding_the_calibration_record() {
    assert_eq!(Hx711::decode_calibration_record(None), Err(Hx711Error::FlashError));
    assert_eq!(
        Hx711::decode_calibration_record(Some(1.26f32.to_le_bytes())),
        Ok(bits_of(1.26))
    );
    assert_eq!(
        Hx711::decode_calibration_record(Some([0, 0, 0, 0])),
        Err(Hx711Error::InvalidCalibration)
    );
    // erased flash reads as all ones, which is a NaN
    assert_eq!(
        Hx711::decode_calibration_record(Some([0xFF, 0xFF, 0xFF, 0xFF])),
        Err(Hx711Error::InvalidCalibration)
    );
    assert_eq!(
        Hx711::decode_calibration_record(Some(f32::INFINITY.to_le_bytes())),
        Err(Hx711Error::InvalidCalibration)
    );
}

#[test]
fn loading_the_calibration_factor() {
    assert_eq!(Hx711::get_calibration_factor(None), Err(Hx711Error::FlashError));
    assert_eq!(Hx711::get_calibration_factor(Some(0.5f32.to_le_bytes())), Ok(bits_of(0.5)));
    assert_eq!(
        Hx711::get_calibration_factor(Some([0xFF, 0xFF, 0xFF, 0xFF])),
        Ok(bits_of(0.066))
    );
    assert_eq!(Hx711::get_calibration_factor(Some([0, 0, 0, 0])), Ok(bits_of(0.066)));
}

#[test]
fn the_calibration_record_is_little_endian() {
    assert_eq!(Hx711::calibration_record(bits_of(0.066)), Ok(0.066f32.to_le_bytes()));
    assert_eq!(Hx711::calibration_record(bits_of(0.066)), Ok([0x02, 0x2B, 0x87, 0x3D]));
    assert_eq!(Hx711::calibration_record(bits_of(0.0)), Err(Hx711Error::InvalidCalibration));
    assert_eq!(Hx711::calibration_record(bits_of(f32::NAN)), Err(Hx711Error::InvalidCalibration));
}

#[test]
fn record_round_trip() {
    for v in [0.066f32, 0.1, -3.75, 1.0e-20, 1.0e20] {
        let record = Hx711::calibration_record(bits_of(v)).unwrap();
        assert_eq!(Hx711::decode_calibration_record(Some(record)), Ok(bits_of(v)));
    }
}

#[test]
fn a_new_driver() {
    let driver = Hx711::new(Some(1.26f32.to_le_bytes()));
    assert_eq!(driver.gain_mode(), GainMode::A64);
    assert_eq!(driver.tare_value(), 0);
    assert_eq!(driver.current_calibration_factor(), bits_of(1.26));

    let driver = Hx711::new(None);
    assert_eq!(driver.current_calibration_factor(), bits_of(0.066));

    let driver = Hx711::new(Some([0xFF; 4]));
    assert_eq!(driver.current_calibration_factor(), bits_of(0.066));
}

#[test]
fn gain_mode_is_kept() {
    let mut driver = Hx711::new(None);
    driver.set_gain_mode(GainMode::B32);
    assert_eq!(driver.gain_mode(), GainMode::B32);
    assert_eq!(driver.current_calibration_factor(), bits_of(0.066));
    let mut cycle = driver.read_raw();
    let mut ops = 0;
    while cycle.next_op().is_some() {
        cycle.advance(false);
        ops += 1;
    }
    assert_eq!(ops, 120 + 2 * 4);
}

#[test]
fn updating_the_calibration_factor() {
    let mut driver = Hx711::new(None);
    assert_eq!(driver.update_calibration_factor(bits_of(0.5), true), Ok(()));
    assert_eq!(driver.current_calibration_factor(), bits_of(0.5));

    assert_eq!(
        driver.update_calibration_factor(bits_of(0.25), false),
        Err(Hx711Error::FlashError)
    );
    assert_eq!(driver.current_calibration_factor(), bits_of(0.5));

    assert_eq!(
        driver.update_calibration_factor(bits_of(0.0), true),
        Err(Hx711Error::InvalidCalibration)
    );
    assert_eq!(driver.current_calibration_factor(), bits_of(0.5));

    assert_eq!(
        driver.update_calibration_factor(bits_of(f32::NAN), false),
        Err(Hx711Error::InvalidCalibration)
    );
    assert_eq!(
        driver.update_calibration_factor(bits_of(f32::INFINITY), true),
        Err(Hx711Error::InvalidCalibration)
    );
    assert_eq!(driver.current_calibration_factor(), bits_of(0.5));
}

#[test]
fn restoring_the_default_calibration() {
    let mut driver = Hx711::new(Some(0.5f32.to_le_bytes()));
    assert_eq!(driver.default_calibration_factor(false), Err(Hx711Error::FlashError));
    assert_eq!(driver.current_calibration_factor(), bits_of(0.5));
    assert_eq!(driver.default_calibration_factor(true), Ok(()));
    assert_eq!(driver.current_calibration_factor(), bits_of(0.066));
}

#[test]
fn tare_with_constant_readings_sets_the_baseline() {
    for k in [0i32, 4242, -4242, HX711_MAXIMUM, HX711_MINIMUM] {
        let mut driver = Hx711::new(None);
        driver.tare(&samples_of(&vec![k; DEFAULT_TARING_SAMPLES]));
        assert_eq!(driver.tare_value(), k);
        assert_eq!(driver.current_calibration_factor(), bits_of(0.066));
        assert_eq!(driver.gain_mode(), GainMode::A64);
    }
}

#[test]
fn tare_is_repeatable() {
    let mut driver = Hx711::new(None);
    let samples = samples_of(&vec![777; 16]);
    driver.tare(&samples);
    driver.tare(&samples);
    assert_eq!(driver.tare_value(), 777);
}

#[test]
fn read_tared_takes_the_baseline_off() {
    let mut driver = Hx711::new(None);
    assert_eq!(driver.read_tared(RawSample::clamped(300)), 300);
    driver.tare(&samples_of(&[100, 100, 100, 100]));
    assert_eq!(driver.read_tared(RawSample::clamped(300)), 200);
    assert_eq!(driver.read_tared(RawSample::clamped(-50)), -150);
    driver.tare(&samples_of(&[HX711_MINIMUM]));
    assert_eq!(driver.read_tared(RawSample::clamped(HX711_MAXIMUM as i64)), 16_777_215);
    driver.tare(&samples_of(&[HX711_MAXIMUM]));
    assert_eq!(driver.read_tared(RawSample::clamped(HX711_MINIMUM as i64)), -16_777_215);
}

#[test]
fn collecting_a_calibration_point() {
    let mut driver = Hx711::new(Some(0.5f32.to_le_bytes()));
    let point = driver.perform_calibration(true, &samples_of(&vec![300; 100]));
    assert_eq!(point.get(), 300);
    assert_eq!(driver.current_calibration_factor(), Binary32::from_bits(ONE_BITS));

    let mut driver = Hx711::new(Some(0.5f32.to_le_bytes()));
    let point = driver.perform_calibration(false, &samples_of(&[10, 20, 30]));
    assert_eq!(point.get(), 20);
    assert_eq!(driver.current_calibration_factor(), bits_of(0.5));
}

#[test]
fn two_point_calibration_round_trip() {
    let (first, second, target_weight) = (100.0f32, 300.0f32, 20.0f32);
    let span = second - first;
    let scale_factor = target_weight / span;
    assert_eq!(scale_factor, 0.1);

    let record =
        Hx711::two_point_calibration_record(bits_of(span), bits_of(target_weight), bits_of(scale_factor));
    assert_eq!(record, Ok(0.1f32.to_le_bytes()));

    let mut driver = Hx711::new(None);
    assert!(driver.apply_two_point_calibration(
        bits_of(span),
        bits_of(target_weight),
        bits_of(scale_factor),
        true
    ));
    assert_eq!(driver.current_calibration_factor(), bits_of(0.1));

    // with the scale tared at the first point, the second point weighs the target
    driver.tare(&samples_of(&[100; 16]));
    let tared = driver.read_tared(RawSample::clamped(300));
    assert_eq!(tared, 200);
    let factor = f32::from_bits(driver.current_calibration_factor().to_bits());
    assert_eq!(tared as f32 * factor, 20.0);
}

#[test]
fn two_point_calibration_rejects_points_too_close() {
    let (first, second) = (100.0f32, 100.0f32 + 1e-7);
    let span = second - first;
    let scale_factor = 20.0f32 / span;
    assert_eq!(
        Hx711::two_point_calibration_record(bits_of(span), bits_of(20.0), bits_of(scale_factor)),
        Err(Hx711Error::InvalidCalibration)
    );
    let mut driver = Hx711::new(None);
    assert!(!driver.apply_two_point_calibration(
        bits_of(span),
        bits_of(20.0),
        bits_of(scale_factor),
        true
    ));
    assert_eq!(driver.current_calibration_factor(), bits_of(0.066));

    // just below the machine epsilon, and exactly at it
    let below = f32::from_bits(f32::EPSILON.to_bits() - 1);
    assert!(!driver.apply_two_point_calibration(bits_of(below), bits_of(20.0), bits_of(20.0 / below), true));
    assert!(!driver.apply_two_point_calibration(bits_of(-below), bits_of(20.0), bits_of(20.0 / -below), true));
    assert!(driver.apply_two_point_calibration(
        bits_of(f32::EPSILON),
        bits_of(20.0),
        bits_of(20.0 / f32::EPSILON),
        true
    ));
    assert_eq!(driver.current_calibration_factor(), bits_of(20.0 / f32::EPSILON));
}

#[test]
fn two_point_calibration_rejects_non_positive_targets() {
    let mut driver = Hx711::new(None);
    for target in [0.0f32, -0.0, -1.0, f32::NEG_INFINITY] {
        let scale_factor = target / 200.0;
        assert_eq!(
            Hx711::two_point_calibration_record(bits_of(200.0), bits_of(target), bits_of(scale_factor)),
            Err(Hx711Error::InvalidCalibration)
        );
        assert!(!driver.apply_two_point_calibration(
            bits_of(200.0),
            bits_of(target),
            bits_of(scale_factor),
            true
        ));
        // even with a scale factor that would be valid by itself
        assert!(!driver.apply_two_point_calibration(bits_of(200.0), bits_of(target), bits_of(0.1), true));
        assert_eq!(driver.current_calibration_factor(), bits_of(0.066));
    }
}

#[test]
fn two_point_calibration_rejects_invalid_scale_factors_and_failed_writes() {
    let mut driver = Hx711::new(None);
    assert!(!driver.apply_two_point_calibration(
        bits_of(200.0),
        bits_of(f32::NAN),
        bits_of(f32::NAN / 200.0),
        true
    ));
    assert!(!driver.apply_two_point_calibration(
        bits_of(f32::NAN),
        bits_of(20.0),
        bits_of(20.0 / f32::NAN),
        true
    ));
    assert!(!driver.apply_two_point_calibration(
        bits_of(200.0),
        bits_of(f32::INFINITY),
        bits_of(f32::INFINITY),
        true
    ));
    assert!(!driver.apply_two_point_calibration(bits_of(200.0), bits_of(20.0), bits_of(0.1), false));
    assert_eq!(driver.current_calibration_factor(), bits_of(0.066));
    assert!(driver.apply_two_point_calibration(bits_of(-200.0), bits_of(20.0), bits_of(-0.1), true));
    assert_eq!(driver.current_calibration_factor(), bits_of(-0.1));
}
