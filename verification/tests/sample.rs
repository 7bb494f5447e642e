use matrix_visualizer::sample::sample_to_byte;

/// The gray level as single-precision arithmetic computes it.
fn by_arithmetic(e: f32) -> u8 {
    (if e < 0.0 {
        0.0
    } else if e > 1.0 {
        1.0
    } else {
        e
    } * 255.0) as u8
}

#[test]
fn zero_is_black() {
    assert_eq!(sample_to_byte(0.0f32.to_bits()), 0);
    assert_eq!(sample_to_byte((-0.0f32).to_bits()), 0);
}

#[test]
fn negative_samples_are_black() {
    assert_eq!(sample_to_byte((-0.25f32).to_bits()), 0);
    assert_eq!(sample_to_byte((-1.0f32).to_bits()), 0);
    assert_eq!(sample_to_byte(f32::MIN.to_bits()), 0);
    assert_eq!(sample_to_byte(f32::NEG_INFINITY.to_bits()), 0);
}

#[test]
fn one_and_more_is_white() {
    assert_eq!(sample_to_byte(1.0f32.to_bits()), 255);
    assert_eq!(sample_to_byte(1.5f32.to_bits()), 255);
    assert_eq!(sample_to_byte(f32::MAX.to_bits()), 255);
    assert_eq!(sample_to_byte(f32::INFINITY.to_bits()), 255);
}

#[test]
fn a_half_is_cut_down_to_127() {
    assert_eq!(sample_to_byte(0.5f32.to_bits()), 127);
}

#[test]
fn what_is_no_number_is_black() {
    assert_eq!(sample_to_byte(f32::NAN.to_bits()), 0);
    assert_eq!(sample_to_byte((-f32::NAN).to_bits()), 0);
    assert_eq!(sample_to_byte(0x7f80_0001), 0);
    assert_eq!(sample_to_byte(0xffff_ffff), 0);
}

#[test]
fn the_largest_fraction_is_not_white() {
    // The number just below one.
    assert_eq!(sample_to_byte(0x3f7f_ffff), 254);
}

#[test]
fn tiny_samples_are_black() {
    assert_eq!(sample_to_byte(1), 0);
    assert_eq!(sample_to_byte(f32::MIN_POSITIVE.to_bits()), 0);
    assert_eq!(sample_to_byte(0.003f32.to_bits()), 0);
}

#[test]
fn levels_are_exact_at_their_thresholds() {
    // 1/255 is not a binary number; its nearest neighbours decide.
    assert_eq!(sample_to_byte((1.0f32 / 255.0).to_bits()), by_arithmetic(1.0 / 255.0));
    assert_eq!(sample_to_byte(0.25f32.to_bits()), 63);
    assert_eq!(sample_to_byte(0.75f32.to_bits()), 191);
    assert_eq!(sample_to_byte(0.004f32.to_bits()), 1);
}

#[test]
fn agrees_with_arithmetic_on_every_level_boundary() {
    for level in 0u32..=255 {
        let near = (level as f32 / 255.0).to_bits();
        for bits in near.saturating_sub(64)..=near + 64 {
            assert_eq!(sample_to_byte(bits), by_arithmetic(f32::from_bits(bits)), "bits {bits:#x}");
        }
    }
}

#[test]
fn agrees_with_arithmetic_across_the_patterns() {
    let mut bits: u32 = 0;
    loop {
        assert_eq!(sample_to_byte(bits), by_arithmetic(f32::from_bits(bits)), "bits {bits:#x}");
        match bits.checked_add(104_729) {
            Some(next) => bits = next,
            None => break,
        }
    }
}

#[test]
fn agrees_with_arithmetic_between_an_eighth_of_a_level_and_one() {
    // Every 61st pattern from 2^-11 up to one.
    let mut bits: u32 = 0x3a00_0000;
    while bits <= 0x3f80_0000 {
        assert_eq!(sample_to_byte(bits), by_arithmetic(f32::from_bits(bits)), "bits {bits:#x}");
        bits += 61;
    }
}
