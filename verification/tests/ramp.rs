use ascii::Ramp;

fn float_index(sample: u8, glyphs: usize) -> usize {
    let ratio = (sample as f32 / 255.0).clamp(0.0, 1.0);
    let idx = (ratio * ((glyphs - 1) as f32)).round() as usize;
    if idx >= glyphs {
        glyphs - 1
    } else {
        idx
    }
}

#[test]
fn canonical_ramp_has_ten_glyphs() {
    let ramp = Ramp::canonical();
    assert_eq!(ramp.len(), 10);
    let glyphs: String = [0u8, 28, 57, 85, 113, 142, 170, 198, 227, 255]
        .iter()
        .map(|&s| ramp.glyph(s))
        .collect();
    assert_eq!(glyphs, "@%#*+=-:. ");
}

#[test]
fn black_takes_the_first_glyph_and_white_the_last() {
    let ramp = Ramp::canonical();
    assert_eq!(ramp.index_of(0), 0);
    assert_eq!(ramp.index_of(255), 9);
    assert_eq!(ramp.glyph(0), '@');
    assert_eq!(ramp.glyph(255), ' ');
}

#[test]
fn index_is_the_rounded_scaled_sample() {
    let ramp = Ramp::canonical();
    // 14 * 9 / 255 = 0.494, 15 * 9 / 255 = 0.529
    assert_eq!(ramp.index_of(14), 0);
    assert_eq!(ramp.index_of(15), 1);
    // 64 * 9 / 255 = 2.259, 128 * 9 / 255 = 4.518
    assert_eq!(ramp.index_of(64), 2);
    assert_eq!(ramp.index_of(128), 5);
    // 240 * 9 / 255 = 8.47, 241 * 9 / 255 = 8.506
    assert_eq!(ramp.index_of(240), 8);
    assert_eq!(ramp.index_of(241), 9);
    assert_eq!(ramp.glyph(128), '=');
    assert_eq!(ramp.glyph(64), '#');
}

#[test]
fn index_agrees_with_floating_point_rounding() {
    let ramp = Ramp::canonical();
    for sample in 0..=255u8 {
        assert_eq!(ramp.index_of(sample), float_index(sample, 10), "sample {}", sample);
    }
}

#[test]
fn index_agrees_with_floating_point_rounding_on_other_ramps() {
    for glyphs in 2..=70usize {
        let ramp = Ramp::new(vec!['x'; glyphs]).unwrap();
        for sample in 0..=255u8 {
            assert_eq!(
                ramp.index_of(sample),
                float_index(sample, glyphs),
                "sample {} of {}",
                sample,
                glyphs
            );
        }
    }
}

#[test]
fn index_never_decreases_with_brightness() {
    let ramp = Ramp::canonical();
    for darker in 0..=255u8 {
        for brighter in darker..=255u8 {
            assert!(ramp.index_of(darker) <= ramp.index_of(brighter));
        }
    }
}

#[test]
fn index_stays_on_the_ramp() {
    let ramp = Ramp::new(vec!['#', '+', ' ']).unwrap();
    for sample in 0..=255u8 {
        assert!(ramp.index_of(sample) < 3);
        assert!("#+ ".contains(ramp.glyph(sample)));
    }
}

#[test]
fn ramp_needs_two_glyphs() {
    assert!(Ramp::new(vec![]).is_none());
    assert!(Ramp::new(vec!['#']).is_none());
    assert!(Ramp::new(vec!['#', ' ']).is_some());
}

#[test]
fn two_glyph_ramp_splits_the_scale_in_the_middle() {
    let ramp = Ramp::new(vec!['#', ' ']).unwrap();
    assert_eq!(ramp.len(), 2);
    assert_eq!(ramp.index_of(0), 0);
    assert_eq!(ramp.index_of(127), 0);
    assert_eq!(ramp.index_of(128), 1);
    assert_eq!(ramp.index_of(255), 1);
    assert_eq!(ramp.glyph(127), '#');
    assert_eq!(ramp.glyph(128), ' ');
}

#[test]
fn very_long_ramp_keeps_its_ends() {
    let ramp = Ramp::new(vec!['x'; 100_000]).unwrap();
    assert_eq!(ramp.index_of(0), 0);
    assert_eq!(ramp.index_of(255), 99_999);
    // 1 * 99_999 / 255 = 392.15
    assert_eq!(ramp.index_of(1), 392);
}
