use dictation::samples::{normalize_i16, normalize_u16, Ratio, I16_SCALE, U16_SCALE};

fn level(r: Ratio) -> f32 {
    r.num as f32 / r.den as f32
}

#[test]
fn signed_samples_are_divided_by_the_largest() {
    assert_eq!(normalize_i16(0), Ratio { num: 0, den: 32767 });
    assert_eq!(normalize_i16(i16::MAX), Ratio { num: 32767, den: 32767 });
    assert_eq!(normalize_i16(i16::MIN), Ratio { num: -32768, den: 32767 });
    assert_eq!(normalize_i16(-1), Ratio { num: -1, den: 32767 });
    assert_eq!(normalize_i16(16384), Ratio { num: 16384, den: 32767 });
    assert_eq!(I16_SCALE, 32767);
}

#[test]
fn unsigned_samples_are_centred_on_the_midpoint() {
    assert_eq!(normalize_u16(0), Ratio { num: -65535, den: 65535 });
    assert_eq!(normalize_u16(u16::MAX), Ratio { num: 65535, den: 65535 });
    assert_eq!(normalize_u16(32767), Ratio { num: -1, den: 65535 });
    assert_eq!(normalize_u16(32768), Ratio { num: 1, den: 65535 });
    assert_eq!(normalize_u16(1), Ratio { num: -65533, den: 65535 });
    assert_eq!(U16_SCALE, 65535);
}

#[test]
fn full_scale_maps_to_plus_and_minus_one() {
    assert_eq!(level(normalize_i16(i16::MAX)), 1.0);
    assert!((level(normalize_i16(i16::MIN)) + 1.0).abs() < 1.0e-4);
    assert_eq!(level(normalize_u16(u16::MAX)), 1.0);
    assert_eq!(level(normalize_u16(u16::MIN)), -1.0);
    assert_eq!(level(normalize_i16(0)), 0.0);
}

#[test]
fn signed_levels_equal_the_floating_point_formula() {
    for x in i16::MIN..=i16::MAX {
        let expected = x as f32 / i16::MAX as f32;
        assert_eq!(level(normalize_i16(x)).to_bits(), expected.to_bits());
    }
}

#[test]
fn unsigned_levels_equal_the_floating_point_formula() {
    for x in u16::MIN..=u16::MAX {
        let expected = (x as f32 - u16::MAX as f32 / 2.0) / (u16::MAX as f32 / 2.0);
        assert_eq!(level(normalize_u16(x)).to_bits(), expected.to_bits());
    }
}

#[test]
fn levels_stay_in_range_and_ascend() {
    let mut last = f32::NEG_INFINITY;
    for x in i16::MIN..=i16::MAX {
        let l = level(normalize_i16(x));
        assert!(l >= -1.0001 && l <= 1.0);
        assert!(l >= last);
        last = l;
    }
    let mut last = f32::NEG_INFINITY;
    for x in u16::MIN..=u16::MAX {
        let l = level(normalize_u16(x));
        assert!(l >= -1.0 && l <= 1.0);
        assert!(l >= last);
        last = l;
    }
}
