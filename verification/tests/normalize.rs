use arrow::datatypes::ArrowPrimitiveType;
use arrow::datatypes::Float16Type;
use arrow::datatypes::Float32Type;
use arrow::datatypes::Float64Type;
use nan2null::is_nan;
use nan2null::nan2none;
use nan2null::opt2none;
use nan2null::FloatType;

#[test]
fn is_nan_32_on_named_patterns() {
    assert!(!is_nan::<Float32Type>(0x0000_0000));
    assert!(!is_nan::<Float32Type>(0x8000_0000));
    assert!(!is_nan::<Float32Type>(0x7f80_0000));
    assert!(!is_nan::<Float32Type>(0xff80_0000));
    assert!(!is_nan::<Float32Type>(0x0000_0001));
    assert!(!is_nan::<Float32Type>(0x007f_ffff));
    assert!(!is_nan::<Float32Type>(0x7f7f_ffff));
    assert!(!is_nan::<Float32Type>(1.0f32.to_bits()));
    assert!(is_nan::<Float32Type>(0x7f80_0001));
    assert!(is_nan::<Float32Type>(0xff80_0001));
    assert!(is_nan::<Float32Type>(0x7fc0_0000));
    assert!(is_nan::<Float32Type>(0xffc0_0000));
    assert!(is_nan::<Float32Type>(0xffff_ffff));
    assert!(is_nan::<Float32Type>(f32::NAN.to_bits()));
}

#[test]
fn is_nan_64_on_named_patterns() {
    assert!(!is_nan::<Float64Type>(0));
    assert!(!is_nan::<Float64Type>(0x8000_0000_0000_0000));
    assert!(!is_nan::<Float64Type>(0x7ff0_0000_0000_0000));
    assert!(!is_nan::<Float64Type>(0xfff0_0000_0000_0000));
    assert!(!is_nan::<Float64Type>(0x0000_0000_0000_0001));
    assert!(!is_nan::<Float64Type>(0x7fef_ffff_ffff_ffff));
    assert!(!is_nan::<Float64Type>(f64::MIN_POSITIVE.to_bits()));
    assert!(is_nan::<Float64Type>(0x7ff0_0000_0000_0001));
    assert!(is_nan::<Float64Type>(0xfff0_0000_0000_0001));
    assert!(is_nan::<Float64Type>(0x7ff8_0000_0000_0000));
    assert!(is_nan::<Float64Type>(0xffff_ffff_ffff_ffff));
    assert!(is_nan::<Float64Type>(f64::NAN.to_bits()));
}

#[test]
fn is_nan_16_on_named_patterns() {
    assert!(!is_nan::<Float16Type>(0x0000));
    assert!(!is_nan::<Float16Type>(0x8000));
    assert!(!is_nan::<Float16Type>(0x7c00));
    assert!(!is_nan::<Float16Type>(0xfc00));
    assert!(!is_nan::<Float16Type>(0x0001));
    assert!(!is_nan::<Float16Type>(0x7bff));
    assert!(is_nan::<Float16Type>(0x7c01));
    assert!(is_nan::<Float16Type>(0xfc01));
    assert!(is_nan::<Float16Type>(0x7e00));
    assert!(is_nan::<Float16Type>(0xffff));
}

#[test]
fn is_nan_16_agrees_with_the_float_on_every_pattern() {
    for bits in 0..=u16::MAX {
        let float = <Float16Type as ArrowPrimitiveType>::Native::from_bits(bits);
        assert_eq!(is_nan::<Float16Type>(bits), float.is_nan(), "{:#06x}", bits);
    }
}

#[test]
fn is_nan_32_agrees_with_the_float_on_a_sweep() {
    let mut bits: u32 = 0;
    loop {
        assert_eq!(is_nan::<Float32Type>(bits), f32::from_bits(bits).is_nan(), "{:#010x}", bits);
        match bits.checked_add(32_749) {
            Some(next) => bits = next,
            None => break,
        }
    }
    for exp_edge in [0x7f7f_fff0u32, 0xff7f_fff0] {
        for bits in exp_edge..exp_edge + 0x20 {
            assert_eq!(is_nan::<Float32Type>(bits), f32::from_bits(bits).is_nan());
        }
    }
}

#[test]
fn is_nan_64_agrees_with_the_float_on_a_sweep() {
    let mut bits: u64 = 0;
    loop {
        assert_eq!(is_nan::<Float64Type>(bits), f64::from_bits(bits).is_nan(), "{:#018x}", bits);
        match bits.checked_add(0x0000_1fff_ffff_fff1) {
            Some(next) => bits = next,
            None => break,
        }
    }
    for exp_edge in [0x7fef_ffff_ffff_fff0u64, 0xffef_ffff_ffff_fff0] {
        for bits in exp_edge..exp_edge + 0x20 {
            assert_eq!(is_nan::<Float64Type>(bits), f64::from_bits(bits).is_nan());
        }
    }
}

#[test]
fn the_trait_and_the_free_function_agree() {
    for bits in [0u32, 0x7f80_0000, 0x7f80_0001, 0xffc0_0000, 0x3f80_0000] {
        assert_eq!(<Float32Type as FloatType>::is_nan(bits), is_nan::<Float32Type>(bits));
    }
}

#[test]
fn nan2none_keeps_what_is_no_nan() {
    assert_eq!(nan2none::<Float32Type>(1.0f32.to_bits()), Some(0x3f80_0000));
    assert_eq!(nan2none::<Float32Type>(0x8000_0000), Some(0x8000_0000));
    assert_eq!(nan2none::<Float32Type>(f32::INFINITY.to_bits()), Some(0x7f80_0000));
    assert_eq!(nan2none::<Float32Type>(f32::NEG_INFINITY.to_bits()), Some(0xff80_0000));
    assert_eq!(nan2none::<Float32Type>(1), Some(1));
    assert_eq!(nan2none::<Float64Type>(2.5f64.to_bits()), Some(0x4004_0000_0000_0000));
    assert_eq!(nan2none::<Float64Type>(f64::INFINITY.to_bits()), Some(0x7ff0_0000_0000_0000));
    assert_eq!(nan2none::<Float16Type>(0x3c00), Some(0x3c00));
    assert_eq!(nan2none::<Float16Type>(0xfc00), Some(0xfc00));
}

#[test]
fn nan2none_drops_nan() {
    assert_eq!(nan2none::<Float32Type>(f32::NAN.to_bits()), None);
    assert_eq!(nan2none::<Float32Type>(0xffc0_1234), None);
    assert_eq!(nan2none::<Float64Type>(f64::NAN.to_bits()), None);
    assert_eq!(nan2none::<Float64Type>(0xfff0_0000_0000_0001), None);
    assert_eq!(nan2none::<Float16Type>(0x7e00), None);
    assert_eq!(nan2none::<Float16Type>(0xfc01), None);
}

#[test]
fn opt2none_keeps_absent_absent() {
    assert_eq!(opt2none::<Float16Type>(None), None);
    assert_eq!(opt2none::<Float32Type>(None), None);
    assert_eq!(opt2none::<Float64Type>(None), None);
}

#[test]
fn opt2none_drops_nan_and_keeps_the_rest() {
    assert_eq!(opt2none::<Float32Type>(Some(f32::NAN.to_bits())), None);
    assert_eq!(opt2none::<Float32Type>(Some(3.5f32.to_bits())), Some(0x4060_0000));
    assert_eq!(opt2none::<Float64Type>(Some(f64::NAN.to_bits())), None);
    assert_eq!(opt2none::<Float64Type>(Some(0xfff0_0000_0000_0000)), Some(0xfff0_0000_0000_0000));
    assert_eq!(opt2none::<Float16Type>(Some(0x7c01)), None);
    assert_eq!(opt2none::<Float16Type>(Some(0x7c00)), Some(0x7c00));
}

#[test]
fn normalizing_twice_is_normalizing_once() {
    for bits in [0u32, 0x8000_0000, 0x3f80_0000, 0x7f80_0000, 0x7f80_0001, 0xffc0_0000] {
        let once = nan2none::<Float32Type>(bits);
        assert_eq!(opt2none::<Float32Type>(once), once);
        let once = opt2none::<Float32Type>(Some(bits));
        assert_eq!(opt2none::<Float32Type>(once), once);
    }
    assert_eq!(opt2none::<Float32Type>(opt2none::<Float32Type>(None)), None);
    for bits in [0u64, 0x7ff0_0000_0000_0000, 0x7ff8_0000_0000_0000, 0x4004_0000_0000_0000] {
        let once = opt2none::<Float64Type>(Some(bits));
        assert_eq!(opt2none::<Float64Type>(once), once);
    }
}

#[test]
fn the_sign_has_no_part_in_nan() {
    for bits in [0x7f80_0001u32, 0x7fc0_0000, 0x7f80_0000, 0x0000_0000, 0x3f80_0000, 0x7fff_ffff] {
        assert_eq!(is_nan::<Float32Type>(bits), is_nan::<Float32Type>(bits ^ 0x8000_0000));
    }
    for bits in [0x7c01u16, 0x7c00, 0x0000, 0x7fff] {
        assert_eq!(is_nan::<Float16Type>(bits), is_nan::<Float16Type>(bits ^ 0x8000));
    }
    for bits in [0x7ff0_0000_0000_0001u64, 0x7ff0_0000_0000_0000, 0] {
        assert_eq!(
            is_nan::<Float64Type>(bits),
            is_nan::<Float64Type>(bits ^ 0x8000_0000_0000_0000)
        );
    }
}
