use nativelibs::{f32_bits_to_u32, swap_red_blue};

#[test]
fn truncation_matches_cast() {
    let values: [f32; 20] = [
        0.0, -0.0, 0.5, 0.999, 1.0, 1.5, 100.0, 1920.0, 1080.9, 8388607.5, 8388608.0,
        16777217.0, 4294967040.0, 4294967296.0, 1.0e10, -1.0, -1.0e10, f32::MIN_POSITIVE,
        f32::MAX, 1.0e-40,
    ];
    for v in values {
        assert_eq!(f32_bits_to_u32(v.to_bits()), v as u32, "value {v}");
    }
}

#[test]
fn truncation_exact_values() {
    assert_eq!(f32_bits_to_u32(100.0f32.to_bits()), 100);
    assert_eq!(f32_bits_to_u32(10.7f32.to_bits()), 10);
    assert_eq!(f32_bits_to_u32(0.5f32.to_bits()), 0);
}

#[test]
fn truncation_special_values() {
    assert_eq!(f32_bits_to_u32(f32::NAN.to_bits()), 0);
    assert_eq!(f32_bits_to_u32((-f32::NAN).to_bits()), 0);
    assert_eq!(f32_bits_to_u32(f32::INFINITY.to_bits()), u32::MAX);
    assert_eq!(f32_bits_to_u32(f32::NEG_INFINITY.to_bits()), 0);
}

#[test]
fn swap_exchanges_first_and_third_byte() {
    let src = [1u8, 2, 3, 4, 10, 20, 30, 40];
    assert_eq!(swap_red_blue(&src), vec![3, 2, 1, 4, 30, 20, 10, 40]);
}

#[test]
fn swap_of_empty_is_empty() {
    assert!(swap_red_blue(&[]).is_empty());
}

#[test]
fn swap_twice_restores() {
    let src: Vec<u8> = (0..64u8).collect();
    assert_eq!(swap_red_blue(&swap_red_blue(&src)), src);
}
