use ellipsoid_mesh::options::EllipsoidOptions;
use ellipsoid_mesh::shape::{is_positive_length, EllipsoidShape, POSITIVE_INFINITY_BITS};

#[test]
fn positive_lengths_are_accepted() {
    for x in [1.0f32, 0.5, 2.0, 1.0e-30, 3.4e38, f32::MIN_POSITIVE, f32::MAX, f32::EPSILON] {
        assert!(is_positive_length(x.to_bits()), "{x}");
    }
}

#[test]
fn smallest_subnormal_is_positive() {
    assert!(is_positive_length(1));
    assert!(f32::from_bits(1) > 0.0);
}

#[test]
fn positive_infinity_is_positive() {
    assert_eq!(f32::INFINITY.to_bits(), POSITIVE_INFINITY_BITS);
    assert!(is_positive_length(f32::INFINITY.to_bits()));
}

#[test]
fn zero_of_either_sign_is_not_positive() {
    assert!(!is_positive_length(0.0f32.to_bits()));
    assert!(!is_positive_length((-0.0f32).to_bits()));
}

#[test]
fn negative_lengths_are_not_positive() {
    for x in [-1.0f32, -0.5, -1.0e-30, f32::MIN, f32::NEG_INFINITY, -f32::MIN_POSITIVE] {
        assert!(!is_positive_length(x.to_bits()), "{x}");
    }
}

#[test]
fn nan_is_not_positive() {
    assert!(!is_positive_length(f32::NAN.to_bits()));
    assert!(!is_positive_length(0x7f80_0001));
    assert!(!is_positive_length(0x7fff_ffff));
    assert!(!is_positive_length(0xffc0_0000));
}

#[test]
fn positivity_agrees_with_the_comparison_on_numbers() {
    let mut bits: u32 = 0;
    loop {
        assert_eq!(is_positive_length(bits), f32::from_bits(bits) > 0.0, "{bits:#x}");
        for near in [bits.wrapping_sub(1), bits.wrapping_add(1)] {
            assert_eq!(is_positive_length(near), f32::from_bits(near) > 0.0, "{near:#x}");
        }
        match bits.checked_add(0x0001_0000) {
            Some(next) => bits = next,
            None => break,
        }
    }
}

#[test]
fn shape_is_valid_when_every_axis_is_positive() {
    let bits = |x: f32| x.to_bits();
    assert!(EllipsoidShape::from_bits(bits(2.0), bits(1.0), bits(0.5)).validate());
    assert!(!EllipsoidShape::from_bits(bits(0.0), bits(1.0), bits(1.0)).validate());
    assert!(!EllipsoidShape::from_bits(bits(1.0), bits(-1.0), bits(1.0)).validate());
    assert!(!EllipsoidShape::from_bits(bits(1.0), bits(1.0), bits(f32::NAN)).validate());
    let shape = EllipsoidShape::from_bits(bits(2.0), bits(1.0), bits(0.5));
    assert_eq!(f32::from_bits(shape.a), 2.0);
    assert_eq!(f32::from_bits(shape.b), 1.0);
    assert_eq!(f32::from_bits(shape.c), 0.5);
}

#[test]
fn resolution_is_valid_when_both_parts_are_positive() {
    assert!(EllipsoidOptions::new(1, 1).validate());
    assert!(EllipsoidOptions::new(32, 16).validate());
    assert!(!EllipsoidOptions::new(0, 1).validate());
    assert!(!EllipsoidOptions::new(1, 0).validate());
    assert!(!EllipsoidOptions::new(0, 0).validate());
}

#[test]
fn default_resolution_is_32_by_16() {
    let options = EllipsoidOptions::default();
    assert_eq!(options.sectors, 32);
    assert_eq!(options.stacks, 16);
}

#[test]
fn addressable_means_the_vertex_count_fits_32_bits() {
    assert!(EllipsoidOptions::new(32, 16).addressable());
    assert!(EllipsoidOptions::new(0, 0).addressable());
    // 65536 * 65535 = 4294901760 <= 4294967295
    assert!(EllipsoidOptions::new(65535, 65534).addressable());
    // 65536 * 65536 = 4294967296 > 4294967295
    assert!(!EllipsoidOptions::new(65535, 65535).addressable());
    // 1 * 4294967295
    assert!(EllipsoidOptions::new(0, 4294967294).addressable());
    assert!(!EllipsoidOptions::new(0, 4294967295).addressable());
    assert!(!EllipsoidOptions::new(usize::MAX, 1).addressable());
    assert!(!EllipsoidOptions::new(1, usize::MAX).addressable());
    assert!(!EllipsoidOptions::new(usize::MAX, usize::MAX).addressable());
}
