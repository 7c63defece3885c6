//! The per-target cast tests: for every mode and a spread of operand
//! values, the cast's result and its exact constraint-system cost.

use lossy_cast::cast::{
    cast_lossy_to_address, cast_lossy_to_boolean, cast_lossy_to_field, cast_lossy_to_group,
    cast_lossy_to_integer, cast_lossy_to_scalar,
};
use lossy_cast::constraint_system::ConstraintSystem;
use lossy_cast::mode::Mode;
use lossy_cast::values::Scalar;
use lossy_cast::{FIELD_BITS, SCALAR_BITS};

const MODES: [Mode; 3] = [Mode::Constant, Mode::Public, Mode::Private];

const SAMPLES: [u128; 6] = [0, 1, 2, 0xff, 0xdead_beef_cafe_f00d, u128::MAX];

/// The counts a decompose-based cast must leave behind, by operand mode.
fn check_decompose_cost(cs: &ConstraintSystem, mode: Mode) {
    match mode {
        Mode::Constant => {
            assert_eq!(cs.constants, 251);
            assert_eq!(cs.public, 0);
            assert_eq!(cs.private, 0);
            assert_eq!(cs.constraints, 0);
        }
        _ => {
            assert_eq!(cs.constants, 0);
            assert_eq!(cs.public, 0);
            assert_eq!(cs.private, 251);
            assert_eq!(cs.constraints, 253);
        }
    }
}

/// A reinterpret or identity cast appends nothing in this layer.
fn check_zero_cost(cs: &ConstraintSystem) {
    assert_eq!(cs.constants, 0);
    assert_eq!(cs.public, 0);
    assert_eq!(cs.private, 0);
    assert_eq!(cs.constraints, 0);
}

fn check_integer_cast(width: usize, signed: bool) {
    for &mode in &MODES {
        for &v in &SAMPLES {
            let mut cs = ConstraintSystem::new();
            let s = Scalar::from_u128(v, mode);
            let r = cast_lossy_to_integer(&s, width, signed, &mut cs);
            let expected = if width == 128 { v } else { v % (1u128 << width) };
            assert_eq!(r.to_u128(), expected);
            assert_eq!(r.signed, signed);
            assert_eq!(r.bits_le.len(), width);
            if signed {
                let expected_signed: i128 = if width == 128 {
                    expected as i128
                } else if expected >= 1u128 << (width - 1) {
                    expected as i128 - (1i128 << width)
                } else {
                    expected as i128
                };
                assert_eq!(r.to_i128(), expected_signed);
            }
            match mode {
                Mode::Constant => assert_eq!(r.mode, Mode::Constant),
                _ => assert_eq!(r.mode, Mode::Private),
            }
            check_decompose_cost(&cs, mode);
        }
    }
}

#[test]
fn test_scalar_to_address() {
    for &mode in &MODES {
        for &v in &SAMPLES {
            let mut cs = ConstraintSystem::new();
            let s = Scalar::from_u128(v, mode);
            let r = cast_lossy_to_address(&s, &mut cs);
            assert_eq!(r.scalar_bits_le, s.bits_le);
            assert_eq!(r.mode, mode);
            check_zero_cost(&cs);
        }
    }
}

#[test]
fn test_scalar_to_boolean() {
    for &mode in &MODES {
        for &v in &SAMPLES {
            let mut cs = ConstraintSystem::new();
            let s = Scalar::from_u128(v, mode);
            let r = cast_lossy_to_boolean(&s, &mut cs);
            // The top bit of the canonical 251-bit form; any 128-bit value
            // leaves it clear.
            assert!(!r.value);
            match mode {
                Mode::Constant => assert_eq!(r.mode, Mode::Constant),
                _ => assert_eq!(r.mode, Mode::Private),
            }
            check_decompose_cost(&cs, mode);
        }
    }
}

#[test]
fn test_scalar_to_field() {
    for &mode in &MODES {
        for &v in &SAMPLES {
            let mut cs = ConstraintSystem::new();
            let s = Scalar::from_u128(v, mode);
            let r = cast_lossy_to_field(&s, &mut cs);
            assert_eq!(r.bits_le.len(), FIELD_BITS);
            assert_eq!(&r.bits_le[..SCALAR_BITS], &s.bits_le[..]);
            assert!(!r.bits_le[FIELD_BITS - 2]);
            assert!(!r.bits_le[FIELD_BITS - 1]);
            assert_eq!(r.mode, mode);
            check_zero_cost(&cs);
        }
    }
}

#[test]
fn test_scalar_to_group() {
    for &mode in &MODES {
        for &v in &SAMPLES {
            let mut cs = ConstraintSystem::new();
            let s = Scalar::from_u128(v, mode);
            let r = cast_lossy_to_group(&s, &mut cs);
            assert_eq!(r.scalar_bits_le, s.bits_le);
            assert_eq!(r.mode, mode);
            check_zero_cost(&cs);
        }
    }
}

#[test]
fn test_scalar_to_i8() {
    check_integer_cast(8, true);
}

#[test]
fn test_scalar_to_i16() {
    check_integer_cast(16, true);
}

#[test]
fn test_scalar_to_i32() {
    check_integer_cast(32, true);
}

#[test]
fn test_scalar_to_i64() {
    check_integer_cast(64, true);
}

#[test]
fn test_scalar_to_i128() {
    check_integer_cast(128, true);
}

#[test]
fn test_scalar_to_scalar() {
    for &mode in &MODES {
        for &v in &SAMPLES {
            let mut cs = ConstraintSystem::new();
            let s = Scalar::from_u128(v, mode);
            let r = cast_lossy_to_scalar(&s, &mut cs);
            assert_eq!(r.bits_le, s.bits_le);
            assert_eq!(r.mode, mode);
            check_zero_cost(&cs);
        }
    }
}

#[test]
fn test_scalar_to_u8() {
    check_integer_cast(8, false);
}

#[test]
fn test_scalar_to_u16() {
    check_integer_cast(16, false);
}

#[test]
fn test_scalar_to_u32() {
    check_integer_cast(32, false);
}

#[test]
fn test_scalar_to_u64() {
    check_integer_cast(64, false);
}

#[test]
fn test_scalar_to_u128() {
    check_integer_cast(128, false);
}
