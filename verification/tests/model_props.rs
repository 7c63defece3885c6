//! The documented scenarios, the gadget-level laws on concrete values,
//! and the dispatch table.

use lossy_cast::cast::{
    cast_lossy_to_boolean, cast_lossy_to_integer, cast_lossy_to_scalar, scalar_strategy, Strategy,
    TypeTag,
};
use lossy_cast::constraint_system::ConstraintSystem;
use lossy_cast::gadgets::{decompose, recompose};
use lossy_cast::mode::Mode;
use lossy_cast::values::{integer_width_ok, Scalar};
use lossy_cast::SCALAR_BITS;

const MODES: [Mode; 3] = [Mode::Constant, Mode::Public, Mode::Private];

/// A full-width bit pattern with its most significant bit set.
fn bits_with_top_set() -> Vec<bool> {
    let mut bits = Vec::new();
    for i in 0..SCALAR_BITS {
        bits.push(i % 3 == 0 || i == SCALAR_BITS - 1);
    }
    bits
}

/// Casting the additive identity to an 8-bit unsigned integer gives zero
/// in every mode.
#[test]
fn test_zero_to_u8_every_mode() {
    for &mode in &MODES {
        let mut cs = ConstraintSystem::new();
        let s = Scalar::from_u128(0, mode);
        let r = cast_lossy_to_integer(&s, 8, false, &mut cs);
        assert_eq!(r.to_u128(), 0);
    }
}

/// Casting the multiplicative identity to a boolean gives false in every
/// mode: its top bit is clear, and the cast reads the top bit, not a
/// nonzero test.
#[test]
fn test_one_to_boolean_every_mode() {
    for &mode in &MODES {
        let mut cs = ConstraintSystem::new();
        let s = Scalar::from_u128(1, mode);
        let r = cast_lossy_to_boolean(&s, &mut cs);
        assert!(!r.value);
    }
}

/// A fixed nonzero private scalar cast to a 16-bit integer matches its
/// low 16 bits recomputed independently from the binary expansion, and
/// the constraint count is the fixed per-mode constant, the same for a
/// second, different operand.
#[test]
fn test_private_nonzero_to_u16_matches_expansion() {
    let v: u128 = 0xace1_cafe_1234_5678;
    let mut cs = ConstraintSystem::new();
    let s = Scalar::from_u128(v, Mode::Private);
    let r = cast_lossy_to_integer(&s, 16, false, &mut cs);
    let mut expected: u128 = 0;
    for i in 0..16 {
        if (v >> i) & 1 == 1 {
            expected += 1 << i;
        }
    }
    assert_eq!(r.to_u128(), expected);
    assert_eq!(cs.constraints, 253);

    let mut cs2 = ConstraintSystem::new();
    let s2 = Scalar::from_u128(3, Mode::Private);
    cast_lossy_to_integer(&s2, 16, false, &mut cs2);
    assert_eq!(cs2.constraints, cs.constraints);
    assert_eq!(cs2.private, cs.private);
}

/// For each mode, every operand value is charged the identical cost, and
/// the all-constant combination enforces no constraint.
#[test]
fn test_mode_cost_independence() {
    for &mode in &MODES {
        let mut seen: Option<(u64, u64, u64, u64)> = None;
        for &v in &[0u128, 1, 0xdead_beef, u128::MAX] {
            let mut cs = ConstraintSystem::new();
            let s = Scalar::from_u128(v, mode);
            cast_lossy_to_integer(&s, 128, false, &mut cs);
            let counts = (cs.constants, cs.public, cs.private, cs.constraints);
            match seen {
                None => seen = Some(counts),
                Some(first) => assert_eq!(counts, first),
            }
        }
        if let Mode::Constant = mode {
            assert_eq!(seen.unwrap().3, 0);
        }
    }
}

/// Recomposing a full decomposition at the domain's own width returns the
/// original bits.
#[test]
fn test_round_trip_full_width() {
    for &mode in &MODES {
        let mut cs = ConstraintSystem::new();
        let s = Scalar::new(bits_with_top_set(), mode);
        let bits = decompose(&s, &mut cs);
        let out = recompose(&bits, SCALAR_BITS, &mut cs);
        assert_eq!(out.len(), SCALAR_BITS);
        for k in 0..SCALAR_BITS {
            assert_eq!(out[k].value, s.bits_le[k]);
        }
    }
}

/// A scalar whose most significant bit is set casts to boolean true.
#[test]
fn test_top_bit_set_to_boolean() {
    for &mode in &MODES {
        let mut cs = ConstraintSystem::new();
        let s = Scalar::new(bits_with_top_set(), mode);
        let r = cast_lossy_to_boolean(&s, &mut cs);
        assert!(r.value);
    }
}

/// Truncation keeps the low-order prefix bit for bit, here against a
/// pattern whose high bits are set.
#[test]
fn test_truncation_discards_high_bits() {
    let mut cs = ConstraintSystem::new();
    let s = Scalar::new(bits_with_top_set(), Mode::Private);
    let r = cast_lossy_to_integer(&s, 8, false, &mut cs);
    // The pattern sets bits 0, 3 and 6 of the low byte: 0b0100_1001.
    assert_eq!(r.to_u128(), 0b0100_1001);
}

/// The identity cast returns the operand unchanged, bit for bit.
#[test]
fn test_identity_preserves_bits() {
    let s = Scalar::new(bits_with_top_set(), Mode::Public);
    let mut cs = ConstraintSystem::new();
    let r = cast_lossy_to_scalar(&s, &mut cs);
    assert_eq!(r.bits_le, s.bits_le);
    assert_eq!(r.mode, Mode::Public);
}

/// A word survives the round trip through the scalar domain and back out
/// through the full-width integer cast.
#[test]
fn test_from_u128_round_trip() {
    for &v in &[0u128, 1, 255, 256, 0xffff_ffff_ffff_ffff, u128::MAX] {
        let mut cs = ConstraintSystem::new();
        let s = Scalar::from_u128(v, Mode::Constant);
        let r = cast_lossy_to_integer(&s, 128, false, &mut cs);
        assert_eq!(r.to_u128(), v);
    }
}

/// The width guard a caller outside the verifier's reach checks before
/// asking for an integer cast: exactly the supported widths pass.
#[test]
fn test_integer_width_guard() {
    for &w in &[8usize, 16, 32, 64, 128] {
        assert!(integer_width_ok(w));
    }
    for &w in &[0usize, 1, 7, 9, 127, 129, 251] {
        assert!(!integer_width_ok(w));
    }
}

/// The dispatch table, pair by pair.
#[test]
fn test_strategy_table() {
    assert_eq!(scalar_strategy(TypeTag::Scalar), Strategy::Identity);
    assert_eq!(scalar_strategy(TypeTag::Address), Strategy::Reinterpret);
    assert_eq!(scalar_strategy(TypeTag::Boolean), Strategy::TakeTopBit);
    assert_eq!(scalar_strategy(TypeTag::Group), Strategy::Reinterpret);
    assert_eq!(scalar_strategy(TypeTag::Field), Strategy::Reinterpret);
    assert_eq!(scalar_strategy(TypeTag::Integer), Strategy::DecomposeTruncateRecompose);
}

/// Decomposing a witness scalar allocates one hidden witness per bit and
/// the tying linear constraint; a constant scalar allocates constant bits
/// only.
#[test]
fn test_decompose_counts() {
    let mut cs = ConstraintSystem::new();
    let s = Scalar::from_u128(7, Mode::Public);
    let bits = decompose(&s, &mut cs);
    assert_eq!(bits.len(), SCALAR_BITS);
    assert_eq!(cs.private, 251);
    assert_eq!(cs.constraints, 252);

    let mut cs2 = ConstraintSystem::new();
    let s2 = Scalar::from_u128(7, Mode::Constant);
    decompose(&s2, &mut cs2);
    assert_eq!(cs2.constants, 251);
    assert_eq!(cs2.constraints, 0);
}

/// The two's-complement reading: a low byte of all ones is minus one at
/// width eight but plain 255 at width sixteen.
#[test]
fn test_signed_reading_wraps() {
    let mut cs = ConstraintSystem::new();
    let s = Scalar::from_u128(0xff, Mode::Constant);
    let narrow = cast_lossy_to_integer(&s, 8, true, &mut cs);
    assert_eq!(narrow.to_i128(), -1);
    let wide = cast_lossy_to_integer(&s, 16, true, &mut cs);
    assert_eq!(wide.to_i128(), 255);
}

/// The signedness flag never changes which bits a lossy cast keeps.
#[test]
fn test_signedness_does_not_change_bits() {
    let v: u128 = 0xfedc_ba98;
    let mut cs = ConstraintSystem::new();
    let s = Scalar::from_u128(v, Mode::Private);
    let unsigned = cast_lossy_to_integer(&s, 16, false, &mut cs);
    let signed = cast_lossy_to_integer(&s, 16, true, &mut cs);
    assert_eq!(unsigned.to_u128(), signed.to_u128());
    assert_eq!(unsigned.to_u128(), v % (1 << 16));
}
