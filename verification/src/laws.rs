//! The general laws of the lossy-cast family, each stated over the
//! spec-level model the gadget and cast contracts speak in: a scalar's
//! canonical little-endian bits and the value they stand for.
//!
//! Two further laws live directly in the entry points' contracts: the
//! identity law is the `ensures` of
//! [`crate::cast::cast_lossy_to_scalar`], which returns the operand bit
//! for bit and mode for mode; and the cost every decompose-based cast
//! charges is pinned by `ensures` to
//! [`crate::cast::scalar_cast_cost`] of the operand's mode alone.

use vstd::prelude::*;

verus! {

use vstd::arithmetic::power2::pow2;
use crate::bits::{le_bits_to_nat, lemma_le_bits_take_mod, lemma_le_bits_top_bit};
use crate::cast::scalar_cast_cost;
use crate::gadgets::{decompose_cost, spec_recompose};
use crate::mode::Mode;
use crate::values::{is_integer_width, Scalar};
use crate::SCALAR_BITS;

/// Round trip at equal width: recomposing a scalar's full decomposition
/// at the domain's own width discards nothing — the original bits, and so
/// the original value, come back.
pub proof fn lemma_round_trip(s: Scalar)
    requires
        s.wf(),
    ensures
        spec_recompose(s.bits_le@, SCALAR_BITS as nat) == s.bits_le@,
        le_bits_to_nat(spec_recompose(s.bits_le@, SCALAR_BITS as nat)) == s.value(),
{
    assert(s.bits_le@.take(SCALAR_BITS as int) =~= s.bits_le@);
}

/// Reduction law: recomposing at a supported integer width keeps exactly
/// the low-order prefix of the canonical binary form, whose value is the
/// scalar's value reduced modulo `2^w`.
pub proof fn lemma_reduction(bits: Seq<bool>, w: nat)
    requires
        is_integer_width(w),
        w <= bits.len(),
    ensures
        spec_recompose(bits, w) == bits.take(w as int),
        le_bits_to_nat(spec_recompose(bits, w)) == le_bits_to_nat(bits) % pow2(w),
{
    lemma_le_bits_take_mod(bits, w);
}

/// Top-bit law: a boolean target receives the first element of the
/// big-endian reading of the canonical bits — the most significant bit —
/// which is set exactly when the value reaches `2^(n-1)`.
pub proof fn lemma_top_bit(bits: Seq<bool>)
    requires
        bits.len() > 0,
    ensures
        spec_recompose(bits, 1) == seq![bits.reverse()[0]],
        bits.reverse()[0] <==> le_bits_to_nat(bits) >= pow2((bits.len() - 1) as nat),
{
    assert(bits.reverse()[0] == bits[bits.len() - 1]);
    lemma_le_bits_top_bit(bits);
}

/// Mode-cost independence: what a decompose-based cast charges the
/// constraint system is a function of the operand's mode alone, so any
/// two operands of one mode are charged identically, whatever their
/// values and whichever supported target they cast to; and an
/// all-constant cast enforces no constraint at all.
pub proof fn lemma_mode_cost_independence(a: Scalar, b: Scalar)
    requires
        a.mode == b.mode,
    ensures
        scalar_cast_cost(a.mode) == scalar_cast_cost(b.mode),
        decompose_cost(a.mode) == decompose_cost(b.mode),
        scalar_cast_cost(Mode::Constant).3 == 0,
        decompose_cost(Mode::Constant).3 == 0,
{
}

} // verus!
