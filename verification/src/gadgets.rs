//! The two constraint-emitting gadgets every decompose-based cast is built
//! from: bit decomposition and truncating recomposition.
//!
//! Both charge the constraint system an amount that depends on the
//! operands' modes alone — zero for build-time constants, a fixed
//! width-dependent count for witnesses — never on the operands' numeric
//! values, so that the circuit's shape stays independent of secret data.

use vstd::prelude::*;

verus! {

use crate::constraint_system::{cost_added, ConstraintSystem};
use crate::mode::{witness_mode, Mode};
use crate::values::{Boolean, Scalar};
use crate::SCALAR_BITS;

/// The bit values behind a sequence of circuit booleans.
pub open spec fn bool_values(bs: Seq<Boolean>) -> Seq<bool> {
    Seq::new(bs.len(), |i: int| bs[i].value)
}

/// Every bit of the sequence is a build-time constant.
pub open spec fn all_constant(bs: Seq<Boolean>) -> bool {
    forall|i: int| 0 <= i < bs.len() ==> bs[i].mode == Mode::Constant
}

/// Every bit of the sequence carries the one mode `m`.
pub open spec fn uniform_mode(bs: Seq<Boolean>, m: Mode) -> bool {
    forall|i: int| 0 <= i < bs.len() ==> bs[i].mode == m
}

/// Cost of decomposing a scalar, as (constant variables, public variables,
/// private variables, constraints): a constant scalar yields one constant
/// boolean per bit and no constraint; a witness scalar yields one hidden
/// witness boolean per bit — each with its booleanity constraint — plus the
/// single linear constraint `sum of bit_i * 2^i == value`.
pub open spec fn decompose_cost(m: Mode) -> (nat, nat, nat, nat) {
    if m == Mode::Constant {
        (SCALAR_BITS as nat, 0nat, 0nat, 0nat)
    } else {
        (0nat, 0nat, SCALAR_BITS as nat, (SCALAR_BITS + 1) as nat)
    }
}

/// Cost of recomposition: free when every retained bit is constant,
/// otherwise one linear weighted-sum constraint over the retained bits.
pub open spec fn recompose_cost(constant_operands: bool) -> (nat, nat, nat, nat) {
    if constant_operands {
        (0nat, 0nat, 0nat, 0nat)
    } else {
        (0nat, 0nat, 0nat, 1nat)
    }
}

/// The bit values recomposition retains from a little-endian sequence for
/// target width `w`: for a boolean target (`w == 1`) the sequence is read
/// big-endian — reversed — and its first element taken, the single most
/// significant bit; for any wider target the prefix of `w` low-order bits,
/// discarding the most significant surplus and never sign-extending.
pub open spec fn spec_recompose(bits: Seq<bool>, w: nat) -> Seq<bool> {
    if w == 1 {
        seq![bits[bits.len() - 1]]
    } else {
        bits.take(w as int)
    }
}

/// The circuit booleans recomposition retains from `bits` for width `w`:
/// [`spec_recompose`] lifted to the booleans themselves, modes and all.
pub open spec fn retained_bits(bits: Seq<Boolean>, w: nat) -> Seq<Boolean> {
    if w == 1 {
        seq![bits[bits.len() - 1]]
    } else {
        bits.take(w as int)
    }
}

/// Retaining booleans and then reading their values is reading the values
/// and then retaining.
pub proof fn lemma_retained_values(bits: Seq<Boolean>, w: nat)
    requires
        1 <= w <= bits.len(),
    ensures
        bool_values(retained_bits(bits, w)) == spec_recompose(bool_values(bits), w),
{
    if w == 1 {
        assert(bool_values(retained_bits(bits, 1)) =~= spec_recompose(bool_values(bits), 1));
    } else {
        assert(bool_values(bits.take(w as int)) =~= bool_values(bits).take(w as int));
    }
}

/// Bit decomposition gadget: turns a scalar into the ordered sequence of
/// its canonical little-endian bits, one circuit boolean per bit.
///
/// A constant scalar's bits are computed directly and cost no constraint.
/// A witness scalar's bits are each allocated as a hidden witness with its
/// booleanity constraint, and one linear constraint ties the weighted sum
/// of the bits back to the value.  Either way the sequence has the full
/// canonical width: a shorter one would be a fatal synthesis fault, and
/// this contract rules it out.
pub fn decompose(s: &Scalar, cs: &mut ConstraintSystem) -> (bits: Vec<Boolean>)
    requires
        s.wf(),
        old(cs).has_headroom((SCALAR_BITS + 1) as nat),
    ensures
        bits@.len() == SCALAR_BITS,
        bool_values(bits@) == s.bits_le@,
        uniform_mode(bits@, witness_mode(s.mode)),
        cost_added(*old(cs), *final(cs), decompose_cost(s.mode)),
{
    let constant = s.mode.is_constant();
    let ghost cs0 = *cs;
    let mut bits: Vec<Boolean> = Vec::new();
    let mut i: usize = 0;
    while i < SCALAR_BITS
        invariant
            i <= SCALAR_BITS,
            s.wf(),
            bits@.len() == i,
            forall|k: int| 0 <= k < i ==> bits@[k].value == s.bits_le@[k],
            uniform_mode(bits@, witness_mode(s.mode)),
            constant == (s.mode == Mode::Constant),
            cs0.has_headroom((SCALAR_BITS + 1) as nat),
            if constant {
                cost_added(cs0, *cs, (i as nat, 0nat, 0nat, 0nat))
            } else {
                cost_added(cs0, *cs, (0nat, 0nat, i as nat, i as nat))
            },
        decreases SCALAR_BITS - i,
    {
        let value = s.bits_le[i];
        if constant {
            cs.alloc_constant_bool();
            bits.push(Boolean { value, mode: Mode::Constant });
        } else {
            cs.alloc_witness_bool();
            bits.push(Boolean { value, mode: Mode::Private });
        }
        i = i + 1;
    }
    if !constant {
        cs.enforce_linear();
    }
    proof {
        assert(bool_values(bits@) =~= s.bits_le@);
    }
    bits
}

/// Truncating recomposition gadget: from a full-width little-endian bit
/// sequence, the bits a target of width `target_width` retains.
///
/// Narrowing keeps the `target_width` low-order bits and discards the most
/// significant surplus entirely; equal width keeps every bit; a boolean
/// target (`target_width == 1`) takes the single most significant bit.
/// When any retained bit is a witness, one linear weighted-sum constraint
/// over the retained bits is enforced; all-constant operands cost nothing.
pub fn recompose(bits: &Vec<Boolean>, target_width: usize, cs: &mut ConstraintSystem) -> (out: Vec<
    Boolean,
>)
    requires
        1 <= target_width <= bits@.len(),
        old(cs).has_headroom(1),
    ensures
        out@.len() == target_width,
        out@ == retained_bits(bits@, target_width as nat),
        bool_values(out@) == spec_recompose(bool_values(bits@), target_width as nat),
        cost_added(*old(cs), *final(cs), recompose_cost(all_constant(out@))),
{
    let mut out: Vec<Boolean> = Vec::new();
    if target_width == 1 {
        out.push(bits[bits.len() - 1]);
        proof {
            assert(out@ =~= retained_bits(bits@, 1));
        }
    } else {
        let mut i: usize = 0;
        while i < target_width
            invariant
                i <= target_width <= bits@.len(),
                out@.len() == i,
                forall|k: int| 0 <= k < i ==> out@[k] == bits@[k],
            decreases target_width - i,
        {
            out.push(bits[i]);
            i = i + 1;
        }
        proof {
            assert(out@ =~= retained_bits(bits@, target_width as nat));
        }
    }
    let mut constant = true;
    let mut i: usize = 0;
    while i < out.len()
        invariant
            i <= out@.len(),
            constant == (forall|k: int| 0 <= k < i ==> out@[k].mode == Mode::Constant),
        decreases out@.len() - i,
    {
        if !out[i].mode.is_constant() {
            constant = false;
        }
        i = i + 1;
    }
    if !constant {
        cs.enforce_linear();
    }
    proof {
        lemma_retained_values(bits@, target_width as nat);
    }
    out
}

} // verus!
