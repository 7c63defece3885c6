//! The lossy-cast entry points out of the scalar domain, and the dispatch
//! table that routes each ordered (source, target) type pair to its
//! conversion strategy.
//!
//! A lossy cast always returns a value: discarding information —
//! truncating high-order bits, or extracting the top bit — is its
//! documented contract, never a failure.  Callers who want
//! failure-on-overflow use the exact-cast siblings instead.  The strategy
//! for a pair is fixed at build time, chosen once per call site and never
//! by inspecting values; the operands' modes alone decide what the cast
//! costs in constraints.

use vstd::prelude::*;

verus! {

use vstd::arithmetic::power2::pow2;
use crate::bits::{
    le_bits_to_nat, lemma_le_bits_push, lemma_le_bits_take_mod, lemma_le_bits_top_bit,
};
use crate::constraint_system::{cost_added, no_cost, ConstraintSystem};
use crate::gadgets::{decompose, recompose, bool_values, spec_recompose};
use crate::mode::{witness_mode, witness_mode_of, Mode};
use crate::values::{
    copy_bits, is_integer_width, Address, Boolean, FieldElement, Group, IntegerValue, Scalar,
};
use crate::{FIELD_BITS, SCALAR_BITS};

/// Tags for the value domains of the supported type family.  The integer
/// widths and signednesses collapse into the one `Integer` tag: the
/// strategy is the same for all of them.
#[derive(Clone, Copy, Debug, PartialEq, Eq, Structural)]
pub enum TypeTag {
    Scalar,
    Address,
    Boolean,
    Group,
    Field,
    Integer,
}

/// The four conversion strategies a (source, target) pair can map to.
#[derive(Clone, Copy, Debug, PartialEq, Eq, Structural)]
pub enum Strategy {
    /// The source domain provably embeds into the target domain without
    /// overflow; delegate to the exact cast, losing nothing.
    Reinterpret,
    /// Decompose into bits, keep the low-order prefix, recompose.
    DecomposeTruncateRecompose,
    /// Decompose into bits and keep the single most significant one.
    TakeTopBit,
    /// Source and target domain coincide; nothing to convert.
    Identity,
}

/// The dispatch table for a scalar source, total over the supported
/// family.
pub open spec fn spec_scalar_strategy(target: TypeTag) -> Strategy {
    match target {
        TypeTag::Scalar => Strategy::Identity,
        TypeTag::Address => Strategy::Reinterpret,
        TypeTag::Boolean => Strategy::TakeTopBit,
        TypeTag::Group => Strategy::Reinterpret,
        TypeTag::Field => Strategy::Reinterpret,
        TypeTag::Integer => Strategy::DecomposeTruncateRecompose,
    }
}

/// Executable twin of [`spec_scalar_strategy`]: strategy selection is
/// total and never fails.
pub fn scalar_strategy(target: TypeTag) -> (r: Strategy)
    ensures
        r == spec_scalar_strategy(target),
{
    match target {
        TypeTag::Scalar => Strategy::Identity,
        TypeTag::Address => Strategy::Reinterpret,
        TypeTag::Boolean => Strategy::TakeTopBit,
        TypeTag::Group => Strategy::Reinterpret,
        TypeTag::Field => Strategy::Reinterpret,
        TypeTag::Integer => Strategy::DecomposeTruncateRecompose,
    }
}

/// Total cost of a decompose-based lossy cast out of the scalar domain,
/// as (constant variables, public variables, private variables,
/// constraints): the decomposition plus the recomposition's weighted-sum
/// constraint.  The mode alone decides it — never the operand's value, and
/// not even the target's width.
pub open spec fn scalar_cast_cost(m: Mode) -> (nat, nat, nat, nat) {
    if m == Mode::Constant {
        (SCALAR_BITS as nat, 0nat, 0nat, 0nat)
    } else {
        (0nat, 0nat, SCALAR_BITS as nat, (SCALAR_BITS + 2) as nat)
    }
}

/// Exact cast scalar to base field.  The scalar field's order does not
/// exceed the base field's in the instantiated system, so zero-extending
/// the canonical bits to the base field's width embeds the value
/// losslessly.  This layer appends no constraint for it.
pub fn exact_cast_to_field(s: &Scalar) -> (r: FieldElement)
    requires
        s.wf(),
    ensures
        r.wf(),
        r.mode == s.mode,
        r.value() == s.value(),
        r.bits_le@.take(SCALAR_BITS as int) == s.bits_le@,
        forall|k: int| SCALAR_BITS <= k < FIELD_BITS ==> !r.bits_le@[k],
{
    let mut bits_le = copy_bits(&s.bits_le);
    proof {
        assert(bits_le@.take(SCALAR_BITS as int) =~= s.bits_le@);
    }
    while bits_le.len() < FIELD_BITS
        invariant
            SCALAR_BITS <= bits_le@.len() <= FIELD_BITS,
            le_bits_to_nat(bits_le@) == s.value(),
            bits_le@.take(SCALAR_BITS as int) == s.bits_le@,
            forall|k: int| SCALAR_BITS <= k < bits_le@.len() ==> !bits_le@[k],
        decreases FIELD_BITS - bits_le@.len(),
    {
        proof {
            lemma_le_bits_push(bits_le@, false);
            assert(bits_le@.push(false).take(SCALAR_BITS as int) =~= bits_le@.take(
                SCALAR_BITS as int,
            ));
        }
        bits_le.push(false);
    }
    FieldElement { bits_le, mode: s.mode }
}

/// Exact cast scalar to group: the scalar maps canonically onto the curve
/// group element it generates.  The curve arithmetic realising the map
/// belongs to the collaborator outside this layer; the model records the
/// defining scalar, unchanged.
pub fn exact_cast_to_group(s: &Scalar) -> (r: Group)
    requires
        s.wf(),
    ensures
        r.wf(),
        r.mode == s.mode,
        r.scalar_bits_le@ == s.bits_le@,
        r.defining_scalar() == s.value(),
{
    Group { scalar_bits_le: copy_bits(&s.bits_le), mode: s.mode }
}

/// Exact cast scalar to address: the affine-point encoding of the group
/// element the scalar generates.  Modeled as [`exact_cast_to_group`] is.
pub fn exact_cast_to_address(s: &Scalar) -> (r: Address)
    requires
        s.wf(),
    ensures
        r.wf(),
        r.mode == s.mode,
        r.scalar_bits_le@ == s.bits_le@,
        r.defining_scalar() == s.value(),
{
    Address { scalar_bits_le: copy_bits(&s.bits_le), mode: s.mode }
}

/// Scalar to scalar — strategy [`Strategy::Identity`]: the value comes
/// back unchanged, bit for bit and mode for mode, and the constraint
/// system is untouched.
pub fn cast_lossy_to_scalar(s: &Scalar, cs: &mut ConstraintSystem) -> (r: Scalar)
    requires
        s.wf(),
    ensures
        r.wf(),
        r.bits_le@ == s.bits_le@,
        r.mode == s.mode,
        r.value() == s.value(),
        no_cost(*old(cs), *final(cs)),
{
    Scalar { bits_le: copy_bits(&s.bits_le), mode: s.mode }
}

/// Scalar to base field — strategy [`Strategy::Reinterpret`], delegating
/// to the exact cast: the embedding is lossless despite the family's
/// "lossy" name, and this layer appends no constraint.
pub fn cast_lossy_to_field(s: &Scalar, cs: &mut ConstraintSystem) -> (r: FieldElement)
    requires
        s.wf(),
    ensures
        r.wf(),
        r.mode == s.mode,
        r.value() == s.value(),
        r.bits_le@.take(SCALAR_BITS as int) == s.bits_le@,
        forall|k: int| SCALAR_BITS <= k < FIELD_BITS ==> !r.bits_le@[k],
        no_cost(*old(cs), *final(cs)),
{
    exact_cast_to_field(s)
}

/// Scalar to group — strategy [`Strategy::Reinterpret`], delegating to the
/// exact cast.  Whatever the collaborator's curve arithmetic appends is
/// its own accounting; this layer appends nothing.
pub fn cast_lossy_to_group(s: &Scalar, cs: &mut ConstraintSystem) -> (r: Group)
    requires
        s.wf(),
    ensures
        r.wf(),
        r.mode == s.mode,
        r.scalar_bits_le@ == s.bits_le@,
        r.defining_scalar() == s.value(),
        no_cost(*old(cs), *final(cs)),
{
    exact_cast_to_group(s)
}

/// Scalar to address — strategy [`Strategy::Reinterpret`], delegating to
/// the exact cast, as the group cast does.
pub fn cast_lossy_to_address(s: &Scalar, cs: &mut ConstraintSystem) -> (r: Address)
    requires
        s.wf(),
    ensures
        r.wf(),
        r.mode == s.mode,
        r.scalar_bits_le@ == s.bits_le@,
        r.defining_scalar() == s.value(),
        no_cost(*old(cs), *final(cs)),
{
    exact_cast_to_address(s)
}

/// Scalar to boolean — strategy [`Strategy::TakeTopBit`]: decompose, then
/// keep the single most significant bit of the canonical representation.
/// Deliberately *not* a "value is nonzero" predicate: explicit bit
/// extraction is the documented contract.
pub fn cast_lossy_to_boolean(s: &Scalar, cs: &mut ConstraintSystem) -> (r: Boolean)
    requires
        s.wf(),
        old(cs).has_headroom((SCALAR_BITS + 2) as nat),
    ensures
        r.value == s.bits_le@[SCALAR_BITS - 1],
        r.value <==> s.value() >= pow2((SCALAR_BITS - 1) as nat),
        r.mode == witness_mode(s.mode),
        cost_added(*old(cs), *final(cs), scalar_cast_cost(s.mode)),
{
    let bits = decompose(s, cs);
    let out = recompose(&bits, 1, cs);
    proof {
        assert(bool_values(out@)[0] == bool_values(bits@)[bits@.len() - 1]);
        lemma_le_bits_top_bit(s.bits_le@);
    }
    out[0]
}

/// Scalar to fixed-width integer — strategy
/// [`Strategy::DecomposeTruncateRecompose`]: decompose, keep the `width`
/// low-order bits, recompose.  The result is exactly the value reduced
/// modulo `2^width`; the discarded high-order bits are the contract, not a
/// fault, and the signedness flag never changes which bits are kept.
pub fn cast_lossy_to_integer(
    s: &Scalar,
    width: usize,
    signed: bool,
    cs: &mut ConstraintSystem,
) -> (r: IntegerValue)
    requires
        s.wf(),
        is_integer_width(width as nat),
        old(cs).has_headroom((SCALAR_BITS + 2) as nat),
    ensures
        r.wf(),
        r.width() == width as nat,
        r.signed == signed,
        r.mode == witness_mode(s.mode),
        r.bits_le@ == s.bits_le@.take(width as int),
        r.value() == s.value() % pow2(width as nat),
        cost_added(*old(cs), *final(cs), scalar_cast_cost(s.mode)),
{
    let bits = decompose(s, cs);
    let out = recompose(&bits, width, cs);
    let mut bits_le: Vec<bool> = Vec::new();
    let mut i: usize = 0;
    while i < out.len()
        invariant
            i <= out@.len(),
            bits_le@.len() == i,
            forall|k: int| 0 <= k < i ==> bits_le@[k] == out@[k].value,
        decreases out@.len() - i,
    {
        bits_le.push(out[i].value);
        i = i + 1;
    }
    proof {
        assert(bits_le@ =~= bool_values(out@));
        assert(spec_recompose(bool_values(bits@), width as nat) =~= s.bits_le@.take(width as int));
        lemma_le_bits_take_mod(s.bits_le@, width as nat);
    }
    IntegerValue { bits_le, signed, mode: witness_mode_of(s.mode) }
}

} // verus!
