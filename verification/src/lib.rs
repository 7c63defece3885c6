//! Lossy cast gadgets for a zero-knowledge arithmetic circuit.
//!
//! A circuit value carries a domain type (scalar-field element, base-field
//! element, boolean, group element, address) and a mode tag saying whether it
//! is a build-time constant or a witness.  Casting between domains is *lossy*
//! by contract: a cast always returns a value, discarding surplus information
//! deterministically (truncation of high bits, or top-bit extraction), and
//! appends algebraic constraints to a shared constraint system as a side
//! effect.  The number of constraints a cast appends depends only on the
//! operand's mode and the target domain, never on the operand's numeric
//! value, so the circuit's shape is independent of secret data.
//!
//! The crate is organised around two gadgets and a dispatch table:
//! bit decomposition ([`gadgets::decompose`]), truncating recomposition
//! ([`gadgets::recompose`]), and a per-type-pair strategy table
//! ([`cast::scalar_strategy`]) that routes each ordered (source, target)
//! pair to one of four strategies.

use vstd::prelude::*;

pub mod bits;
pub mod mode;
pub mod constraint_system;
pub mod values;
pub mod gadgets;
pub mod cast;
pub mod laws;

verus! {

/// Canonical bit-width of the scalar field: the bit-length of the scalar
/// field's modulus in the instantiated proof system.
pub const SCALAR_BITS: usize = 251;

/// Canonical bit-width of the base field, which the scalar field embeds into.
pub const FIELD_BITS: usize = 253;

} // verus!
