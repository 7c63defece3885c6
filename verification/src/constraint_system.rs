//! A counting model of the constraint-system collaborator.
//!
//! The real backend allocates variables and records algebraic constraints;
//! what this layer's contracts speak of is only *how many* of each a gadget
//! appends, because the circuit's shape — and with it the derived proving
//! and verification keys — must depend on the operands' modes alone, never
//! on their numeric values.  The model therefore keeps the four counters
//! the test harness of such a system reports: constant, public and private
//! variables, and constraints.

use vstd::prelude::*;

verus! {

/// The shared constraint system a circuit build appends to.  One instance
/// per circuit; every cast takes it `&mut` and grows the counters.
pub struct ConstraintSystem {
    /// Constant variables allocated so far.
    pub constants: u64,
    /// Public (disclosed) witness variables allocated so far.
    pub public: u64,
    /// Private (hidden) witness variables allocated so far.
    pub private: u64,
    /// Constraints enforced so far.
    pub constraints: u64,
}

/// A cost, as (constant variables, public variables, private variables,
/// constraints) appended.
pub open spec fn cost_added(
    pre: ConstraintSystem,
    post: ConstraintSystem,
    cost: (nat, nat, nat, nat),
) -> bool {
    &&& post.constants == pre.constants + cost.0
    &&& post.public == pre.public + cost.1
    &&& post.private == pre.private + cost.2
    &&& post.constraints == pre.constraints + cost.3
}

/// The zero cost: the system is left exactly as it was.
pub open spec fn no_cost(pre: ConstraintSystem, post: ConstraintSystem) -> bool {
    post == pre
}

impl ConstraintSystem {
    /// A fresh, empty constraint system.
    pub fn new() -> (cs: ConstraintSystem)
        ensures
            cs.constants == 0,
            cs.public == 0,
            cs.private == 0,
            cs.constraints == 0,
    {
        ConstraintSystem { constants: 0, public: 0, private: 0, constraints: 0 }
    }

    /// Every counter can still grow by `n` without leaving its machine
    /// width.  A machine limit only: no gadget contract narrows its inputs
    /// beyond this.
    pub open spec fn has_headroom(self, n: nat) -> bool {
        &&& self.constants + n <= u64::MAX
        &&& self.public + n <= u64::MAX
        &&& self.private + n <= u64::MAX
        &&& self.constraints + n <= u64::MAX
    }

    /// Allocate one constant boolean variable: free, no constraint.
    pub fn alloc_constant_bool(&mut self)
        requires
            old(self).has_headroom(1),
        ensures
            cost_added(*old(self), *final(self), (1nat, 0nat, 0nat, 0nat)),
    {
        self.constants = self.constants + 1;
    }

    /// Allocate one hidden witness boolean: one private variable together
    /// with the constraint that holds it to zero or one.
    pub fn alloc_witness_bool(&mut self)
        requires
            old(self).has_headroom(1),
        ensures
            cost_added(*old(self), *final(self), (0nat, 0nat, 1nat, 1nat)),
    {
        self.private = self.private + 1;
        self.constraints = self.constraints + 1;
    }

    /// Enforce one linear equality over already-allocated variables.
    pub fn enforce_linear(&mut self)
        requires
            old(self).has_headroom(1),
        ensures
            cost_added(*old(self), *final(self), (0nat, 0nat, 0nat, 1nat)),
    {
        self.constraints = self.constraints + 1;
    }
}

} // verus!
