//! The mode tag a circuit value carries: whether it is known at build time
//! or supplied as a witness, and how the tag propagates through gadgets.

use vstd::prelude::*;

verus! {

/// Mode of a circuit value.  A `Constant` is known when the circuit is
/// built and costs no constraints; `Public` and `Private` values are
/// witnesses, disclosed or hidden, and every gadget that touches one pays a
/// fixed, value-independent constraint cost.
#[derive(Clone, Copy, Debug, PartialEq, Eq, Structural)]
pub enum Mode {
    Constant,
    Public,
    Private,
}

impl Mode {
    /// True when the value is known at circuit-build time.
    pub open spec fn spec_is_constant(self) -> bool {
        self == Mode::Constant
    }

    /// Executable twin of [`Mode::spec_is_constant`].
    pub fn is_constant(&self) -> (r: bool)
        ensures
            r == self.spec_is_constant(),
    {
        match self {
            Mode::Constant => true,
            _ => false,
        }
    }
}

/// Mode of the bits a decomposition produces, and so of every value
/// recomposed from them: the bits of a build-time constant are themselves
/// constants, while the bits of any witness are freshly allocated hidden
/// witnesses, whatever the source's disclosure.
pub open spec fn witness_mode(m: Mode) -> Mode {
    if m == Mode::Constant {
        Mode::Constant
    } else {
        Mode::Private
    }
}

/// Executable twin of [`witness_mode`].
pub fn witness_mode_of(m: Mode) -> (r: Mode)
    ensures
        r == witness_mode(m),
{
    match m {
        Mode::Constant => Mode::Constant,
        _ => Mode::Private,
    }
}

} // verus!
