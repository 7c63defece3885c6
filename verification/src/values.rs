//! The typed circuit values of the supported domain family: scalar-field
//! element, base-field element, boolean, group element, address, and
//! fixed-width integer.
//!
//! Each value carries its canonical little-endian bit representation and a
//! mode tag, fixed at construction.  Group elements and addresses never
//! have their curve structure inspected by this layer — they arise here
//! only as images of a scalar under the exact cast — so the model carries
//! the defining scalar's bits through them unchanged.

use vstd::prelude::*;

verus! {

use vstd::arithmetic::power2::{
    pow2, lemma_pow2_adds, lemma_pow2_unfold, lemma_pow2_strictly_increases, lemma2_to64_rest,
};
use vstd::arithmetic::div_mod::lemma_fundamental_div_mod;
use crate::bits::{
    le_bits_to_nat, lemma_le_bits_bound, lemma_le_bits_push, lemma_le_bits_top_bit,
    lemma_pow2_128, lemma_u128_below_pow2,
};
use crate::mode::Mode;
use crate::{FIELD_BITS, SCALAR_BITS};

/// A single circuit boolean.
#[derive(Clone, Copy)]
pub struct Boolean {
    pub value: bool,
    pub mode: Mode,
}

/// A scalar-field element, carried by its canonical little-endian bit
/// representation at the domain's full width.
pub struct Scalar {
    pub bits_le: Vec<bool>,
    pub mode: Mode,
}

impl Scalar {
    /// Well-formed: exactly the canonical width.
    pub open spec fn wf(self) -> bool {
        self.bits_le@.len() == SCALAR_BITS
    }

    /// The natural number this element stands for.
    pub open spec fn value(self) -> nat {
        le_bits_to_nat(self.bits_le@)
    }

    /// A scalar from explicit canonical bits.
    pub fn new(bits_le: Vec<bool>, mode: Mode) -> (s: Scalar)
        requires
            bits_le@.len() == SCALAR_BITS,
        ensures
            s.wf(),
            s.bits_le@ == bits_le@,
            s.mode == mode,
    {
        Scalar { bits_le, mode }
    }

    /// A scalar from a 128-bit word: the word's bits, zero-extended to the
    /// canonical width.
    pub fn from_u128(v: u128, mode: Mode) -> (s: Scalar)
        ensures
            s.wf(),
            s.mode == mode,
            s.value() == v as nat,
    {
        let mut bits_le: Vec<bool> = Vec::new();
        let mut rest: u128 = v;
        let mut i: usize = 0;
        proof {
            vstd::arithmetic::power2::lemma2_to64();
            assert(le_bits_to_nat(bits_le@) == 0);
        }
        while i < SCALAR_BITS
            invariant
                i <= SCALAR_BITS,
                bits_le@.len() == i,
                le_bits_to_nat(bits_le@) + pow2(i as nat) * (rest as nat) == v as nat,
            decreases SCALAR_BITS - i,
        {
            let b: bool = rest % 2 == 1;
            let next: u128 = rest / 2;
            proof {
                lemma_fundamental_div_mod(rest as int, 2);
                lemma_le_bits_push(bits_le@, b);
                lemma_pow2_unfold((i + 1) as nat);
                assert(pow2(i as nat) * (rest as nat) == pow2((i + 1) as nat) * (next as nat) + (
                if b {
                    pow2(i as nat)
                } else {
                    0nat
                })) by (nonlinear_arith)
                    requires
                        rest as nat == 2 * (next as nat) + (if b {
                            1nat
                        } else {
                            0nat
                        }),
                        pow2((i + 1) as nat) == 2 * pow2(i as nat),
                ;
            }
            bits_le.push(b);
            rest = next;
            i = i + 1;
        }
        proof {
            lemma_u128_below_pow2(v, SCALAR_BITS as nat);
            if rest >= 1 {
                assert(pow2(SCALAR_BITS as nat) * (rest as nat) >= pow2(SCALAR_BITS as nat))
                    by (nonlinear_arith)
                    requires
                        rest as nat >= 1,
                ;
            }
        }
        Scalar { bits_le, mode }
    }
}

/// A copy of a bit vector, element for element.
pub fn copy_bits(src: &Vec<bool>) -> (r: Vec<bool>)
    ensures
        r@ == src@,
{
    let mut r: Vec<bool> = Vec::new();
    let mut i: usize = 0;
    while i < src.len()
        invariant
            i <= src@.len(),
            r@.len() == i,
            forall|k: int| 0 <= k < i ==> r@[k] == src@[k],
        decreases src@.len() - i,
    {
        r.push(src[i]);
        i = i + 1;
    }
    proof {
        assert(r@ =~= src@);
    }
    r
}

/// A base-field element, carried by its canonical little-endian bits.
pub struct FieldElement {
    pub bits_le: Vec<bool>,
    pub mode: Mode,
}

impl FieldElement {
    /// Well-formed: exactly the base field's canonical width.
    pub open spec fn wf(self) -> bool {
        self.bits_le@.len() == FIELD_BITS
    }

    /// The natural number this element stands for.
    pub open spec fn value(self) -> nat {
        le_bits_to_nat(self.bits_le@)
    }
}

/// A group element as this layer sees it.  The curve arithmetic that
/// realises the embedding belongs to the exact-cast collaborator; here a
/// group element appears only as the image of a scalar, so the model
/// carries that defining scalar's canonical bits.
pub struct Group {
    pub scalar_bits_le: Vec<bool>,
    pub mode: Mode,
}

impl Group {
    /// Well-formed: the defining scalar has its canonical width.
    pub open spec fn wf(self) -> bool {
        self.scalar_bits_le@.len() == SCALAR_BITS
    }

    /// The value of the scalar whose image this element is.
    pub open spec fn defining_scalar(self) -> nat {
        le_bits_to_nat(self.scalar_bits_le@)
    }
}

/// An address: the affine-point encoding of a group element.  Modeled as
/// [`Group`] is, by the defining scalar's canonical bits.
pub struct Address {
    pub scalar_bits_le: Vec<bool>,
    pub mode: Mode,
}

impl Address {
    /// Well-formed: the defining scalar has its canonical width.
    pub open spec fn wf(self) -> bool {
        self.scalar_bits_le@.len() == SCALAR_BITS
    }

    /// The value of the scalar whose image this address encodes.
    pub open spec fn defining_scalar(self) -> nat {
        le_bits_to_nat(self.scalar_bits_le@)
    }
}

/// The integer widths the type family supports.
pub open spec fn is_integer_width(w: nat) -> bool {
    w == 8 || w == 16 || w == 32 || w == 64 || w == 128
}

/// Executable twin of [`is_integer_width`].
pub fn integer_width_ok(w: usize) -> (r: bool)
    ensures
        r == is_integer_width(w as nat),
{
    w == 8 || w == 16 || w == 32 || w == 64 || w == 128
}

/// A fixed-width integer value.  The signedness flag records how callers
/// read the bits; a lossy cast fills the bits by truncation alone and never
/// sign-extends, so the flag plays no part in the cast itself.
pub struct IntegerValue {
    pub bits_le: Vec<bool>,
    pub signed: bool,
    pub mode: Mode,
}

impl IntegerValue {
    /// Well-formed: one of the supported widths.
    pub open spec fn wf(self) -> bool {
        is_integer_width(self.bits_le@.len())
    }

    /// The declared width, carried by the bit sequence itself.
    pub open spec fn width(self) -> nat {
        self.bits_le@.len()
    }

    /// The unsigned reading of the raw bits.
    pub open spec fn value(self) -> nat {
        le_bits_to_nat(self.bits_le@)
    }

    /// The two's-complement reading of the same bits, the one callers use
    /// when `signed` is set.
    pub open spec fn signed_value(self) -> int {
        if self.signed && self.width() > 0 && self.bits_le@[self.width() - 1] {
            self.value() - pow2(self.width())
        } else {
            self.value() as int
        }
    }

    /// The raw bits packed into a 128-bit word, least-significant first.
    pub fn to_u128(&self) -> (r: u128)
        requires
            self.wf(),
        ensures
            r as nat == self.value(),
    {
        let w = self.bits_le.len();
        let mut acc: u128 = 0;
        let mut j: usize = w;
        proof {
            vstd::arithmetic::power2::lemma2_to64();
            let empty: Seq<bool> = Seq::empty();
            assert(le_bits_to_nat(empty) == 0);
            assert(self.bits_le@.skip(w as int) =~= empty);
        }
        while j > 0
            invariant
                j <= w,
                w == self.bits_le@.len(),
                w <= 128,
                acc as nat == le_bits_to_nat(self.bits_le@.skip(j as int)),
                (acc as nat) < pow2((w - j) as nat),
            decreases j,
        {
            j = j - 1;
            let b = self.bits_le[j];
            proof {
                let s = self.bits_le@;
                assert(s.skip(j as int).subrange(1, s.skip(j as int).len() as int) =~= s.skip(
                    j + 1,
                ));
                assert(le_bits_to_nat(s.skip(j as int)) == (if s[j as int] {
                    1nat
                } else {
                    0nat
                }) + 2 * le_bits_to_nat(s.skip(j + 1)));
                lemma_pow2_unfold((w - j) as nat);
                lemma_pow2_128();
                if w - j < 128 {
                    lemma_pow2_strictly_increases((w - j) as nat, 128);
                }
            }
            acc = 2 * acc + (if b {
                1
            } else {
                0
            });
        }
        proof {
            assert(self.bits_le@.skip(0) =~= self.bits_le@);
        }
        acc
    }

    /// The bits read as a two's-complement machine word: the value a
    /// caller of a signed integer target sees.
    pub fn to_i128(&self) -> (r: i128)
        requires
            self.wf(),
            self.signed,
        ensures
            r as int == self.signed_value(),
    {
        let w = self.bits_le.len();
        let raw = self.to_u128();
        proof {
            lemma_le_bits_bound(self.bits_le@);
            lemma_le_bits_top_bit(self.bits_le@);
            lemma_pow2_128();
            lemma_pow2_unfold(128);
            lemma2_to64_rest();
            lemma_pow2_adds(63, 64);
            if ((w - 1) as nat) < 127 {
                lemma_pow2_strictly_increases((w - 1) as nat, 127);
            }
        }
        if self.bits_le[w - 1] {
            if w == 128 {
                let diff = u128::MAX - raw;
                -(diff as i128) - 1
            } else {
                let mut modulus: u128 = 1;
                let mut k: usize = 0;
                proof {
                    vstd::arithmetic::power2::lemma2_to64();
                }
                while k < w
                    invariant
                        k <= w,
                        w < 128,
                        modulus as nat == pow2(k as nat),
                    decreases w - k,
                {
                    proof {
                        lemma_pow2_unfold((k + 1) as nat);
                        lemma_pow2_strictly_increases((k + 1) as nat, 128);
                        lemma_pow2_128();
                    }
                    modulus = modulus * 2;
                    k = k + 1;
                }
                proof {
                    if (w as nat) < 127 {
                        lemma_pow2_strictly_increases(w as nat, 127);
                    }
                }
                let diff = modulus - raw;
                -(diff as i128)
            }
        } else {
            raw as i128
        }
    }
}

} // verus!
