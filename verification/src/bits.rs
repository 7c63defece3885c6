//! The arithmetic meaning of a little-endian bit sequence, and the facts
//! about truncation, extension and the top bit that the gadget contracts
//! rest on.

use vstd::prelude::*;

verus! {

use vstd::arithmetic::power2::{
    pow2, lemma_pow2_unfold, lemma_pow2_pos, lemma_pow2_adds, lemma_pow2_strictly_increases,
    lemma2_to64, lemma2_to64_rest,
};
use vstd::arithmetic::div_mod::lemma_fundamental_div_mod_converse;

/// The value a little-endian bit sequence stands for: bit `i` carries
/// weight `2^i`.
pub open spec fn le_bits_to_nat(bits: Seq<bool>) -> nat
    decreases bits.len(),
{
    if bits.len() == 0 {
        0
    } else {
        (if bits[0] {
            1nat
        } else {
            0nat
        }) + 2 * le_bits_to_nat(bits.subrange(1, bits.len() as int))
    }
}

/// A sequence of `n` bits stands for a value below `2^n`.
pub proof fn lemma_le_bits_bound(bits: Seq<bool>)
    ensures
        le_bits_to_nat(bits) < pow2(bits.len()),
    decreases bits.len(),
{
    if bits.len() == 0 {
        lemma2_to64();
    } else {
        let rest = bits.subrange(1, bits.len() as int);
        lemma_le_bits_bound(rest);
        lemma_pow2_unfold(bits.len());
    }
}

/// Splitting a bit sequence at position `w` splits its value: the low part
/// keeps its value, the high part is scaled by `2^w`.
pub proof fn lemma_le_bits_split(bits: Seq<bool>, w: nat)
    requires
        w <= bits.len(),
    ensures
        le_bits_to_nat(bits) == le_bits_to_nat(bits.take(w as int)) + pow2(w) * le_bits_to_nat(
            bits.skip(w as int),
        ),
    decreases w,
{
    if w == 0 {
        assert(bits.take(0) =~= Seq::<bool>::empty());
        assert(bits.skip(0) =~= bits);
        lemma2_to64();
    } else {
        let rest = bits.subrange(1, bits.len() as int);
        lemma_le_bits_split(rest, (w - 1) as nat);
        assert(bits.take(w as int).subrange(1, w as int) =~= rest.take(w - 1));
        assert(bits.skip(w as int) =~= rest.skip(w - 1));
        lemma_pow2_unfold(w);
        let a = le_bits_to_nat(rest.take(w - 1));
        let b = le_bits_to_nat(rest.skip(w - 1));
        let p = pow2((w - 1) as nat);
        assert(2 * (a + p * b) == 2 * a + (2 * p) * b) by (nonlinear_arith);
    }
}

/// Keeping the `w` low-order bits of a sequence keeps exactly the value
/// reduced modulo `2^w`.
pub proof fn lemma_le_bits_take_mod(bits: Seq<bool>, w: nat)
    requires
        w <= bits.len(),
    ensures
        le_bits_to_nat(bits.take(w as int)) == le_bits_to_nat(bits) % pow2(w),
{
    lemma_le_bits_split(bits, w);
    lemma_le_bits_bound(bits.take(w as int));
    lemma_pow2_pos(w);
    let v = le_bits_to_nat(bits) as int;
    let p = pow2(w) as int;
    let lo = le_bits_to_nat(bits.take(w as int)) as int;
    let hi = le_bits_to_nat(bits.skip(w as int)) as int;
    assert(p * hi == hi * p) by (nonlinear_arith);
    lemma_fundamental_div_mod_converse(v, p, hi, lo);
}

/// Appending a bit at the most-significant end adds its weight and nothing
/// else.
pub proof fn lemma_le_bits_push(bits: Seq<bool>, b: bool)
    ensures
        le_bits_to_nat(bits.push(b)) == le_bits_to_nat(bits) + (if b {
            pow2(bits.len())
        } else {
            0nat
        }),
    decreases bits.len(),
{
    let empty: Seq<bool> = Seq::empty();
    assert(le_bits_to_nat(empty) == 0);
    if bits.len() == 0 {
        assert(bits.push(b).subrange(1, 1) =~= empty);
        assert(le_bits_to_nat(bits.push(b)) == (if bits.push(b)[0] {
            1nat
        } else {
            0nat
        }) + 2 * le_bits_to_nat(bits.push(b).subrange(1, 1)));
        lemma2_to64();
    } else {
        let rest = bits.subrange(1, bits.len() as int);
        lemma_le_bits_push(rest, b);
        assert(bits.push(b).subrange(1, (bits.len() + 1) as int) =~= rest.push(b));
        assert(le_bits_to_nat(bits.push(b)) == (if bits.push(b)[0] {
            1nat
        } else {
            0nat
        }) + 2 * le_bits_to_nat(rest.push(b)));
        assert(bits.push(b)[0] == bits[0]);
        lemma_pow2_unfold(bits.len());
    }
}

/// The last bit of a little-endian sequence, its most significant, is set
/// exactly when the value reaches `2^(n-1)`.
pub proof fn lemma_le_bits_top_bit(bits: Seq<bool>)
    requires
        bits.len() > 0,
    ensures
        bits[bits.len() - 1] <==> le_bits_to_nat(bits) >= pow2((bits.len() - 1) as nat),
{
    let n = (bits.len() - 1) as nat;
    lemma_le_bits_split(bits, n);
    lemma_le_bits_bound(bits.take(n as int));
    let top = bits.skip(n as int);
    assert(top.len() == 1);
    assert(top[0] == bits[bits.len() - 1]);
    let empty: Seq<bool> = Seq::empty();
    assert(le_bits_to_nat(empty) == 0);
    assert(top.subrange(1, 1) =~= empty);
    assert(le_bits_to_nat(top) == (if top[0] {
        1nat
    } else {
        0nat
    }) + 2 * le_bits_to_nat(top.subrange(1, 1)));
    lemma_pow2_pos(n);
    if top[0] {
        assert(pow2(n) * le_bits_to_nat(top) == pow2(n)) by (nonlinear_arith)
            requires
                le_bits_to_nat(top) == 1,
        ;
    } else {
        assert(pow2(n) * le_bits_to_nat(top) == 0) by (nonlinear_arith)
            requires
                le_bits_to_nat(top) == 0,
        ;
    }
}

/// `2^128` written out: one above the largest value a 128-bit word holds.
pub proof fn lemma_pow2_128()
    ensures
        pow2(128) == 0x100000000000000000000000000000000nat,
{
    lemma2_to64_rest();
    lemma_pow2_adds(64, 64);
}

/// Every 128-bit word sits below `2^e` for any width `e` of at least 128.
pub proof fn lemma_u128_below_pow2(v: u128, e: nat)
    requires
        e >= 128,
    ensures
        (v as nat) < pow2(e),
{
    lemma_pow2_128();
    if e > 128 {
        lemma_pow2_strictly_increases(128, e);
    }
}

} // verus!
