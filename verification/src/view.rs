//! What the pipelines know of the place of an object on the screen, and the
//! key by which its depth is ordered.

use vstd::prelude::*;
use vstd::arithmetic::mul::{lemma_mul_inequality, lemma_mul_strict_inequality};
use vstd::arithmetic::power2::{lemma_pow2_pos, lemma_pow2_strictly_increases, pow2};
use crate::Single;

verus! {

/// Standard view information for an object. Matrices are held column by
/// column.
#[derive(Clone, Copy, Debug, PartialEq)]
pub struct Info<S> {
    /// Vertex -> clip transform.
    pub mx_vertex: [[S; 4]; 4],
    /// Vertex -> world transform.
    pub mx_world: [[S; 4]; 4],
    /// Normal -> world transform.
    pub mx_normal: [[S; 3]; 3],
}

impl<S: Copy> Info<S> {
    /// Puts the three transforms of an object together.
    pub fn new(mx_vertex: [[S; 4]; 4], mx_world: [[S; 4]; 4], mx_normal: [[S; 3]; 3]) -> (info:
        Info<S>)
        ensures
            info.mx_vertex == mx_vertex,
            info.mx_world == mx_world,
            info.mx_normal == mx_normal,
    {
        Info { mx_vertex, mx_world, mx_normal }
    }

    /// The two entries of the clip transform whose quotient is the depth of
    /// the object: the third and the fourth entry of the last column.
    pub open spec fn depth_terms_of(self) -> (S, S) {
        (self.mx_vertex[3][2], self.mx_vertex[3][3])
    }

    /// Hands out the dividend and the divisor of the depth. The depth is
    /// the first divided by the second: the place of the object's origin
    /// along the view axis after the homogeneous divide. It serves for
    /// ordering only.
    pub fn depth_terms(&self) -> (terms: (S, S))
        ensures
            terms == self.depth_terms_of(),
    {
        (self.mx_vertex[3][2], self.mx_vertex[3][3])
    }
}

/// An integer that orders depths as the numbers themselves are ordered.
pub type DepthKey = i32;

/// The bit pattern without its sign bit.
pub open spec fn magnitude(bits: Single) -> int {
    bits as int % 0x8000_0000
}

/// Whether the sign bit is set.
pub open spec fn negative(bits: Single) -> bool {
    bits >= 0x8000_0000
}

/// Whether the bit pattern stands for no number at all: the exponent is all
/// ones and the fraction is not zero.
pub open spec fn not_a_number(bits: Single) -> bool {
    magnitude(bits) > 0x7f80_0000
}

/// The key of a number given by its bit pattern. Numbers of one sign are
/// ordered as their magnitudes are, the negative ones in reverse, and both
/// zeros have the key zero.
pub open spec fn key_of(bits: Single) -> int {
    if negative(bits) {
        -magnitude(bits)
    } else {
        magnitude(bits)
    }
}

/// Computes the key by which a depth is ordered. There is a key for every
/// number, the two infinities included, and none for a pattern that is not a
/// number.
pub fn depth_key(bits: Single) -> (key: Option<DepthKey>)
    ensures
        not_a_number(bits) <==> key is None,
        key matches Some(k) ==> k == key_of(bits),
{
    let mag: u32 = bits & 0x7fff_ffff;
    let sign: u32 = bits & 0x8000_0000;
    assert(mag == bits % 0x8000_0000) by (bit_vector)
        requires
            mag == bits & 0x7fff_ffff,
    ;
    assert((sign != 0) == (bits >= 0x8000_0000)) by (bit_vector)
        requires
            sign == bits & 0x8000_0000,
    ;
    if mag > 0x7f80_0000 {
        None
    } else if sign != 0 {
        Some(-(mag as i32))
    } else {
        Some(mag as i32)
    }
}

/// The exponent field of a bit pattern.
pub open spec fn exponent(bits: Single) -> int {
    magnitude(bits) / 0x80_0000
}

/// The fraction field of a bit pattern.
pub open spec fn fraction(bits: Single) -> int {
    magnitude(bits) % 0x80_0000
}

/// Whether the bit pattern stands for a number that is not infinite.
pub open spec fn finite(bits: Single) -> bool {
    exponent(bits) < 0xff
}

/// The absolute value of a finite number, as a multiple of the smallest
/// positive number that a bit pattern stands for.
pub open spec fn size(bits: Single) -> int {
    if exponent(bits) == 0 {
        fraction(bits)
    } else {
        (0x80_0000 + fraction(bits)) * pow2((exponent(bits) - 1) as nat)
    }
}

/// The finite number that a bit pattern stands for, as a multiple of the
/// smallest positive number.
pub open spec fn value(bits: Single) -> int {
    if negative(bits) {
        -size(bits)
    } else {
        size(bits)
    }
}

/// Between the sizes of the numbers of one exponent and those of the next
/// exponent lies a power of two.
proof fn lemma_size_bounds(bits: Single)
    requires
        finite(bits),
    ensures
        0 <= size(bits) < 0x80_0000 * pow2(exponent(bits) as nat),
        exponent(bits) > 0 ==> 0x80_0000 * pow2((exponent(bits) - 1) as nat) <= size(bits),
{
    let e = exponent(bits);
    let f = fraction(bits);
    if e == 0 {
        lemma_pow2_pos(0);
    } else {
        let p = pow2((e - 1) as nat) as int;
        lemma_pow2_pos((e - 1) as nat);
        assert(pow2(e as nat) == 2 * pow2((e - 1) as nat)) by {
            vstd::arithmetic::power2::lemma_pow2_unfold(e as nat);
        }
        lemma_mul_inequality(0x80_0000, 0x80_0000 + f, p);
        lemma_mul_strict_inequality(0x80_0000 + f, 0x100_0000, p);
        assert(0x100_0000 * p == 0x80_0000 * (2 * p)) by (nonlinear_arith);
    }
}

/// Of two finite numbers the one with the greater magnitude field has the
/// greater size.
proof fn lemma_size_grows(a: Single, b: Single)
    requires
        finite(a),
        finite(b),
        magnitude(a) < magnitude(b),
    ensures
        size(a) < size(b),
{
    let (ea, eb) = (exponent(a), exponent(b));
    lemma_size_bounds(a);
    lemma_size_bounds(b);
    if ea == eb {
        if ea > 0 {
            lemma_pow2_pos((ea - 1) as nat);
            lemma_mul_strict_inequality(
                0x80_0000 + fraction(a),
                0x80_0000 + fraction(b),
                pow2((ea - 1) as nat) as int,
            );
        }
    } else {
        assert(ea < eb);
        let low = pow2(ea as nat) as int;
        let high = pow2((eb - 1) as nat) as int;
        if ea < eb - 1 {
            lemma_pow2_strictly_increases(ea as nat, (eb - 1) as nat);
        }
        assert(low <= high);
        lemma_mul_inequality(low, high, 0x80_0000);
        assert(0x80_0000 * low == low * 0x80_0000) by (nonlinear_arith);
        assert(0x80_0000 * high == high * 0x80_0000) by (nonlinear_arith);
    }
}

/// The keys of two finite numbers are ordered as the numbers are, and they
/// are the same where the numbers are equal.
pub proof fn lemma_keys_order_as_numbers_do(a: Single, b: Single)
    requires
        finite(a),
        finite(b),
    ensures
        key_of(a) < key_of(b) <==> value(a) < value(b),
        key_of(a) == key_of(b) <==> value(a) == value(b),
{
    lemma_size_bounds(a);
    lemma_size_bounds(b);
    if magnitude(a) < magnitude(b) {
        lemma_size_grows(a, b);
    } else if magnitude(b) < magnitude(a) {
        lemma_size_grows(b, a);
    } else {
        assert(exponent(a) == exponent(b) && fraction(a) == fraction(b));
    }
    lemma_size_of_zero(a);
    lemma_size_of_zero(b);
}

/// Only the two zeros have the size zero.
proof fn lemma_size_of_zero(bits: Single)
    requires
        finite(bits),
    ensures
        size(bits) == 0 <==> magnitude(bits) == 0,
{
    lemma_size_bounds(bits);
    if exponent(bits) > 0 {
        lemma_pow2_pos((exponent(bits) - 1) as nat);
        lemma_mul_strict_inequality(0, 0x80_0000, pow2((exponent(bits) - 1) as nat) as int);
    }
}

/// The key of an infinite number lies beyond the keys of all finite
/// numbers, on the side of its sign.
pub proof fn lemma_infinities_are_outermost(a: Single)
    requires
        finite(a),
    ensures
        key_of(0xff80_0000) < key_of(a) < key_of(0x7f80_0000),
        !not_a_number(0x7f80_0000) && !finite(0x7f80_0000),
        !not_a_number(0xff80_0000) && !finite(0xff80_0000),
{
}

/// Both zeros have the same key.
pub proof fn lemma_zeros_share_a_key()
    ensures
        key_of(0x0000_0000) == 0,
        key_of(0x8000_0000) == 0,
{
}

/// Changing the sign of a number negates its key.
pub proof fn lemma_negation_negates_the_key(bits: Single)
    ensures
        key_of(if negative(bits) { (bits - 0x8000_0000) as u32 } else { (bits + 0x8000_0000) as u32 })
            == -key_of(bits),
{
}

} // verus!
