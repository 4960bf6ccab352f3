//! Facts about products and floor division that the pricing proofs share.

use vstd::prelude::*;

verus! {

/// The product of two 64-bit values fits in 128 bits.
pub proof fn lemma_product_fits(a: u64, b: u64)
    ensures
        0 <= a * b <= 0xffff_ffff_ffff_fffe_0000_0000_0000_0001,
        a * b <= u128::MAX,
{
    assert(0 <= a * b <= 0xffff_ffff_ffff_ffff * 0xffff_ffff_ffff_ffff) by (nonlinear_arith)
        requires
            0 <= a <= 0xffff_ffff_ffff_ffff,
            0 <= b <= 0xffff_ffff_ffff_ffff,
    ;
}

/// Floor division brackets the dividend: `q * d <= x < (q + 1) * d`.
pub proof fn lemma_div_bounds(x: int, d: int)
    requires
        0 <= x,
        0 < d,
    ensures
        0 <= x / d,
        (x / d) * d <= x < (x / d + 1) * d,
{
    assert(0 <= x / d && (x / d) * d <= x < (x / d + 1) * d) by (nonlinear_arith)
        requires
            0 <= x,
            0 < d,
    ;
}

/// A dividend below `q * d` has a quotient of at most `q`.
pub proof fn lemma_div_at_most(x: int, d: int, q: int)
    requires
        0 <= x,
        0 < d,
        x <= q * d,
    ensures
        x / d <= q,
{
    assert(x / d <= q) by (nonlinear_arith)
        requires
            0 <= x,
            0 < d,
            x <= q * d,
    ;
}

/// An exact multiple divides back to its factor.
pub proof fn lemma_div_exact(q: int, d: int)
    requires
        0 < d,
    ensures
        (q * d) / d == q,
{
    assert((q * d) / d == q) by (nonlinear_arith)
        requires
            0 < d,
    ;
}

/// A quotient by a positive divisor does not exceed the dividend.
pub proof fn lemma_div_no_larger(x: int, d: int)
    requires
        0 <= x,
        0 < d,
    ensures
        0 <= x / d <= x,
{
    assert(0 <= x / d <= x) by (nonlinear_arith)
        requires
            0 <= x,
            0 < d,
    ;
}

} // verus!
