//! Exact comparison of 128-bit products.
//!
//! The partial-fill rule compares `taking * m` against `making * t` with
//! full 256-bit precision, so that no fill can slip past the order's price
//! through overflow.  The product is carried as a high and a low 128-bit
//! half.

use vstd::arithmetic::div_mod::lemma_fundamental_div_mod;
use vstd::prelude::*;

verus! {

/// Two to the sixty-fourth: the base of the limb decomposition.
pub const LIMB_BASE: u128 = 0x1_0000_0000_0000_0000;

/// The full product of two unsigned 128-bit values, as a high and a low
/// 128-bit half.
pub fn mul_wide(a: u128, b: u128) -> (r: (u128, u128))
    ensures
        r.0 * 0x1_0000_0000_0000_0000_0000_0000_0000_0000 + r.1 == a * b,
{
    let ghost k: int = (LIMB_BASE as int);
    let al = a % LIMB_BASE;
    let ah = a / LIMB_BASE;
    let bl = b % LIMB_BASE;
    let bh = b / LIMB_BASE;
    proof {
        lemma_fundamental_div_mod((a as int), k);
        lemma_fundamental_div_mod((b as int), k);
        assert(((ah as int) < k) && ((bh as int) < k)) by (nonlinear_arith)
            requires
                (a as int) == (ah as int) * k + (al as int),
                (b as int) == (bh as int) * k + (bl as int),
                0 <= (al as int),
                0 <= (bl as int),
                0 <= (ah as int),
                0 <= (bh as int),
                (a as int) < k * k,
                (b as int) < k * k,
                k == 0x1_0000_0000_0000_0000;
        assert((al as int) * (bl as int) <= (k - 1) * (k - 1)
            && (al as int) * (bh as int) <= (k - 1) * (k - 1)
            && (ah as int) * (bl as int) <= (k - 1) * (k - 1)
            && (ah as int) * (bh as int) <= (k - 1) * (k - 1)) by (nonlinear_arith)
            requires
                0 <= (al as int) < k,
                0 <= (ah as int) < k,
                0 <= (bl as int) < k,
                0 <= (bh as int) < k;
        assert((k - 1) * (k - 1) <= u128::MAX) by (nonlinear_arith)
            requires
                k == 0x1_0000_0000_0000_0000;
    }
    let p00 = al * bl;
    let p01 = al * bh;
    let p10 = ah * bl;
    let p11 = ah * bh;
    proof {
        lemma_fundamental_div_mod((p00 as int), k);
        lemma_fundamental_div_mod((p01 as int), k);
        lemma_fundamental_div_mod((p10 as int), k);
        lemma_fundamental_div_mod((p11 as int), k);
        assert((p00 as int) / k < k && (p01 as int) / k < k && (p10 as int) / k < k
            && (p11 as int) / k < k) by (nonlinear_arith)
            requires
                0 <= (p00 as int) <= (k - 1) * (k - 1),
                0 <= (p01 as int) <= (k - 1) * (k - 1),
                0 <= (p10 as int) <= (k - 1) * (k - 1),
                0 <= (p11 as int) <= (k - 1) * (k - 1),
                k == 0x1_0000_0000_0000_0000;
    }
    let c0 = p00 % LIMB_BASE;
    let t1 = p00 / LIMB_BASE + p01 % LIMB_BASE + p10 % LIMB_BASE;
    let c1 = t1 % LIMB_BASE;
    let t2 = t1 / LIMB_BASE + p01 / LIMB_BASE + p10 / LIMB_BASE + p11 % LIMB_BASE;
    let c2 = t2 % LIMB_BASE;
    let t3 = t2 / LIMB_BASE + p11 / LIMB_BASE;
    proof {
        lemma_fundamental_div_mod((t1 as int), k);
        lemma_fundamental_div_mod((t2 as int), k);
        let ab = (a as int) * (b as int);
        assert(ab == ((ah as int) * (bh as int)) * k * k
            + ((al as int) * (bh as int) + (ah as int) * (bl as int)) * k
            + (al as int) * (bl as int)) by (nonlinear_arith)
            requires
                (a as int) == (ah as int) * k + (al as int),
                (b as int) == (bh as int) * k + (bl as int),
                ab == (a as int) * (b as int);
        // Regroup the limb products through the carry chain, one carry at
        // a time.
        let q00 = (p00 as int) / k;
        let r00 = (p00 as int) % k;
        let q01 = (p01 as int) / k;
        let r01 = (p01 as int) % k;
        let q10 = (p10 as int) / k;
        let r10 = (p10 as int) % k;
        let q11 = (p11 as int) / k;
        let r11 = (p11 as int) % k;
        let qt1 = (t1 as int) / k;
        let qt2 = (t2 as int) / k;
        assert(ab == (p11 as int) * k * k + ((p01 as int) + (p10 as int)) * k
            + (p00 as int)) by (nonlinear_arith)
            requires
                ab == ((ah as int) * (bh as int)) * k * k
                    + ((al as int) * (bh as int) + (ah as int) * (bl as int)) * k
                    + (al as int) * (bl as int),
                (p00 as int) == (al as int) * (bl as int),
                (p01 as int) == (al as int) * (bh as int),
                (p10 as int) == (ah as int) * (bl as int),
                (p11 as int) == (ah as int) * (bh as int);
        assert(ab == (p11 as int) * k * k + (q01 + q10) * k * k
            + (q00 + r01 + r10) * k + r00) by (nonlinear_arith)
            requires
                ab == (p11 as int) * k * k + ((p01 as int) + (p10 as int)) * k
                    + (p00 as int),
                (p00 as int) == k * q00 + r00,
                (p01 as int) == k * q01 + r01,
                (p10 as int) == k * q10 + r10;
        assert((q00 + r01 + r10) * k == qt1 * k * k + (c1 as int) * k) by (nonlinear_arith)
            requires
                (t1 as int) == q00 + r01 + r10,
                (t1 as int) == k * qt1 + (c1 as int);
        assert((p11 as int) * k * k == q11 * k * k * k + r11 * k * k) by (nonlinear_arith)
            requires
                (p11 as int) == k * q11 + r11;
        assert(ab == q11 * k * k * k + (qt1 + q01 + q10 + r11) * k * k
            + (c1 as int) * k + (c0 as int)) by (nonlinear_arith)
            requires
                ab == (p11 as int) * k * k + (q01 + q10) * k * k
                    + (q00 + r01 + r10) * k + r00,
                (q00 + r01 + r10) * k == qt1 * k * k + (c1 as int) * k,
                (p11 as int) * k * k == q11 * k * k * k + r11 * k * k,
                (c0 as int) == r00;
        assert((qt1 + q01 + q10 + r11) * k * k
            == qt2 * k * k * k + (c2 as int) * k * k) by (nonlinear_arith)
            requires
                (t2 as int) == qt1 + q01 + q10 + r11,
                (t2 as int) == k * qt2 + (c2 as int);
        assert(ab == (((t3 as int) * k + (c2 as int)) * k * k)
            + ((c1 as int) * k + (c0 as int))) by (nonlinear_arith)
            requires
                ab == q11 * k * k * k + (qt1 + q01 + q10 + r11) * k * k
                    + (c1 as int) * k + (c0 as int),
                (qt1 + q01 + q10 + r11) * k * k
                    == qt2 * k * k * k + (c2 as int) * k * k,
                (t3 as int) == qt2 + q11;
        assert((t3 as int) * k + (c2 as int) < k * k) by (nonlinear_arith)
            requires
                (a as int) * (b as int) == (((t3 as int) * k + (c2 as int)) * k * k)
                    + ((c1 as int) * k + (c0 as int)),
                (a as int) <= k * k - 1,
                (b as int) <= k * k - 1,
                0 <= (a as int),
                0 <= (b as int),
                0 <= (c0 as int) < k,
                0 <= (c1 as int) < k,
                0 <= (c2 as int),
                0 <= (t3 as int),
                k == 0x1_0000_0000_0000_0000;
        assert((t3 as int) * (LIMB_BASE as int) + (c2 as int) <= u128::MAX) by (nonlinear_arith)
            requires
                (t3 as int) * k + (c2 as int) < k * k,
                k == (LIMB_BASE as int),
                k == 0x1_0000_0000_0000_0000;
        assert((c1 as int) * (LIMB_BASE as int) + (c0 as int) <= u128::MAX) by (nonlinear_arith)
            requires
                0 <= (c0 as int) < k,
                0 <= (c1 as int) < k,
                k == (LIMB_BASE as int),
                k == 0x1_0000_0000_0000_0000;
    }
    let hi = t3 * LIMB_BASE + c2;
    let lo = c1 * LIMB_BASE + c0;
    proof {
        assert((hi as int) * 0x1_0000_0000_0000_0000_0000_0000_0000_0000 + (lo as int)
            == (a as int) * (b as int)) by (nonlinear_arith)
            requires
                (a as int) * (b as int) == (((t3 as int) * k + (c2 as int)) * k * k)
                    + ((c1 as int) * k + (c0 as int)),
                (hi as int) == (t3 as int) * k + (c2 as int),
                (lo as int) == (c1 as int) * k + (c0 as int),
                k * k == 0x1_0000_0000_0000_0000_0000_0000_0000_0000;
    }
    (hi, lo)
}

/// Whether `a * b == c * d`, compared with full 256-bit precision.
pub fn products_equal(a: u128, b: u128, c: u128, d: u128) -> (r: bool)
    ensures
        r == (a * b == c * d),
{
    let (h1, l1) = mul_wide(a, b);
    let (h2, l2) = mul_wide(c, d);
    proof {
        if h1 != h2 || l1 != l2 {
            assert((h1 as int) * 0x1_0000_0000_0000_0000_0000_0000_0000_0000 + (l1 as int)
                != (h2 as int) * 0x1_0000_0000_0000_0000_0000_0000_0000_0000 + (l2 as int))
                by (nonlinear_arith)
                requires
                    (h1 as int) != (h2 as int) || (l1 as int) != (l2 as int),
                    0 <= (l1 as int) < 0x1_0000_0000_0000_0000_0000_0000_0000_0000,
                    0 <= (l2 as int) < 0x1_0000_0000_0000_0000_0000_0000_0000_0000,
                    0 <= (h1 as int),
                    0 <= (h2 as int);
        }
    }
    h1 == h2 && l1 == l2
}

} // verus!
