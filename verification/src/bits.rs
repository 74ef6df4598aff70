//! Exact single-precision bit patterns for half-integer values.
//!
//! The grid placement of the demo game only ever needs coordinates of
//! the form `n / 2` for a small integer `n` (cell centers sit on half
//! units).  Every such value is exactly representable in IEEE-754
//! single precision, so its bit pattern can be computed — and verified
//! — with integer arithmetic alone, and the renderer on the other side
//! of the boundary reads the very number the game meant.

use vstd::prelude::*;

use vstd::arithmetic::div_mod::lemma_div_multiples_vanish;
use vstd::arithmetic::mul::lemma_mul_strict_inequality;
use vstd::arithmetic::power2::{
    lemma2_to64, lemma_pow2_adds, lemma_pow2_pos, lemma_pow2_strictly_increases, pow2,
};

verus! {

/// Position of the highest set bit: `pow2(msb(v)) <= v < pow2(msb(v) + 1)`
/// for `v >= 1`.
pub open spec fn msb(v: nat) -> nat
    decreases v,
{
    if v < 2 {
        0
    } else {
        1 + msb(v / 2)
    }
}

/// `msb` brackets its argument between two powers of two.
pub proof fn lemma_msb_bounds(v: nat)
    requires
        v >= 1,
    ensures
        pow2(msb(v)) <= v < pow2(msb(v) + 1),
    decreases v,
{
    if v < 2 {
        lemma2_to64();
    } else {
        lemma_msb_bounds(v / 2);
        let m = msb(v / 2);
        assert(pow2(m + 1) == 2 * pow2(m)) by {
            lemma_pow2_adds(m, 1);
            lemma2_to64();
        }
        assert(pow2(m + 2) == 2 * pow2(m + 1)) by {
            lemma_pow2_adds(m + 1, 1);
            lemma2_to64();
        }
    }
}

/// The bracketing determines `msb` uniquely.
pub proof fn lemma_msb_unique(v: nat, m: nat)
    requires
        v >= 1,
        pow2(m) <= v < pow2(m + 1),
    ensures
        msb(v) == m,
{
    lemma_msb_bounds(v);
    let k = msb(v);
    if k < m {
        if k + 1 < m {
            lemma_pow2_strictly_increases(k + 1, m);
        }
        assert(pow2(k + 1) <= pow2(m));
        assert(false);
    } else if m < k {
        if m + 1 < k {
            lemma_pow2_strictly_increases(m + 1, k);
        }
        assert(pow2(m + 1) <= pow2(k));
        assert(false);
    }
}

/// The IEEE-754 single-precision bit pattern of the value `n / 2`,
/// defined for `|n| < pow2(24)` (where the value is exactly
/// representable): sign bit, biased exponent, and the mantissa with its
/// hidden leading bit removed.
pub open spec fn bits_of_half(n: int) -> u32 {
    if n == 0 {
        0u32
    } else {
        let v = (if n < 0 {
            -n
        } else {
            n
        }) as nat;
        let m = msb(v);
        let sign: int = if n < 0 {
            0x8000_0000
        } else {
            0
        };
        (sign + (125 + m) * pow2(23) + v * pow2((23 - m) as nat)) as u32
    }
}

/// Computes `bits_of_half(n)` with integer arithmetic.
pub fn half_to_bits(n: i32) -> (r: u32)
    requires
        -0x0100_0000 < n < 0x0100_0000,
    ensures
        r == bits_of_half(n as int),
{
    if n == 0 {
        return 0;
    }
    let neg = n < 0;
    let v: u32 = if neg {
        (-n) as u32
    } else {
        n as u32
    };
    proof {
        lemma2_to64();
    }
    let mut m: u32 = 0;
    let mut p: u32 = 1;
    while 2 * p <= v
        invariant
            1 <= v < 0x0100_0000,
            p == pow2(m as nat),
            p <= v,
            m <= 23,
        decreases v - p,
    {
        proof {
            lemma_pow2_adds(m as nat, 1);
            lemma2_to64();
            if m >= 23 {
                // v < pow2(24) rules the step out
                lemma_pow2_strictly_increases(24, m as nat + 1);
                assert(false);
            }
        }
        p = 2 * p;
        m = m + 1;
    }
    proof {
        lemma_pow2_adds(m as nat, 1);
        lemma2_to64();
        lemma_msb_unique(v as nat, m as nat);
    }
    let scale: u32 = 0x0080_0000 / p;
    proof {
        lemma_pow2_adds(m as nat, (23 - m) as nat);
        lemma_pow2_pos((23 - m) as nat);
        lemma_div_multiples_vanish(pow2((23 - m) as nat) as int, pow2(m as nat) as int);
        assert(scale == pow2((23 - m) as nat));
    }
    proof {
        // v < pow2(m + 1), so v * pow2(23 - m) < pow2(24)
        lemma_mul_strict_inequality(v as int, pow2(m as nat + 1) as int, scale as int);
        lemma_pow2_adds(m as nat + 1, (23 - m) as nat);
        lemma_pow2_pos(m as nat + 1);
        lemma2_to64();
        assert((v as int) * (scale as int) < 0x0100_0000);
    }
    let mant: u32 = v * scale;
    let exp: u32 = (125 + m) * 0x0080_0000;
    let r: u32 = if neg {
        0x8000_0000u32 + exp + mant
    } else {
        exp + mant
    };
    proof {
        assert(exp == (125 + m as nat) * pow2(23));
        assert(r == bits_of_half(n as int));
    }
    r
}

} // verus!
