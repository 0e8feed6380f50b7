//! Integer arithmetic underlying the economic formulas: an exact integer
//! square root (mining yield) and a fixed-point base-two logarithm from
//! which the defense-cooldown scaling is derived.

use vstd::prelude::*;
use vstd::arithmetic::power2::pow2;
use vstd::arithmetic::power2::lemma_pow2_pos;
use vstd::arithmetic::power2::lemma_pow2_unfold;
use vstd::arithmetic::power2::lemma_pow2_strictly_increases;
use vstd::arithmetic::power2::lemma2_to64;
use vstd::arithmetic::power2::lemma2_to64_rest;

verus! {

/// The integer square root of `n`: the greatest `r` with `r * r <= n`.
pub open spec fn spec_isqrt(n: nat) -> nat
    decreases n,
{
    if n == 0 {
        0
    } else {
        let r = spec_isqrt((n - 1) as nat);
        if (r + 1) * (r + 1) <= n {
            r + 1
        } else {
            r
        }
    }
}

pub proof fn lemma_isqrt_bounds(n: nat)
    ensures
        spec_isqrt(n) * spec_isqrt(n) <= n,
        n < (spec_isqrt(n) + 1) * (spec_isqrt(n) + 1),
    decreases n,
{
    if n == 0 {
        assert(spec_isqrt(0) == 0);
        assert((spec_isqrt(n) + 1) * (spec_isqrt(n) + 1) == 1) by (nonlinear_arith)
            requires
                spec_isqrt(n) == 0,
        ;
    } else {
        let m = (n - 1) as nat;
        lemma_isqrt_bounds(m);
        let r = spec_isqrt(m);
        assert(spec_isqrt(n) == if (r + 1) * (r + 1) <= n {
            r + 1
        } else {
            r
        });
        if (r + 1) * (r + 1) <= n {
            assert(spec_isqrt(n) == r + 1);
            assert(n < (r + 2) * (r + 2)) by (nonlinear_arith)
                requires
                    m < (r + 1) * (r + 1),
                    (r + 1) * (r + 1) <= n,
                    n == m + 1,
            ;
            assert((spec_isqrt(n) + 1) * (spec_isqrt(n) + 1) == (r + 2) * (r + 2));
        } else {
            assert(spec_isqrt(n) == r);
            assert((spec_isqrt(n) + 1) * (spec_isqrt(n) + 1) == (r + 1) * (r + 1))
                by (nonlinear_arith)
                requires
                    spec_isqrt(n) == r,
            ;
        }
    }
}

pub proof fn lemma_isqrt_unique(n: nat, r: nat)
    requires
        r * r <= n,
        n < (r + 1) * (r + 1),
    ensures
        r == spec_isqrt(n),
{
    let s = spec_isqrt(n);
    lemma_isqrt_bounds(n);
    assert(r == s) by (nonlinear_arith)
        requires
            r * r <= n,
            n < (r + 1) * (r + 1),
            s * s <= n,
            n < (s + 1) * (s + 1),
    ;
}

/// Integer square root by binary search.
pub fn isqrt_u128(n: u128) -> (r: u128)
    ensures
        r == spec_isqrt(n as nat),
{
    let mut lo: u128 = 0;
    let mut hi: u128 = if n >= 0xffff_ffff_ffff_ffff {
        0xffff_ffff_ffff_ffff
    } else {
        n
    };
    proof {
        assert(n < (hi + 1) * (hi + 1)) by (nonlinear_arith)
            requires
                hi <= 0xffff_ffff_ffff_ffff,
                n <= u128::MAX,
                hi == n || hi == 0xffff_ffff_ffff_ffff,
        ;
    }
    while lo < hi
        invariant
            lo <= hi,
            hi <= 0xffff_ffff_ffff_ffff,
            lo * lo <= n,
            n < (hi + 1) * (hi + 1),
        decreases hi - lo,
    {
        let mid: u128 = lo + (hi - lo + 1) / 2;
        proof {
            assert(lo < mid <= hi);
            assert(mid * mid <= 0xffff_ffff_ffff_ffff * 0xffff_ffff_ffff_ffff)
                by (nonlinear_arith)
                requires
                    mid <= 0xffff_ffff_ffff_ffff,
            ;
        }
        if mid * mid <= n {
            lo = mid;
        } else {
            hi = mid - 1;
        }
    }
    proof {
        lemma_isqrt_unique(n as nat, lo as nat);
    }
    lo
}

/// Position of the highest set bit of `n` (the floor of its base-two
/// logarithm); `0` for inputs below `2`.
pub open spec fn spec_msb(n: nat) -> nat
    decreases n,
{
    if n < 2 {
        0
    } else {
        1 + spec_msb(n / 2)
    }
}

/// The mantissa of `n` normalized into `[2^63, 2^64)` by doubling.
pub open spec fn spec_mantissa(m: nat) -> nat
    decreases 0x1_0000_0000_0000_0000 - m,
{
    if m == 0 {
        0
    } else if m >= 0x8000_0000_0000_0000 {
        m
    } else {
        spec_mantissa(2 * m)
    }
}

/// `count` binary fraction digits of the base-two logarithm of
/// `m / 2^63`, produced by repeated squaring of the mantissa.
pub open spec fn spec_log2_frac(m: nat, count: nat) -> nat
    decreases count,
{
    if count == 0 {
        0
    } else {
        let sq = (m * m) / 0x8000_0000_0000_0000;
        if sq >= 0x1_0000_0000_0000_0000 {
            pow2((count - 1) as nat) + spec_log2_frac(sq / 2, (count - 1) as nat)
        } else {
            spec_log2_frac(sq, (count - 1) as nat)
        }
    }
}

proof fn lemma_log2_frac_bound(m: nat, count: nat)
    ensures
        spec_log2_frac(m, count) < pow2(count),
    decreases count,
{
    if count == 0 {
        lemma2_to64();
    } else {
        let sq = (m * m) / 0x8000_0000_0000_0000;
        lemma_log2_frac_bound(sq / 2, (count - 1) as nat);
        lemma_log2_frac_bound(sq, (count - 1) as nat);
        lemma_pow2_unfold(count);
    }
}

/// The base-two logarithm of `k` in Q32 fixed point (32 fraction bits).
pub open spec fn spec_log2_q32(k: nat) -> nat {
    spec_msb(k) * 0x1_0000_0000 + spec_log2_frac(spec_mantissa(k), 32)
}

/// Scale factor turning a Q32 base-two logarithm into whole seconds of
/// cooldown: the integer part of `600 * ln(2) * 2^32`.
pub const LN2_TIMES_600_Q32: u64 = 1786226683091;

/// Defense-reconfiguration inertia in whole seconds for reputation `k`:
/// the natural logarithm of `k`, computed as a Q32 base-two logarithm and
/// rescaled, times 600, truncated to whole seconds. Zero when `k <= 1`.
pub open spec fn spec_inertia_seconds(k: nat) -> nat {
    if k == 0 {
        0
    } else {
        ((spec_log2_q32(k) * LN2_TIMES_600_Q32) / 0x1_0000_0000_0000_0000) as nat
    }
}

proof fn lemma_msb_pow2_lower(k: nat)
    requires
        1 <= k,
    ensures
        pow2(spec_msb(k)) <= k,
    decreases k,
{
    if k < 2 {
        lemma2_to64();
    } else {
        lemma_msb_pow2_lower(k / 2);
        lemma_pow2_unfold(1 + spec_msb(k / 2));
    }
}

proof fn lemma_msb_bound(k: nat)
    requires
        1 <= k < 0x1_0000_0000_0000_0000,
    ensures
        spec_msb(k) <= 63,
{
    lemma_msb_pow2_lower(k);
    if spec_msb(k) > 63 {
        lemma2_to64_rest();
        if spec_msb(k) > 64 {
            lemma_pow2_strictly_increases(64, spec_msb(k));
        }
        assert(false);
    }
}

/// The inertia fits comfortably in 16 bits for any 64-bit reputation.
pub proof fn lemma_inertia_bound(k: nat)
    requires
        k < 0x1_0000_0000_0000_0000,
    ensures
        spec_inertia_seconds(k) < 0x10000,
{
    if k != 0 {
        lemma_msb_bound(k);
        lemma_log2_frac_bound(spec_mantissa(k), 32);
        lemma2_to64();
        lemma2_to64_rest();
        assert(spec_log2_q32(k) <= 63 * 0x1_0000_0000 + 0xffff_ffff);
        assert(spec_log2_q32(k) * LN2_TIMES_600_Q32 < 0x10000 * 0x1_0000_0000_0000_0000)
            by (nonlinear_arith)
            requires
                spec_log2_q32(k) <= 63 * 0x1_0000_0000 + 0xffff_ffff,
        ;
    }
}

/// Defense-reconfiguration inertia in seconds for reputation `karma`.
pub fn inertia_seconds(karma: u64) -> (r: u64)
    ensures
        r == spec_inertia_seconds(karma as nat),
        r < 0x10000,
{
    proof {
        lemma_inertia_bound(karma as nat);
    }
    if karma == 0 {
        return 0;
    }
    // Exponent part: position of the highest set bit.
    let mut m: u64 = karma;
    let mut e: u64 = 0;
    proof {
        lemma2_to64();
    }
    while m >= 2
        invariant
            1 <= m,
            e <= 63,
            spec_msb(karma as nat) == e + spec_msb(m as nat),
            pow2(e as nat) * (m as nat) <= karma as nat,
        decreases m,
    {
        proof {
            lemma_pow2_unfold((e + 1) as nat);
            lemma_pow2_pos(e as nat);
            assert(pow2((e + 1) as nat) * ((m / 2) as nat) <= pow2(e as nat) * (m as nat))
                by (nonlinear_arith)
                requires
                    m >= 2,
                    pow2((e + 1) as nat) == 2 * pow2(e as nat),
            ;
        }
        m = m / 2;
        e = e + 1;
        proof {
            if e > 63 {
                lemma2_to64_rest();
                assert(pow2(64) * (m as nat) >= pow2(64) * 1) by (nonlinear_arith)
                    requires
                        m >= 1,
                ;
                assert(false);
            }
        }
    }
    assert(spec_msb(karma as nat) == e);
    // Mantissa normalized into [2^63, 2^64) by doubling.
    let mut mant: u128 = karma as u128;
    while mant < 0x8000_0000_0000_0000
        invariant
            1 <= mant < 0x1_0000_0000_0000_0000,
            spec_mantissa(karma as nat) == spec_mantissa(mant as nat),
        decreases 0x1_0000_0000_0000_0000 - mant,
    {
        mant = mant * 2;
    }
    let ghost mant0: nat = mant as nat;
    assert(spec_mantissa(karma as nat) == mant0);
    // 32 fraction bits of the base-two logarithm by repeated squaring.
    let mut frac: u64 = 0;
    let mut i: u64 = 0;
    proof {
        lemma2_to64();
    }
    while i < 32
        invariant
            i <= 32,
            mant < 0x1_0000_0000_0000_0000,
            frac < pow2(i as nat),
            spec_log2_frac(mant0, 32) == frac * pow2((32 - i) as nat) + spec_log2_frac(
                mant as nat,
                (32 - i) as nat,
            ),
        decreases 32 - i,
    {
        proof {
            assert(mant * mant <= 0xffff_ffff_ffff_ffff * 0xffff_ffff_ffff_ffff)
                by (nonlinear_arith)
                requires
                    mant <= 0xffff_ffff_ffff_ffff,
            ;
        }
        let sq: u128 = (mant * mant) / 0x8000_0000_0000_0000;
        let ghost c: nat = (32 - i) as nat;
        proof {
            lemma_pow2_unfold(c);
            lemma_pow2_unfold((i + 1) as nat);
            lemma2_to64();
            if i < 31 {
                lemma_pow2_strictly_increases(i as nat, 31);
            }
            assert(frac < 0x8000_0000);
        }
        if sq >= 0x1_0000_0000_0000_0000 {
            proof {
                assert((2 * frac + 1) * pow2((c - 1) as nat) == frac * pow2(c) + pow2(
                    (c - 1) as nat,
                )) by (nonlinear_arith)
                    requires
                        pow2(c) == 2 * pow2((c - 1) as nat),
                ;
            }
            frac = 2 * frac + 1;
            mant = sq / 2;
        } else {
            proof {
                assert((2 * frac) * pow2((c - 1) as nat) == frac * pow2(c)) by (nonlinear_arith)
                    requires
                        pow2(c) == 2 * pow2((c - 1) as nat),
                ;
            }
            frac = 2 * frac;
            mant = sq;
        }
        i = i + 1;
    }
    proof {
        lemma2_to64();
        assert(spec_log2_frac(mant as nat, 0) == 0);
        assert(frac * pow2(0) == frac * 1 == frac);
        assert(spec_log2_frac(mant0, 32) == frac);
    }
    let log2_q32: u128 = (e as u128) * 0x1_0000_0000 + (frac as u128);
    assert(log2_q32 == spec_log2_q32(karma as nat));
    let scaled: u128 = log2_q32 * (LN2_TIMES_600_Q32 as u128);
    let r: u64 = (scaled / 0x1_0000_0000_0000_0000) as u64;
    r
}

} // verus!
