//! The segmentation planner: pure arithmetic that converts a signal length, a
//! requested segment count, an overlap fraction and a maximum transform size
//! into a concrete segmentation plan.
//!
//! The overlap fraction `a` is an exact rational `num / den` with
//! `0 <= num < den`. For a signal of length `n` and a requested segment count
//! `k0`, the derived segment length solves `n = k*l - (k-1)*l*a` for `l`:
//! `l0 = trunc(n / (k0*(1-a) + a)) = trunc(n*den / (k0*(den-num) + num))`.
//! The transform size is the smallest power of two at least `l0`, unless that
//! exceeds the configured cap: then the segment length is clamped to the cap,
//! the transform needs no padding, and the segment count is recomputed by
//! solving the same equation for `k`:
//! `k = trunc((n - l*a) / (l*(1-a))) = trunc((n*den - l*num) / (l*(den-num)))`.
//! The stride between consecutive segment starts is `d = l - round(l*a)`,
//! rounding half away from zero.

use vstd::prelude::*;
use vstd::arithmetic::power2::{pow2, is_pow2, is_pow2_exists, is_pow2_equiv};
use vstd::arithmetic::power::{pow, lemma_pow_increases};
use vstd::arithmetic::div_mod::{
    lemma_div_is_ordered, lemma_div_is_ordered_by_denominator, lemma_div_multiples_vanish,
    lemma_div_multiples_vanish_fancy, lemma_fundamental_div_mod, lemma_div_pos_is_pos,
};
use crate::WelchError;

verus! {

/// A concrete segmentation of a signal: `n_segment` segments of
/// `segment_size` samples, starting at multiples of `stride`, each zero-padded
/// to `dft_size` before the transform.
pub struct SegmentationPlan {
    /// number of segments (`k`)
    pub n_segment: usize,
    /// size of each segment (`l`)
    pub segment_size: usize,
    /// size of the discrete Fourier transform (`m`)
    pub dft_size: usize,
    /// offset between consecutive segment starting points (`d`)
    pub stride: usize,
}

/// Whether staged parameters admit deriving a segment length: a positive
/// segment count and an overlap rational in `[0, 1)`.
pub open spec fn sp_params_valid(k: usize, num: u32, den: u32) -> bool {
    1 <= k && 1 <= den && num < den
}

/// `k*(1-a) + a` scaled by `den`: the denominator of the segment-length
/// equation.
pub open spec fn sp_denom(k: int, num: int, den: int) -> int {
    k * (den - num) + num
}

/// The derived segment length `l0 = trunc(n*den / (k*(den-num) + num))`.
pub open spec fn sp_l0(n: int, k: int, num: int, den: int) -> int {
    (n * den) / sp_denom(k, num, den)
}

/// `round(l * num/den)`, rounding half away from zero (both factors are
/// non-negative, so this is rounding half up).
pub open spec fn sp_round_overlap(l: int, num: int, den: int) -> int {
    (2 * l * num + den) / (2 * den)
}

/// The stride `d = l - round(l*a)` between consecutive segment starts.
pub open spec fn sp_stride(l: int, num: int, den: int) -> int {
    l - sp_round_overlap(l, num, den)
}

/// The recomputed segment count of the capped branch,
/// `k = trunc((n*den - l*num) / (l*(den-num)))`, taken as zero when the
/// numerator is negative (a truncated negative quotient clamps to zero).
pub open spec fn sp_cap_k(n: int, l: int, num: int, den: int) -> int {
    if n * den < l * num {
        0
    } else {
        (n * den - l * num) / (l * (den - num))
    }
}

/// Whether the derived segment length demands a transform larger than the
/// cap: since the cap is a power of two, the smallest power of two at least
/// `l0` exceeds the cap exactly when `l0` itself does.
pub open spec fn sp_capped(n: int, k0: int, num: int, den: int, max_m: int) -> bool {
    sp_l0(n, k0, num, den) > max_m
}

/// The final segment length: the derived one, or the cap.
pub open spec fn sp_plan_l(n: int, k0: int, num: int, den: int, max_m: int) -> int {
    if sp_capped(n, k0, num, den, max_m) {
        max_m
    } else {
        sp_l0(n, k0, num, den)
    }
}

/// The final segment count: the requested one, or the recomputed one.
pub open spec fn sp_plan_k(n: int, k0: int, num: int, den: int, max_m: int) -> int {
    if sp_capped(n, k0, num, den, max_m) {
        sp_cap_k(n, max_m, num, den)
    } else {
        k0
    }
}

/// The final stride.
pub open spec fn sp_plan_d(n: int, k0: int, num: int, den: int, max_m: int) -> int {
    sp_stride(sp_plan_l(n, k0, num, den, max_m), num, den)
}

/// The first planning error, if any: a recomputed segment count below one, a
/// segment length below one or below the window's minimum, a zero stride, or
/// a signal that cannot hold all `k` segments.
pub open spec fn sp_plan_err(
    n: int,
    k0: int,
    num: int,
    den: int,
    max_m: int,
    min_l: int,
) -> Option<WelchError> {
    let l = sp_plan_l(n, k0, num, den, max_m);
    let k = sp_plan_k(n, k0, num, den, max_m);
    let d = sp_plan_d(n, k0, num, den, max_m);
    if sp_capped(n, k0, num, den, max_m) && k < 1 {
        Some(WelchError::NoSegments)
    } else if l < 1 || l < min_l {
        Some(WelchError::SignalTooShort)
    } else if d < 1 {
        Some(WelchError::ZeroStride)
    } else if (k - 1) * d + l > n {
        Some(WelchError::SignalTooShort)
    } else {
        None
    }
}

/// A plan is well formed for a signal of length `n` when every one of its
/// `n_segment` segments of `segment_size` samples, starting at multiples of
/// `stride`, lies within `[0, n)`, the stride is at least one, and the
/// transform size is a power of two at least the segment size.
pub open spec fn plan_wf(p: SegmentationPlan, n: int) -> bool {
    &&& 1 <= p.n_segment
    &&& 1 <= p.segment_size
    &&& 1 <= p.stride <= p.segment_size
    &&& is_pow2(p.dft_size as int)
    &&& p.segment_size <= p.dft_size
    &&& (p.n_segment - 1) * p.stride + p.segment_size <= n
}

/// With the default overlap of one half, the stride is exactly half the
/// segment length, rounded down.
proof fn lemma_stride_half(l: int)
    requires
        l >= 0,
    ensures
        sp_round_overlap(l, 1, 2) == (l + 1) / 2,
        sp_stride(l, 1, 2) == l / 2,
{
    assert(2 * l * 1 + 2 == 2 * (l + 1)) by (nonlinear_arith);
    vstd::arithmetic::div_mod::lemma_div_denominator(2 * (l + 1), 2, 2);
    lemma_div_multiples_vanish(l + 1, 2);
    assert(sp_round_overlap(l, 1, 2) == (l + 1) / 2);
    let t = l / 2;
    lemma_fundamental_div_mod(l, 2);
    if l % 2 == 0 {
        lemma_div_multiples_vanish_fancy(t, 1, 2);
        assert(l + 1 == 2 * t + 1);
        assert((l + 1) / 2 == t);
    } else {
        assert(l == 2 * t + 1);
        lemma_div_multiples_vanish(t + 1, 2);
        assert(l + 1 == 2 * (t + 1));
        assert((l + 1) / 2 == t + 1);
    }
}

/// Segmentation consistency at the default configuration: for any signal of
/// length at least five, a requested segment count of four, an overlap of one
/// half and a maximum transform size of 4096, the planner accepts: the four
/// segments (or the recomputed count, in the capped branch) of the derived
/// length, placed at multiples of the derived stride, all fit within the
/// signal, and no planning error arises for any window whose minimum length
/// is at most two.
pub proof fn lemma_default_plan_fits(n: int, min_l: int)
    requires
        5 <= n,
        n <= usize::MAX as int,
        0 <= min_l <= 2,
    ensures
        sp_plan_err(n, 4, 1, 2, 4096, min_l) is None,
        sp_plan_d(n, 4, 1, 2, 4096) == sp_plan_l(n, 4, 1, 2, 4096) / 2,
{
    let d5 = sp_denom(4, 1, 2);
    assert(d5 == 5);
    let l0 = sp_l0(n, 4, 1, 2);
    assert(l0 == (2 * n) / 5) by {
        assert(n * 2 == 2 * n) by (nonlinear_arith);
    }
    lemma_fundamental_div_mod(2 * n, 5);
    vstd::arithmetic::div_mod::lemma_mod_division_less_than_divisor(2 * n, 5);
    vstd::arithmetic::div_mod::lemma_mod_bound(2 * n, 5);
    assert(5 * l0 <= 2 * n);
    assert(l0 >= 2) by {
        lemma_div_is_ordered(10, 2 * n, 5);
        lemma_div_multiples_vanish(2, 5);
    }
    if l0 <= 4096 {
        // uncapped branch: l = l0, k = 4, d = l0 / 2
        assert(!sp_capped(n, 4, 1, 2, 4096));
        lemma_stride_half(l0);
        let d = l0 / 2;
        lemma_fundamental_div_mod(l0, 2);
        vstd::arithmetic::div_mod::lemma_mod_division_less_than_divisor(l0, 2);
        vstd::arithmetic::div_mod::lemma_mod_bound(l0, 2);
        assert(2 * d <= l0);
        assert(d >= 1);
        assert(3 * d + l0 <= n) by {
            assert(6 * d + 2 * l0 <= 3 * l0 + 2 * l0);
            assert(5 * l0 <= 2 * n);
        }
    } else {
        // capped branch: l = 4096, d = 2048, k = (2n - 4096) / 4096
        assert(sp_capped(n, 4, 1, 2, 4096));
        assert(5 * l0 >= 5 * 4097) by (nonlinear_arith)
            requires
                l0 >= 4097,
        ;
        assert(2 * n >= 20485);
        assert(n * 2 == 2 * n) by (nonlinear_arith);
        assert(n * 2 >= 4096 * 1);
        let x = n * 2 - 4096 * 1;
        let kk = sp_cap_k(n, 4096, 1, 2);
        assert(kk == x / 4096);
        lemma_fundamental_div_mod(x, 4096);
        vstd::arithmetic::div_mod::lemma_mod_division_less_than_divisor(x, 4096);
        vstd::arithmetic::div_mod::lemma_mod_bound(x, 4096);
        assert(4096 * kk <= x);
        assert(kk >= 4) by {
            lemma_div_is_ordered(16389, x, 4096);
            assert(16389int / 4096 == 4) by {
                lemma_div_multiples_vanish_fancy(4, 5, 4096);
            }
        }
        lemma_stride_half(4096);
        assert(sp_plan_d(n, 4, 1, 2, 4096) == 2048);
        // (kk - 1) * 2048 + 4096 <= n
        assert((kk - 1) * 2048 + 4096 <= n) by {
            assert(4096 * kk <= 2 * n - 4096);
            assert(2048 * kk <= n - 2048) by (nonlinear_arith)
                requires
                    4096 * kk <= 2 * n - 4096,
            ;
            assert((kk - 1) * 2048 == 2048 * kk - 2048) by (nonlinear_arith);
        }
    }
}

/// Cap-branch boundary: whenever the derived segment length exceeds the
/// maximum transform size, the planner clamps the segment length to the cap
/// and the recomputed segment count is at least the requested one.
pub proof fn lemma_cap_branch_grows_segments(n: int, k0: int, num: int, den: int, max_m: int)
    requires
        1 <= k0,
        1 <= den,
        0 <= num < den,
        1 <= max_m,
        0 <= n,
        sp_capped(n, k0, num, den, max_m),
    ensures
        sp_plan_l(n, k0, num, den, max_m) == max_m,
        sp_plan_k(n, k0, num, den, max_m) >= k0,
{
    let dd = sp_denom(k0, num, den);
    assert(dd >= 1) by (nonlinear_arith)
        requires
            k0 >= 1,
            den >= 1,
            0 <= num < den,
            dd == k0 * (den - num) + num,
    ;
    let l0 = sp_l0(n, k0, num, den);
    lemma_fundamental_div_mod(n * den, dd);
    vstd::arithmetic::div_mod::lemma_mod_division_less_than_divisor(n * den, dd);
    vstd::arithmetic::div_mod::lemma_mod_bound(n * den, dd);
    assert(dd * l0 <= n * den);
    let y = max_m * (den - num);
    assert(y >= 1) by (nonlinear_arith)
        requires
            max_m >= 1,
            den - num >= 1,
            y == max_m * (den - num),
    ;
    let x = n * den - max_m * num;
    // n*den >= dd*l0 >= dd*(max_m+1) = k0*(den-num)*(max_m+1) + num*(max_m+1)
    assert(x >= k0 * y + 1) by (nonlinear_arith)
        requires
            dd * l0 <= n * den,
            l0 >= max_m + 1,
            dd == k0 * (den - num) + num,
            y == max_m * (den - num),
            x == n * den - max_m * num,
            k0 >= 1,
            den - num >= 1,
            0 <= num,
            max_m >= 1,
    ;
    assert(x >= 0);
    assert(!(n * den < max_m * num));
    let kk = sp_cap_k(n, max_m, num, den);
    assert(kk == x / y);
    assert(kk >= k0) by {
        lemma_div_is_ordered(k0 * y, x, y);
        lemma_div_multiples_vanish(k0, y);
        assert(y * k0 == k0 * y) by (nonlinear_arith);
    }
}

/// Two powers of two cannot be closer than a factor of two.
proof fn lemma_pow2_gap(a: int, b: int)
    requires
        is_pow2(a),
        is_pow2(b),
        a < b,
    ensures
        2 * a <= b,
{
    broadcast use is_pow2_equiv;

    let i = choose|i: nat| pow(2, i) == a;
    let j = choose|j: nat| pow(2, j) == b;
    if j <= i {
        lemma_pow_increases(2, j, i);
    }
    assert(i + 1 <= j);
    lemma_pow_increases(2, (i + 1) as nat, j);
    vstd::arithmetic::power::lemma_pow_adds(2, i, 1);
    vstd::arithmetic::power::lemma_pow1(2);
    assert(pow(2, (i + 1) as nat) == 2 * pow(2, i));
    assert(is_pow2_exists(2 * a));
}

/// The smallest power of two at least `l`, for `l` at most a power-of-two
/// cap; the result never exceeds the cap.
pub fn next_pow2_within(l: usize, cap: usize) -> (m: usize)
    requires
        1 <= l <= cap,
        is_pow2(cap as int),
    ensures
        is_pow2(m as int),
        l <= m <= cap,
        forall|x: int| is_pow2(x) && x >= l ==> x >= m,
{
    let mut m: usize = 1;
    proof {
        broadcast use is_pow2_equiv;

        vstd::arithmetic::power::lemma_pow0(2);
        assert(is_pow2_exists(1int));
        assert forall|x: int| is_pow2(x) implies x >= 1 by {
            vstd::arithmetic::power::lemma_pow_positive(2, choose|i: nat| pow(2, i) == x);
        }
    }
    while m < l
        invariant
            1 <= m <= cap,
            1 <= l <= cap,
            is_pow2(m as int),
            is_pow2(cap as int),
            forall|x: int| is_pow2(x) && x < m ==> x < l,
        decreases cap - m,
    {
        proof {
            lemma_pow2_gap(m as int, cap as int);
            broadcast use is_pow2_equiv;

            let i = choose|i: nat| pow(2, i) == m as int;
            vstd::arithmetic::power::lemma_pow_adds(2, i, 1);
            vstd::arithmetic::power::lemma_pow1(2);
            assert(pow(2, i + 1) == 2 * pow(2, i));
            assert(is_pow2_exists(2 * (m as int)));
            assert forall|x: int| is_pow2(x) && x < 2 * (m as int) implies x < l by {
                if x > m {
                    lemma_pow2_gap(m as int, x);
                }
            }
        }
        m = m * 2;
    }
    m
}

/// `2^p` as a `usize`, or nothing where that exceeds the machine word.
pub fn pow2_checked(p: usize) -> (r: Option<usize>)
    ensures
        r matches Some(m) ==> m as int == pow2(p as nat) && is_pow2(m as int) && m >= 1,
        r is None <==> pow2(p as nat) > usize::MAX as int,
{
    let mut m: usize = 1;
    let mut i: usize = 0;
    proof {
        vstd::arithmetic::power::lemma_pow0(2);
        broadcast use is_pow2_equiv;

        assert(is_pow2_exists(1int));
    }
    while i < p
        invariant
            i <= p,
            1 <= m,
            m as int == pow2(i as nat),
            is_pow2(m as int),
        decreases p - i,
    {
        proof {
            vstd::arithmetic::power::lemma_pow_adds(2, i as nat, 1);
            vstd::arithmetic::power::lemma_pow1(2);
            vstd::arithmetic::power::lemma_pow_positive(2, i as nat);
            vstd::arithmetic::power::lemma_pow_positive(2, (i + 1) as nat);
            assert(pow(2, (i + 1) as nat) == pow(2, i as nat) * 2);
            assert(pow2((i + 1) as nat) == 2 * pow2(i as nat));
        }
        if m > usize::MAX - m {
            proof {
                vstd::arithmetic::power::lemma_pow_increases(2, (i + 1) as nat, p as nat);
            }
            return None;
        }
        m = m + m;
        i = i + 1;
        proof {
            broadcast use is_pow2_equiv;

            let e = choose|e: nat| pow(2, e) == pow2((i - 1) as nat);
            vstd::arithmetic::power::lemma_pow_adds(2, e, 1);
            vstd::arithmetic::power::lemma_pow1(2);
            assert(pow(2, e + 1) == m as int);
            assert(is_pow2_exists(m as int));
        }
    }
    Some(m)
}

/// The derived segment length `l0`, recomputed whenever the requested segment
/// count or the overlap fraction changes.
pub fn derive_segment_size(n: usize, k: usize, num: u32, den: u32) -> (l: usize)
    requires
        1 <= k,
        1 <= den,
        num < den,
    ensures
        l == sp_l0(n as int, k as int, num as int, den as int),
        l <= n,
{
    proof {
        lemma_u128_bounds();
        lemma_mul_bound(n as int, den as int, u64::MAX as int, u32::MAX as int);
        lemma_mul_bound(k as int, (den - num) as int, u64::MAX as int, u32::MAX as int);
    }
    let nd: u128 = (n as u128) * (den as u128);
    let dsum: u128 = (k as u128) * ((den - num) as u128) + (num as u128);
    proof {
        assert((den - num) as u128 >= 1);
        assert(dsum >= den) by (nonlinear_arith)
            requires
                dsum == (k as u128) * ((den - num) as u128) + (num as u128),
                k >= 1,
                den >= 1,
                num < den,
                (den - num) as u128 == den as u128 - num as u128,
        ;
        lemma_div_is_ordered_by_denominator(nd as int, den as int, dsum as int);
        lemma_div_multiples_vanish(n as int, den as int);
        assert(nd as int == (n as int) * (den as int));
        assert((den as int) * (n as int) == (n as int) * (den as int)) by (nonlinear_arith);
    }
    let l: u128 = nd / dsum;
    l as usize
}

/// An upper bound used below: `n` fits in 64 bits and the rational's parts in
/// 32, so every intermediate product fits in 128 bits.
proof fn lemma_u128_bounds()
    ensures
        usize::MAX as int <= u64::MAX as int,
{
}

/// Multiplying within bounds stays within the product of the bounds.
proof fn lemma_mul_bound(a: int, b: int, am: int, bm: int)
    requires
        0 <= a <= am,
        0 <= b <= bm,
    ensures
        a * b <= am * bm,
{
    assert(a * b <= am * bm) by (nonlinear_arith)
        requires
            0 <= a <= am,
            0 <= b <= bm,
    ;
}

/// `round(l * num/den) <= l` whenever `num < den`.
proof fn lemma_round_overlap_le(l: int, num: int, den: int)
    requires
        l >= 0,
        0 <= num < den,
    ensures
        0 <= sp_round_overlap(l, num, den) <= l,
{
    assert(2 * l * num + den >= 0) by (nonlinear_arith)
        requires
            l >= 0,
            num >= 0,
            den >= 1,
    ;
    lemma_div_pos_is_pos(2 * l * num + den, 2 * den);
    assert(2 * l * num + den <= l * (2 * den) + (2 * den - 1)) by (nonlinear_arith)
        requires
            l >= 0,
            0 <= num < den,
    ;
    lemma_div_is_ordered(2 * l * num + den, l * (2 * den) + (2 * den - 1), 2 * den);
    lemma_div_multiples_vanish_fancy(l, 2 * den - 1, 2 * den);
    assert((2 * den) * l == l * (2 * den)) by (nonlinear_arith);
}

/// Derives the full segmentation plan from the signal length `n`, the
/// requested segment count `k0`, the overlap fraction `num/den`, the maximum
/// transform size `max_m` (a power of two) and the window's minimum segment
/// length `min_l`; or reports the first planning error.
pub fn plan(
    n: usize,
    k0: usize,
    num: u32,
    den: u32,
    max_m: usize,
    min_l: usize,
) -> (r: Result<SegmentationPlan, WelchError>)
    requires
        1 <= k0,
        1 <= den,
        num < den,
        1 <= max_m,
        is_pow2(max_m as int),
    ensures
        r matches Ok(p) ==> {
            &&& sp_plan_err(n as int, k0 as int, num as int, den as int, max_m as int, min_l as int) is None
            &&& p.n_segment == sp_plan_k(n as int, k0 as int, num as int, den as int, max_m as int)
            &&& p.segment_size == sp_plan_l(n as int, k0 as int, num as int, den as int, max_m as int)
            &&& p.stride == sp_plan_d(n as int, k0 as int, num as int, den as int, max_m as int)
            &&& p.dft_size <= max_m
            &&& min_l <= p.segment_size
            &&& (sp_capped(n as int, k0 as int, num as int, den as int, max_m as int)
                ==> p.dft_size == p.segment_size == max_m)
            &&& (!sp_capped(n as int, k0 as int, num as int, den as int, max_m as int)
                ==> forall|x: int| is_pow2(x) && x >= p.segment_size ==> x >= p.dft_size)
            &&& plan_wf(p, n as int)
        },
        r matches Err(e) ==> Some(e) == sp_plan_err(
            n as int, k0 as int, num as int, den as int, max_m as int, min_l as int,
        ),
{
    let ghost gerr = sp_plan_err(n as int, k0 as int, num as int, den as int, max_m as int, min_l as int);
    let l0 = derive_segment_size(n, k0, num, den);
    let capped = l0 > max_m;
    let l: usize = if capped { max_m } else { l0 };
    let mut kbig: u128 = k0 as u128;
    if capped {
        proof {
            lemma_u128_bounds();
            lemma_mul_bound(n as int, den as int, u64::MAX as int, u32::MAX as int);
            lemma_mul_bound(max_m as int, num as int, u64::MAX as int, u32::MAX as int);
            lemma_mul_bound(max_m as int, (den - num) as int, u64::MAX as int, u32::MAX as int);
        }
        let nd: u128 = (n as u128) * (den as u128);
        let lnum: u128 = (max_m as u128) * (num as u128);
        if nd < lnum {
            return Err(WelchError::NoSegments);
        }
        let ldn: u128 = (max_m as u128) * ((den - num) as u128);
        proof {
            assert(ldn >= 1) by (nonlinear_arith)
                requires
                    ldn == (max_m as u128) * ((den - num) as u128),
                    max_m >= 1,
                    (den - num) as u128 >= 1,
            ;
        }
        let kk: u128 = (nd - lnum) / ldn;
        if kk == 0 {
            return Err(WelchError::NoSegments);
        }
        kbig = kk;
    }
    if l < 1 || l < min_l {
        return Err(WelchError::SignalTooShort);
    }
    let m: usize = if capped { l } else { next_pow2_within(l0, max_m) };
    let rd = derive_round_overlap(l, num, den);
    let d: usize = l - rd;
    if d < 1 {
        return Err(WelchError::ZeroStride);
    }
    if kbig > n as u128 {
        proof {
            let gk = kbig as int;
            let gd = d as int;
            assert((gk - 1) * gd + l as int > n as int) by (nonlinear_arith)
                requires
                    gk > n as int,
                    gd >= 1,
                    l as int >= 1,
            ;
        }
        return Err(WelchError::SignalTooShort);
    }
    let k: usize = kbig as usize;
    proof {
        lemma_u128_bounds();
        lemma_mul_bound((k - 1) as int, d as int, u64::MAX as int, u64::MAX as int);
    }
    let lhs: u128 = ((k - 1) as u128) * (d as u128) + (l as u128);
    if lhs > n as u128 {
        return Err(WelchError::SignalTooShort);
    }
    Ok(SegmentationPlan { n_segment: k, segment_size: l, dft_size: m, stride: d })
}

/// `round(l * num/den)`, rounding half away from zero.
pub fn derive_round_overlap(l: usize, num: u32, den: u32) -> (r: usize)
    requires
        1 <= den,
        num < den,
    ensures
        r == sp_round_overlap(l as int, num as int, den as int),
        r <= l,
{
    proof {
        lemma_u128_bounds();
        lemma_mul_bound(2 * (l as int), num as int, 2 * (u64::MAX as int), u32::MAX as int);
    }
    let t: u128 = 2 * (l as u128) * (num as u128) + (den as u128);
    let b: u128 = 2 * (den as u128);
    proof {
        assert(t as int == 2 * (l as int) * (num as int) + den as int);
        lemma_round_overlap_le(l as int, num as int, den as int);
    }
    let r: u128 = t / b;
    r as usize
}

} // verus!

