//! IEEE-754 binary32 values carried as their bit patterns.
//!
//! Scores, thresholds, tolerances and ROI ratios are single-precision floats
//! in the configuration and in the template matcher. The library holds them as
//! the `u32` encodings that `to_bits` gives, and compares them here with the
//! exact IEEE-754 ordering (NaN unordered, `-0 == +0`).
use vstd::prelude::*;
use vstd::arithmetic::power2::{pow2, lemma2_to64, lemma_pow2_adds, lemma_pow2_unfold, lemma_pow2_strictly_increases, lemma_pow2_pos};
use vstd::arithmetic::div_mod::lemma_fundamental_div_mod;

verus! {

/// Bits of `0.0`.
pub const ZERO_BITS: u32 = 0x0000_0000;

/// Bits of `1.0`.
pub const ONE_BITS: u32 = 0x3F80_0000;

/// Biased exponent field of an encoding.
pub open spec fn exponent_field(b: u32) -> int {
    (b as int / 0x80_0000) % 256
}

/// Fraction field of an encoding.
pub open spec fn fraction_field(b: u32) -> int {
    b as int % 0x80_0000
}

/// The sign bit is set.
pub open spec fn sign_set(b: u32) -> bool {
    b >= 0x8000_0000
}

/// The encoding is a NaN.
pub open spec fn is_nan(b: u32) -> bool {
    exponent_field(b) == 255 && fraction_field(b) != 0
}

/// The encoding is neither infinite nor NaN.
pub open spec fn is_finite(b: u32) -> bool {
    exponent_field(b) != 255
}

/// An integer that orders all non-NaN encodings as their real values are
/// ordered (both zeros map to 0, the infinities to the extremes).
pub open spec fn order_key(b: u32) -> int {
    if sign_set(b) {
        -((b as int) - 0x8000_0000)
    } else {
        b as int
    }
}

/// `a >= b` on the floats that the encodings stand for.
pub open spec fn ge(a: u32, b: u32) -> bool {
    !is_nan(a) && !is_nan(b) && order_key(a) >= order_key(b)
}

/// `a > b` on the floats that the encodings stand for.
pub open spec fn gt(a: u32, b: u32) -> bool {
    !is_nan(a) && !is_nan(b) && order_key(a) > order_key(b)
}

/// `a <= b`.
pub open spec fn le(a: u32, b: u32) -> bool {
    ge(b, a)
}

/// `a < b`.
pub open spec fn lt(a: u32, b: u32) -> bool {
    gt(b, a)
}

/// `0.0 <= b <= 1.0`.
pub open spec fn in_unit_interval(b: u32) -> bool {
    ge(b, ZERO_BITS) && le(b, ONE_BITS)
}

/// `f32::max` on encodings: a NaN operand yields the other one.
pub open spec fn max_of(a: u32, b: u32) -> u32 {
    if is_nan(a) {
        b
    } else if is_nan(b) {
        a
    } else if order_key(a) >= order_key(b) {
        a
    } else {
        b
    }
}

pub fn bits_is_nan(b: u32) -> (r: bool)
    ensures
        r == is_nan(b),
{
    (b / 0x80_0000) % 256 == 255 && b % 0x80_0000 != 0
}

pub fn bits_is_finite(b: u32) -> (r: bool)
    ensures
        r == is_finite(b),
{
    (b / 0x80_0000) % 256 != 255
}

fn key_of(b: u32) -> (k: i64)
    ensures
        k as int == order_key(b),
{
    if b >= 0x8000_0000 {
        -((b - 0x8000_0000) as i64)
    } else {
        b as i64
    }
}

pub fn bits_ge(a: u32, b: u32) -> (r: bool)
    ensures
        r == ge(a, b),
{
    !bits_is_nan(a) && !bits_is_nan(b) && key_of(a) >= key_of(b)
}

pub fn bits_gt(a: u32, b: u32) -> (r: bool)
    ensures
        r == gt(a, b),
{
    !bits_is_nan(a) && !bits_is_nan(b) && key_of(a) > key_of(b)
}

pub fn bits_le(a: u32, b: u32) -> (r: bool)
    ensures
        r == le(a, b),
{
    bits_ge(b, a)
}

pub fn bits_lt(a: u32, b: u32) -> (r: bool)
    ensures
        r == lt(a, b),
{
    bits_gt(b, a)
}

pub fn bits_max(a: u32, b: u32) -> (r: u32)
    ensures
        r == max_of(a, b),
{
    if bits_is_nan(a) {
        b
    } else if bits_is_nan(b) {
        a
    } else if key_of(a) >= key_of(b) {
        a
    } else {
        b
    }
}


// ---------------------------------------------------------------------------
// `(a - b).abs() <= tol` with IEEE-754 rounding
// ---------------------------------------------------------------------------

/// The significand of a finite encoding as an integer.
pub open spec fn mant(b: u32) -> int {
    if exponent_field(b) > 0 {
        fraction_field(b) + 0x80_0000
    } else {
        fraction_field(b)
    }
}

/// The exponent of a finite encoding's unit in the last place, plus 150.
pub open spec fn qexp(b: u32) -> int {
    if exponent_field(b) > 0 {
        exponent_field(b)
    } else {
        1
    }
}

/// The magnitude of a finite encoding times 2^151 (the value is
/// `mant * 2^(qexp - 150)`).
pub open spec fn mag151(b: u32) -> int {
    mant(b) * pow2((qexp(b) + 1) as nat)
}

/// The value of a finite encoding times 2^151.
pub open spec fn val151(b: u32) -> int {
    if sign_set(b) {
        -mag151(b)
    } else {
        mag151(b)
    }
}

/// Times 2^151, the midpoint between a finite non-negative encoding and the
/// next float up: the largest magnitude that rounds (to nearest, ties to
/// even) down to it when its significand is even, just below it otherwise.
pub open spec fn mid151(t: u32) -> int {
    (2 * mant(t) + 1) * pow2(qexp(t) as nat)
}

/// The encoding is `+inf`.
pub open spec fn is_pos_inf(b: u32) -> bool {
    exponent_field(b) == 255 && fraction_field(b) == 0 && !sign_set(b)
}

/// `(a - b).abs() <= tol` evaluated in `f32`: the difference is rounded to
/// the nearest float (ties to even, overflowing to infinity), a NaN anywhere
/// makes it false, `inf - inf` of one sign is NaN, and an infinite difference
/// is within only `+inf`.
pub open spec fn f32_sub_abs_le(a: u32, b: u32, tol: u32) -> bool {
    if is_nan(a) || is_nan(b) || is_nan(tol) {
        false
    } else if !is_finite(a) || !is_finite(b) {
        !(!is_finite(a) && !is_finite(b) && sign_set(a) == sign_set(b)) && is_pos_inf(tol)
    } else if !is_finite(tol) {
        !sign_set(tol)
    } else if sign_set(tol) && mant(tol) != 0 {
        false
    } else {
        let d = val151(a) - val151(b);
        let x = if d >= 0 { d } else { -d };
        x < mid151(tol) || (x == mid151(tol) && mant(tol) % 2 == 0)
    }
}

/// Result of comparing two numbers.
#[derive(Debug, Clone, Copy, PartialEq, Eq, Structural)]
pub enum Rel {
    Below,
    Same,
    Above,
}

/// `x` compared with `y`.
pub open spec fn rel_of(x: int, y: int) -> Rel {
    if x < y {
        Rel::Below
    } else if x == y {
        Rel::Same
    } else {
        Rel::Above
    }
}

fn pow2_u128(k: u32) -> (r: u128)
    requires
        k <= 127,
    ensures
        r as int == pow2(k as nat),
{
    let mut r: u128 = 1;
    let mut i: u32 = 0;
    proof {
        lemma2_to64();
    }
    while i < k
        invariant
            i <= k <= 127,
            r as int == pow2(i as nat),
        decreases k - i,
    {
        proof {
            lemma_pow2_unfold((i + 1) as nat);
            lemma_pow2_strictly_increases((i + 1) as nat, 128);
            lemma_pow2_adds(64, 64);
            lemma2_to64();
        }
        r = r * 2;
        i = i + 1;
    }
    r
}

/// `p * 2^d` compared with `n`.
fn rel_shifted(p: u128, d: u32, n: u128) -> (r: Rel)
    ensures
        r == rel_of(p * pow2(d as nat), n as int),
{
    proof {
        lemma_pow2_pos(d as nat);
    }
    if d >= 128 {
        proof {
            if d > 128 {
                lemma_pow2_strictly_increases(128, d as nat);
            }
            lemma_pow2_adds(64, 64);
            lemma2_to64();
            assert(p * pow2(d as nat) >= pow2(d as nat) || p == 0) by (nonlinear_arith)
                requires
                    pow2(d as nat) > 0,
                    p >= 0,
            ;
        }
        if p == 0 {
            return if n == 0 { Rel::Same } else { Rel::Below };
        }
        return Rel::Above;
    }
    let g = pow2_u128(d);
    let q = n / g;
    let rem = n % g;
    proof {
        lemma_fundamental_div_mod(n as int, g as int);
        let gg = g as int;
        let pp = p as int;
        let qq = q as int;
        assert(n as int == gg * qq + rem as int);
        if pp < qq {
            assert(pp * gg + gg <= qq * gg) by (nonlinear_arith)
                requires
                    pp < qq,
                    gg > 0,
            ;
        }
        if pp > qq {
            assert(pp * gg >= qq * gg + gg) by (nonlinear_arith)
                requires
                    pp > qq,
                    gg > 0,
            ;
        }
        assert(gg * qq == qq * gg) by (nonlinear_arith);
    }
    if p < q {
        Rel::Below
    } else if p > q {
        Rel::Above
    } else if rem > 0 {
        Rel::Below
    } else {
        Rel::Same
    }
}

proof fn lemma_rel_scale(x: int, y: int, g: int)
    requires
        g > 0,
    ensures
        rel_of(x * g, y * g) == rel_of(x, y),
{
    if x < y {
        assert(x * g < y * g) by (nonlinear_arith)
            requires
                x < y,
                g > 0,
        ;
    } else if x > y {
        assert(x * g > y * g) by (nonlinear_arith)
            requires
                x > y,
                g > 0,
        ;
    }
}

/// `p * 2^ep` compared with `n * 2^en`.
fn rel_pair(p: u128, ep: u32, n: u128, en: u32) -> (r: Rel)
    ensures
        r == rel_of(p * pow2(ep as nat), n * pow2(en as nat)),
{
    if ep >= en {
        let r = rel_shifted(p, ep - en, n);
        proof {
            lemma_pow2_adds((ep - en) as nat, en as nat);
            lemma_pow2_pos(en as nat);
            lemma_rel_scale(p * pow2((ep - en) as nat), n as int, pow2(en as nat) as int);
            assert(p * pow2((ep - en) as nat) * pow2(en as nat) == p * pow2(ep as nat)) by (nonlinear_arith)
                requires
                    pow2(ep as nat) == pow2((ep - en) as nat) * pow2(en as nat),
            ;
        }
        r
    } else {
        let r = rel_shifted(n, en - ep, p);
        proof {
            lemma_pow2_adds((en - ep) as nat, ep as nat);
            lemma_pow2_pos(ep as nat);
            lemma_rel_scale(n * pow2((en - ep) as nat), p as int, pow2(ep as nat) as int);
            assert(n * pow2((en - ep) as nat) * pow2(ep as nat) == n * pow2(en as nat)) by (nonlinear_arith)
                requires
                    pow2(en as nat) == pow2((en - ep) as nat) * pow2(ep as nat),
            ;
        }
        match r {
            Rel::Below => Rel::Above,
            Rel::Same => Rel::Same,
            Rel::Above => Rel::Below,
        }
    }
}

/// The significand and the ulp exponent (plus 150) of a finite encoding.
fn decode(b: u32) -> (r: (u32, u32))
    requires
        is_finite(b),
    ensures
        r.0 as int == mant(b),
        r.1 as int == qexp(b),
        r.0 < 0x100_0000,
        1 <= r.1 <= 254,
{
    let e = (b / 0x80_0000) % 256;
    let f = b % 0x80_0000;
    if e > 0 {
        (f + 0x80_0000, e)
    } else {
        (f, 1)
    }
}

/// `|A - B|` (`same`) or `A + B`.
pub open spec fn diff_mag(a: int, b: int, same: bool) -> int {
    if same {
        if a >= b {
            a - b
        } else {
            b - a
        }
    } else {
        a + b
    }
}

proof fn lemma_gap(ia: int, im: int, g: int)
    requires
        g > 0,
        ia > im,
    ensures
        ia * g >= im * g + g,
{
    assert(ia * g >= (im + 1) * g) by (nonlinear_arith)
        requires
            ia >= im + 1,
            g > 0,
    ;
    assert((im + 1) * g == im * g + g) by (nonlinear_arith);
}

/// `A = a * 2^ea` and `M = n * 2^em` are both whole multiples of
/// `2^min(ea, em)`.
proof fn lemma_common_grain(a: int, ea: nat, n: int, em: nat, g: nat)
    requires
        g <= ea,
        g <= em,
    ensures
        a * pow2(ea) == (a * pow2((ea - g) as nat)) * pow2(g),
        n * pow2(em) == (n * pow2((em - g) as nat)) * pow2(g),
{
    lemma_pow2_adds((ea - g) as nat, g);
    lemma_pow2_adds((em - g) as nat, g);
    assert(a * pow2(ea) == (a * pow2((ea - g) as nat)) * pow2(g)) by (nonlinear_arith)
        requires
            pow2(ea) == pow2((ea - g) as nat) * pow2(g),
    ;
    assert(n * pow2(em) == (n * pow2((em - g) as nat)) * pow2(g)) by (nonlinear_arith)
        requires
            pow2(em) == pow2((em - g) as nat) * pow2(g),
    ;
}

/// `|A - B|` (`same`) or `A + B`, for `A = m1 * 2^e1` and `B = m2 * 2^e2`
/// with `e1 >= e2`, compared with `n * 2^em`.
fn rel_diff_ordered(m1: u32, e1: u32, m2: u32, e2: u32, same: bool, n: u128, em: u32) -> (r: Rel)
    requires
        e1 >= e2,
        m1 < 0x100_0000,
        m2 < 0x100_0000,
        1 <= n < 0x400_0000,
        e1 <= 300,
        em <= 300,
    ensures
        r == rel_of(diff_mag(m1 * pow2(e1 as nat), m2 * pow2(e2 as nat), same), n * pow2(em as nat)),
{
    let ghost a = m1 * pow2(e1 as nat);
    let ghost b = m2 * pow2(e2 as nat);
    let ghost mm = n * pow2(em as nat);
    proof {
        lemma_pow2_pos(e1 as nat);
        lemma_pow2_pos(e2 as nat);
        lemma_pow2_pos(em as nat);
        assert(a >= 0 && b >= 0) by (nonlinear_arith)
            requires
                a == m1 * pow2(e1 as nat),
                b == m2 * pow2(e2 as nat),
                pow2(e1 as nat) > 0,
                pow2(e2 as nat) > 0,
        ;
    }
    if m2 == 0 {
        proof {
            assert(b == 0);
        }
        return rel_pair(m1 as u128, e1, n, em);
    }
    if m1 == 0 {
        proof {
            assert(a == 0);
        }
        return rel_pair(m2 as u128, e2, n, em);
    }
    let k = e1 - e2;
    if k <= 64 {
        let g = pow2_u128(k);
        proof {
            lemma2_to64();
            if k < 64 {
                lemma_pow2_strictly_increases(k as nat, 64);
            }
            assert((m1 as int) * (g as int) < 0x100_0000 * 0x1_0000_0000_0000_0000) by (nonlinear_arith)
                requires
                    m1 < 0x100_0000,
                    g <= 0x1_0000_0000_0000_0000,
                    g >= 0,
            ;
        }
        let big: u128 = (m1 as u128) * g;
        let x: u128 = if same {
            if big >= m2 as u128 {
                big - m2 as u128
            } else {
                m2 as u128 - big
            }
        } else {
            big + m2 as u128
        };
        proof {
            lemma_pow2_adds(k as nat, e2 as nat);
            let p2 = pow2(e2 as nat);
            assert(a == big * p2) by (nonlinear_arith)
                requires
                    a == m1 * pow2(e1 as nat),
                    pow2(e1 as nat) == g * p2,
                    big == m1 * g,
            ;
            assert(x * p2 == diff_mag(a, b, same)) by (nonlinear_arith)
                requires
                    a == big * p2,
                    b == m2 * p2,
                    p2 > 0,
                    x == diff_mag(big as int, m2 as int, same),
            ;
        }
        return rel_pair(x, e2, n, em);
    }
    let c = rel_pair(m1 as u128, e1, n, em);
    proof {
        lemma2_to64();
        lemma_pow2_adds(e2 as nat, 24);
        assert(b < pow2((e2 + 24) as nat)) by (nonlinear_arith)
            requires
                b == m2 * pow2(e2 as nat),
                m2 < pow2(24),
                pow2((e2 + 24) as nat) == pow2(e2 as nat) * pow2(24),
                pow2(e2 as nat) > 0,
        ;
        assert(a >= pow2(e1 as nat)) by (nonlinear_arith)
            requires
                a == m1 * pow2(e1 as nat),
                m1 >= 1,
                pow2(e1 as nat) > 0,
        ;
        lemma_pow2_strictly_increases((e2 + 24) as nat, e1 as nat);
        assert(b > 0) by (nonlinear_arith)
            requires
                b == m2 * pow2(e2 as nat),
                m2 >= 1,
                pow2(e2 as nat) > 0,
        ;
        assert(c == rel_of(a, mm));
        assert(same ==> diff_mag(a, b, same) == a - b);
        assert(!same ==> diff_mag(a, b, same) == a + b);
        if em >= e2 + 24 {
            let gexp: nat = if e1 <= em { e1 as nat } else { em as nat };
            lemma_common_grain(m1 as int, e1 as nat, n as int, em as nat, gexp);
            if gexp > e2 + 24 {
                lemma_pow2_strictly_increases((e2 + 24) as nat, gexp);
            }
            let gg = pow2(gexp);
            let ia = m1 * pow2((e1 - gexp) as nat);
            let im = n * pow2((em - gexp) as nat);
            assert(b < gg);
            if a > mm {
                assert(ia > im) by (nonlinear_arith)
                    requires
                        a == ia * gg,
                        mm == im * gg,
                        a > mm,
                        gg > 0,
                ;
                lemma_gap(ia, im, gg as int);
            } else if a < mm {
                assert(im > ia) by (nonlinear_arith)
                    requires
                        a == ia * gg,
                        mm == im * gg,
                        a < mm,
                        gg > 0,
                ;
                lemma_gap(im, ia, gg as int);
            }
        } else {
            lemma_pow2_adds((e2 + 24) as nat, 26);
            lemma_pow2_adds((e2 + 50) as nat, 14);
            lemma_pow2_strictly_increases((e2 + 50) as nat, (e1 - 14) as nat);
            lemma_pow2_adds((e1 - 14) as nat, 14);
            if em < e2 + 24 {
                lemma_pow2_strictly_increases(em as nat, (e2 + 24) as nat);
            }
            assert(pow2(26) == 0x400_0000) by {
                lemma_pow2_adds(16, 10);
            }
            assert(mm < pow2((e2 + 50) as nat)) by (nonlinear_arith)
                requires
                    mm == n * pow2(em as nat),
                    n < pow2(26),
                    pow2(em as nat) <= pow2((e2 + 24) as nat),
                    pow2(em as nat) > 0,
                    pow2((e2 + 50) as nat) == pow2((e2 + 24) as nat) * pow2(26),
                    n >= 1,
            ;
            assert(pow2(14) == 0x4000);
            assert(a - b > mm) by (nonlinear_arith)
                requires
                    a >= pow2(e1 as nat),
                    pow2(e1 as nat) == pow2((e1 - 14) as nat) * pow2(14),
                    pow2(14) == 0x4000,
                    b < pow2((e2 + 24) as nat),
                    pow2((e2 + 24) as nat) < pow2((e2 + 50) as nat),
                    mm < pow2((e2 + 50) as nat),
                    pow2((e2 + 50) as nat) < pow2((e1 - 14) as nat),
            ;
        }
    }
    if same {
        if c == Rel::Above {
            Rel::Above
        } else {
            Rel::Below
        }
    } else {
        if c == Rel::Below {
            Rel::Below
        } else {
            Rel::Above
        }
    }
}

/// Whether `(a - b).abs() <= tol` holds in `f32` (see `f32_sub_abs_le`).
pub fn bits_sub_abs_le(a: u32, b: u32, tol: u32) -> (r: bool)
    ensures
        r == f32_sub_abs_le(a, b, tol),
{
    if bits_is_nan(a) || bits_is_nan(b) || bits_is_nan(tol) {
        return false;
    }
    let sa = a >= 0x8000_0000;
    let sb = b >= 0x8000_0000;
    if !bits_is_finite(a) || !bits_is_finite(b) {
        if !bits_is_finite(a) && !bits_is_finite(b) && sa == sb {
            return false;
        }
        return tol == 0x7F80_0000;
    }
    if !bits_is_finite(tol) {
        return tol < 0x8000_0000;
    }
    let (mt, qt) = decode(tol);
    if tol >= 0x8000_0000 && mt != 0 {
        return false;
    }
    let (ma, qa) = decode(a);
    let (mb, qb) = decode(b);
    let same = sa == sb;
    let n: u128 = 2 * (mt as u128) + 1;
    let rel = if qa >= qb {
        rel_diff_ordered(ma, qa + 1, mb, qb + 1, same, n, qt)
    } else {
        rel_diff_ordered(mb, qb + 1, ma, qa + 1, same, n, qt)
    };
    proof {
        let ma_ = mag151(a);
        let mb_ = mag151(b);
        assert(diff_mag(ma_, mb_, same) == diff_mag(mb_, ma_, same));
        let d = val151(a) - val151(b);
        assert((if d >= 0 { d } else { -d }) == diff_mag(ma_, mb_, same));
    }
    match rel {
        Rel::Below => true,
        Rel::Same => mt % 2 == 0,
        Rel::Above => false,
    }
}

} // verus!
