//! IEEE-754 encoding of floating constants over plain integers.
//!
//! A floating literal is reduced by the number parser to a mantissa, a
//! binary exponent and a sticky bit that records whether any nonzero part
//! of the value was dropped below the mantissa. This module rounds that
//! triple to nearest, ties to even, and assembles the bit pattern of the
//! IEEE-754 binary32 or binary64 value. The rounding is exact for every
//! hexadecimal literal and for decimal literals that divide by at most
//! 10^18; a decimal literal needing several division chunks (roughly, more
//! than nineteen significant digits together with a large negative
//! exponent) can land one unit of the last place away from the exactly
//! rounded value, since each chunk folds its remainder into one sticky bit.

use vstd::prelude::*;

use vstd::arithmetic::power2::pow2;
use vstd::arithmetic::power2::lemma_pow2_strictly_increases;
use vstd::arithmetic::power2::lemma_pow2_adds;
use vstd::arithmetic::power2::lemma2_to64;

verus! {

/// One right shift: the dropped bit folds into the sticky flag.
pub open spec fn spec_shr1(m: nat, e: int, s: bool) -> (nat, int, bool) {
    (m / 2, e + 1, s || m % 2 == 1)
}

/// Shifts the mantissa right until it is below `top`.
pub open spec fn spec_shrink(m: nat, e: int, s: bool, top: nat) -> (nat, int, bool)
    decreases m,
{
    if m < top || top < 2 {
        (m, e, s)
    } else {
        let (m2, e2, s2) = spec_shr1(m, e, s);
        spec_shrink(m2, e2, s2, top)
    }
}

/// Shifts the mantissa right until the exponent reaches `floor`.
pub open spec fn spec_raise(m: nat, e: int, s: bool, floor: int) -> (nat, int, bool)
    decreases floor - e,
{
    if e >= floor {
        (m, e, s)
    } else {
        let (m2, e2, s2) = spec_shr1(m, e, s);
        spec_raise(m2, e2, s2, floor)
    }
}

/// Shifts the mantissa left until it reaches `pow`, never lowering the
/// exponent below `floor`.
pub open spec fn spec_grow(m: nat, e: int, floor: int, pow: nat) -> (nat, int)
    decreases e - floor,
{
    if m >= pow || e <= floor {
        (m, e)
    } else {
        spec_grow(m * 2, e - 1, floor, pow)
    }
}

/// Rounds the normalized triple to nearest, ties to even, and assembles the
/// bit pattern. `pow` is 2 to the mantissa width, `w` the fraction width,
/// `frac_pow` is 2 to `w`, `bias` the exponent bias and `max_eu` the largest
/// unbiased exponent of a normal value.
pub open spec fn spec_assemble(
    m: nat,
    e: int,
    s: bool,
    pow: nat,
    w: int,
    frac_pow: nat,
    bias: int,
    max_eu: int,
) -> nat {
    let rb = m % 2;
    let m0 = m / 2;
    let ee = e + 1;
    let mm = if rb == 1 && (s || m0 % 2 == 1) {
        m0 + 1
    } else {
        m0
    };
    let mm2 = if mm >= pow {
        mm / 2
    } else {
        mm
    };
    let ee2 = if mm >= pow {
        ee + 1
    } else {
        ee
    };
    if mm2 == 0 {
        0
    } else if mm2 < pow / 2 {
        mm2
    } else {
        let eu = ee2 + w;
        if eu > max_eu {
            ((max_eu + bias + 1) * frac_pow) as nat
        } else {
            ((eu + bias) * frac_pow + (mm2 - pow / 2)) as nat
        }
    }
}

/// Round-to-nearest-even encoding of `(m + sticky) * 2^e` in the format
/// described by the parameters.
pub open spec fn spec_encode(
    m: nat,
    e: int,
    s: bool,
    pow: nat,
    w: int,
    frac_pow: nat,
    bias: int,
    max_eu: int,
    floor: int,
) -> nat {
    let (ma, ea, sa) = spec_shrink(m, e, s, pow * 2);
    let (mc, ec, sc) = spec_raise(ma, ea, sa, floor);
    let (mb, eb) = spec_grow(mc, ec, floor, pow);
    spec_assemble(mb, eb, sc, pow, w, frac_pow, bias, max_eu)
}

/// The bit pattern of the IEEE-754 binary64 value nearest to
/// `(m + sticky) * 2^e`, ties to even.
pub open spec fn spec_double_bits(m: nat, e: int, s: bool) -> nat {
    spec_encode(m, e, s, 0x20000000000000, 52, 0x10000000000000, 1023, 1023, -1075)
}

/// The bit pattern of the IEEE-754 binary32 value nearest to
/// `(m + sticky) * 2^e`, ties to even.
pub open spec fn spec_float_bits(m: nat, e: int, s: bool) -> nat {
    spec_encode(m, e, s, 0x1000000, 23, 0x800000, 127, 127, -150)
}

/// Normalizes the triple as the three specification shifts do.
fn normalize(m0: u128, e0: i64, s0: bool, pow: u128, floor: i64) -> (r: (u128, i64, bool))
    requires
        4 <= pow <= 0x20000000000000,
        -0x10000000000 <= e0 <= 0x10000000000,
        -0x10000000000 <= floor <= 0,
    ensures
        ({
            let (ma, ea, sa) = spec_shrink(m0 as nat, e0 as int, s0, (pow * 2) as nat);
            let (mc, ec, sc) = spec_raise(ma, ea, sa, floor as int);
            let (mb, eb) = spec_grow(mc, ec, floor as int, pow as nat);
            r.0 == mb && r.1 == eb && r.2 == sc
        }),
        floor <= r.1,
        r.1 <= e0 + 126 || r.1 == floor,
        r.0 < pow * 2,
{
    let mut m = m0;
    let mut e = e0;
    let mut s = s0;
    let ghost top = (pow * 2) as nat;
    proof {
        lemma2_to64();
        assert(m as nat * pow2(0) <= m0 as nat);
    }
    // shrink: drop low bits into the sticky flag until the mantissa is
    // below two times `pow`
    while m >= pow * 2
        invariant
            4 <= pow <= 0x20000000000000,
            -0x10000000000 <= e0 <= 0x10000000000,
            top == pow * 2,
            spec_shrink(m as nat, e as int, s, top) == spec_shrink(m0 as nat, e0 as int, s0, top),
            e0 <= e,
            e - e0 <= 126,
            m as nat * pow2((e - e0) as nat) <= m0 as nat,
        decreases m,
    {
        proof {
            assert(m as nat / 2 * pow2((e + 1 - e0) as nat) <= m0 as nat) by {
                assert(pow2((e + 1 - e0) as nat) == 2 * pow2((e - e0) as nat)) by {
                    lemma_pow2_adds(1, (e - e0) as nat);
                    lemma2_to64();
                }
                assert(m as nat / 2 * (2 * pow2((e - e0) as nat)) <= m as nat * pow2(
                    (e - e0) as nat,
                )) by (nonlinear_arith);
            }
            assert(e - e0 < 126) by {
                if e - e0 >= 126 {
                    lemma2_to64();
                    lemma_pow2_adds(3, (e - e0) as nat);
                    lemma_pow2_strictly_increases(128, (e - e0 + 3) as nat);
                    assert(pow2(128) == 0x100000000000000000000000000000000) by {
                        lemma2_to64();
                        lemma_pow2_adds(64, 64);
                    }
                    assert(m as nat * pow2((e - e0) as nat) >= pow2(3) * pow2((e - e0) as nat)) by (
                    nonlinear_arith)
                        requires
                            m as nat >= 8,
                            pow2(3) == 8,
                    ;
                }
            }
        }
        s = s || (m % 2 == 1);
        m = m / 2;
        e = e + 1;
    }
    let ghost shrunk = (m as nat, e as int, s);
    proof {
        assert(spec_shrink(m as nat, e as int, s, top) == shrunk);
    }
    // raise: a very small exponent is lifted to the subnormal floor
    while e < floor
        invariant
            floor <= 0,
            spec_raise(m as nat, e as int, s, floor as int) == spec_raise(
                shrunk.0,
                shrunk.1,
                shrunk.2,
                floor as int,
            ),
            m as nat <= shrunk.0,
            e <= floor || (m as nat, e as int, s) == shrunk,
        decreases floor - e,
    {
        s = s || (m % 2 == 1);
        m = m / 2;
        e = e + 1;
    }
    let ghost raised = (m as nat, e as int, s);
    proof {
        assert(spec_raise(m as nat, e as int, s, floor as int) == raised);
    }
    // grow: a small mantissa is scaled up while the exponent stays above
    // the subnormal floor
    while m < pow && e > floor
        invariant
            pow <= 0x20000000000000,
            m < pow * 2,
            e >= floor,
            spec_grow(m as nat, e as int, floor as int, pow as nat) == spec_grow(
                raised.0,
                raised.1,
                floor as int,
                pow as nat,
            ),
            e <= raised.1,
            s == raised.2,
        decreases e - floor,
    {
        m = m * 2;
        e = e - 1;
    }
    proof {
        assert(spec_grow(m as nat, e as int, floor as int, pow as nat) == (m as nat, e as int));
    }
    (m, e, s)
}

/// Rounds a normalized triple and assembles the bit pattern, as
/// [`spec_assemble`] describes.
fn assemble(
    m: u128,
    e: i64,
    s: bool,
    pow: u128,
    w: i64,
    frac_pow: u64,
    bias: i64,
    max_eu: i64,
    floor: i64,
) -> (r: u64)
    requires
        4 <= pow <= 0x20000000000000,
        m < pow * 2,
        1 <= w <= 63,
        frac_pow as nat * 2 == pow as nat,
        1 <= bias <= 0x10000,
        1 <= max_eu <= 0x10000,
        floor == -(bias + w),
        floor <= e <= 0x20000000000,
        (max_eu + bias + 1) * (frac_pow as i64) <= 0x7fffffffffffffff,
    ensures
        r as nat == spec_assemble(
            m as nat,
            e as int,
            s,
            pow as nat,
            w as int,
            frac_pow as nat,
            bias as int,
            max_eu as int,
        ),
{
    let rb = m % 2;
    let m0 = m / 2;
    let ee = e + 1;
    let mm = if rb == 1 && (s || m0 % 2 == 1) {
        m0 + 1
    } else {
        m0
    };
    let mm2 = if mm >= pow {
        mm / 2
    } else {
        mm
    };
    let ee2 = if mm >= pow {
        ee + 1
    } else {
        ee
    };
    if mm2 == 0 {
        0
    } else if mm2 < pow / 2 {
        mm2 as u64
    } else {
        let eu = ee2 + w;
        if eu > max_eu {
            ((max_eu + bias + 1) as u64) * frac_pow
        } else {
            proof {
                assert(eu + bias >= 1);
                assert(mm2 < pow);
                assert(pow / 2 == frac_pow as u128);
                let a: int = (eu + bias) as int;
                let b: int = (max_eu + bias) as int;
                let fp: int = frac_pow as int;
                assert(a * fp + fp == (a + 1) * fp) by (nonlinear_arith);
                assert((a + 1) * fp <= (b + 1) * fp) by (nonlinear_arith)
                    requires
                        a + 1 <= b + 1,
                        fp >= 0,
                ;
                assert((b + 1) * fp <= 0x7fffffffffffffff);
            }
            ((eu + bias) as u64) * frac_pow + ((mm2 - pow / 2) as u64)
        }
    }
}

/// The bit pattern of the IEEE-754 binary64 value nearest to
/// `(m + sticky) * 2^e`, ties to even.
pub fn double_bits(m: u128, e: i64, s: bool) -> (r: u64)
    requires
        -0x10000000000 <= e <= 0x10000000000,
    ensures
        r as nat == spec_double_bits(m as nat, e as int, s),
{
    let (m2, e2, s2) = normalize(m, e, s, 0x20000000000000, -1075);
    assemble(m2, e2, s2, 0x20000000000000, 52, 0x10000000000000, 1023, 1023, -1075)
}

/// The bit pattern of the IEEE-754 binary32 value nearest to
/// `(m + sticky) * 2^e`, ties to even.
pub fn float_bits(m: u128, e: i64, s: bool) -> (r: u32)
    requires
        -0x10000000000 <= e <= 0x10000000000,
    ensures
        r as nat == spec_float_bits(m as nat, e as int, s),
{
    let (m2, e2, s2) = normalize(m, e, s, 0x1000000, -150);
    let bits = assemble(m2, e2, s2, 0x1000000, 23, 0x800000, 127, 127, -150);
    proof {
        assert(bits as nat == spec_float_bits(m as nat, e as int, s));
        assert(bits < 0x100000000) by {
            assert((127 + 127 + 1) * 0x800000 + 0x800000 <= 0x100000000);
        }
    }
    bits as u32
}

/// Shifts the mantissa right until it is below `top`, capping the exponent
/// climb at `ecap`; the cap is unreachable for any literal a source file can
/// hold and only bounds the arithmetic.
pub open spec fn spec_shrink_cap(m: nat, e: int, s: bool, top: nat, ecap: int) -> (nat, int, bool)
    decreases m,
{
    if m < top || top < 2 || e >= ecap {
        (m, e, s)
    } else {
        let (m2, e2, s2) = spec_shr1(m, e, s);
        spec_shrink_cap(m2, e2, s2, top, ecap)
    }
}

/// One multiplication of the value by ten: the mantissa is first brought
/// under 2^124 so the product fits 128 bits.
pub open spec fn spec_mul10(m: nat, e: int, s: bool) -> (nat, int, bool) {
    let (m1, e1, s1) = spec_shrink_cap(m, e, s, 0x10000000000000000000000000000000, 0x8000000000);
    if m1 < 0x10000000000000000000000000000000 {
        (m1 * 10, e1, s1)
    } else {
        (m1, e1, s1)
    }
}

/// Scales the value by 10^n, n >= 0.
pub open spec fn spec_scale_up10(m: nat, e: int, s: bool, n: nat) -> (nat, int, bool)
    decreases n,
{
    if n == 0 {
        (m, e, s)
    } else {
        let (m1, e1, s1) = spec_mul10(m, e, s);
        spec_scale_up10(m1, e1, s1, (n - 1) as nat)
    }
}

/// Ten to the `k`.
pub open spec fn spec_pow10(k: nat) -> nat
    decreases k,
{
    if k == 0 {
        1
    } else {
        10 * spec_pow10((k - 1) as nat)
    }
}

/// One division of the value by `den`: the mantissa is first scaled up to
/// 2^120 so the quotient keeps at least 60 significant bits; the remainder
/// folds into the sticky flag.
pub open spec fn spec_div_chunk(m: nat, e: int, s: bool, den: nat) -> (nat, int, bool) {
    if m == 0 || den == 0 {
        (m, e, s)
    } else {
        let (m1, e1) = spec_grow(m, e, e - 130, 0x1000000000000000000000000000000);
        (m1 / den, e1, s || m1 % den != 0)
    }
}

/// Scales the value by 10^-k, k >= 0, dividing in chunks of at most 10^18.
pub open spec fn spec_scale_down10(m: nat, e: int, s: bool, k: nat) -> (nat, int, bool)
    decreases k,
{
    if k == 0 {
        (m, e, s)
    } else {
        let kk = if k >= 18 {
            18
        } else {
            k
        };
        let (m1, e1, s1) = spec_div_chunk(m, e, s, spec_pow10(kk as nat));
        spec_scale_down10(m1, e1, s1, (k - kk) as nat)
    }
}

/// The value `(m + sticky) * 10^e10` as a mantissa, binary exponent and
/// sticky flag, ready for rounding.
pub open spec fn spec_dec_scale(m: nat, e10: int, s: bool) -> (nat, int, bool) {
    if e10 >= 0 {
        spec_scale_up10(m, 0, s, e10 as nat)
    } else {
        spec_scale_down10(m, 0, s, (-e10) as nat)
    }
}

/// The bit pattern of the IEEE-754 binary64 value nearest to
/// `(m + sticky) * 10^e10`.
pub open spec fn spec_dec_double_bits(m: nat, e10: int, s: bool) -> nat {
    let (m1, e1, s1) = spec_dec_scale(m, e10, s);
    spec_double_bits(m1, e1, s1)
}

/// The bit pattern of the IEEE-754 binary32 value nearest to
/// `(m + sticky) * 10^e10`.
pub open spec fn spec_dec_float_bits(m: nat, e10: int, s: bool) -> nat {
    let (m1, e1, s1) = spec_dec_scale(m, e10, s);
    spec_float_bits(m1, e1, s1)
}

/// Shrinks the mantissa under `top` exactly as [`spec_shrink_cap`] does.
fn shrink_cap(m0: u128, e0: i64, s0: bool, top: u128) -> (r: (u128, i64, bool))
    requires
        4 <= top,
        -0x8000000000 <= e0 <= 0x8000000000,
    ensures
        (r.0 as nat, r.1 as int, r.2) == spec_shrink_cap(
            m0 as nat,
            e0 as int,
            s0,
            top as nat,
            0x8000000000,
        ),
        r.0 < top || r.1 == 0x8000000000,
        e0 <= r.1 <= 0x8000000000,
{
    let mut m = m0;
    let mut e = e0;
    let mut s = s0;
    while m >= top && e < 0x8000000000
        invariant
            top >= 4,
            e0 <= e <= 0x8000000000,
            spec_shrink_cap(m as nat, e as int, s, top as nat, 0x8000000000) == spec_shrink_cap(
                m0 as nat,
                e0 as int,
                s0,
                top as nat,
                0x8000000000,
            ),
        decreases m,
    {
        s = s || (m % 2 == 1);
        m = m / 2;
        e = e + 1;
    }
    (m, e, s)
}

/// Ten to the `k` for the chunk sizes the divider uses.
fn pow10_u64(k: u64) -> (r: u64)
    requires
        k <= 18,
    ensures
        r as nat == spec_pow10(k as nat),
        r >= 1,
{
    let mut p: u64 = 1;
    let mut i: u64 = 0;
    while i < k
        invariant
            i <= k <= 18,
            p as nat == spec_pow10(i as nat),
            1 <= p <= 1000000000000000000,
        decreases k - i,
    {
        proof {
            assert(spec_pow10((i + 1) as nat) == 10 * spec_pow10(i as nat));
            assert(spec_pow10(i as nat) <= spec_pow10(17)) by {
                lemma_pow10_increases(i as nat, 17);
            }
            reveal_with_fuel(spec_pow10, 19);
            assert(spec_pow10(17) == 100000000000000000);
        }
        p = p * 10;
        i = i + 1;
    }
    p
}

/// Ten to a power grows with the power.
proof fn lemma_pow10_increases(a: nat, b: nat)
    requires
        a <= b,
    ensures
        spec_pow10(a) <= spec_pow10(b),
    decreases b,
{
    if a < b {
        lemma_pow10_increases(a, (b - 1) as nat);
        assert(spec_pow10(b) == 10 * spec_pow10((b - 1) as nat));
        assert(spec_pow10((b - 1) as nat) <= 10 * spec_pow10((b - 1) as nat)) by (nonlinear_arith)
            requires
                spec_pow10((b - 1) as nat) >= 0,
        ;
    }
}

/// Divides the value by `den` exactly as [`spec_div_chunk`] does.
fn div_chunk(m0: u128, e0: i64, s0: bool, den: u128) -> (r: (u128, i64, bool))
    requires
        1 <= den <= 0x1000000000000000000000000000000,
        -0x7000000000 <= e0 <= 0x8000000000,
    ensures
        (r.0 as nat, r.1 as int, r.2) == spec_div_chunk(m0 as nat, e0 as int, s0, den as nat),
        e0 - 130 <= r.1 <= e0,
        r.0 <= m0 || r.0 < 0x2000000000000000000000000000000,
{
    if m0 == 0 {
        return (0, e0, s0);
    }
    let mut m = m0;
    let mut e = e0;
    // align the mantissa so the quotient keeps at least 60 significant bits
    while m < 0x1000000000000000000000000000000 && e > e0 - 130
        invariant
            -0x7000000000 <= e0 <= 0x8000000000,
            e0 - 130 <= e <= e0,
            m >= 1,
            m < 0x2000000000000000000000000000000 || m == m0,
            spec_grow(
                m as nat,
                e as int,
                e0 - 130 as int,
                0x1000000000000000000000000000000,
            ) == spec_grow(
                m0 as nat,
                e0 as int,
                e0 - 130 as int,
                0x1000000000000000000000000000000,
            ),
        decreases e - (e0 - 130),
    {
        m = m * 2;
        e = e - 1;
    }
    let q = m / den;
    let rem_nonzero = m % den != 0;
    (q, e, s0 || rem_nonzero)
}

/// Scales the value by `10^-k` exactly as [`spec_scale_down10`] does.
fn scale_down10(m0: u128, s0: bool, k: u64) -> (r: (u128, i64, bool))
    requires
        k <= 1100,
    ensures
        (r.0 as nat, r.1 as int, r.2) == spec_scale_down10(m0 as nat, 0, s0, k as nat),
        -0x7000000000 <= r.1 <= 0,
{
    let mut m = m0;
    let mut e: i64 = 0;
    let mut s = s0;
    let mut left = k;
    while left > 0
        invariant
            left <= k <= 1100,
            -130 * (k - left) <= e <= 0,
            spec_scale_down10(m as nat, e as int, s, left as nat) == spec_scale_down10(
                m0 as nat,
                0,
                s0,
                k as nat,
            ),
        decreases left,
    {
        let kk = if left >= 18 {
            18
        } else {
            left
        };
        let den = pow10_u64(kk);
        proof {
            assert(spec_pow10(18) == 1000000000000000000) by {
                reveal_with_fuel(spec_pow10, 19);
            }
            lemma_pow10_increases(kk as nat, 18);
        }
        let (m1, e1, s1) = div_chunk(m, e, s, den as u128);
        m = m1;
        e = e1;
        s = s1;
        left = left - kk;
    }
    (m, e, s)
}

/// Scales the value by `10^n` exactly as [`spec_scale_up10`] does.
fn scale_up10(m0: u128, s0: bool, n: u64) -> (r: (u128, i64, bool))
    requires
        n <= 1100,
    ensures
        (r.0 as nat, r.1 as int, r.2) == spec_scale_up10(m0 as nat, 0, s0, n as nat),
        0 <= r.1 <= 0x8000000000,
{
    let mut m = m0;
    let mut e: i64 = 0;
    let mut s = s0;
    let mut i: u64 = 0;
    while i < n
        invariant
            i <= n <= 1100,
            0 <= e <= 0x8000000000,
            spec_scale_up10(m as nat, e as int, s, (n - i) as nat) == spec_scale_up10(
                m0 as nat,
                0,
                s0,
                n as nat,
            ),
        decreases n - i,
    {
        let (m1, e1, s1) = shrink_cap(m, e, s, 0x10000000000000000000000000000000);
        if m1 < 0x10000000000000000000000000000000 {
            m = m1 * 10;
        } else {
            m = m1;
        }
        e = e1;
        s = s1;
        i = i + 1;
    }
    (m, e, s)
}

/// The bit pattern of the IEEE-754 binary64 value nearest to
/// `(m + sticky) * 10^e10`.
pub fn dec_double_bits(m: u128, e10: i64, s: bool) -> (r: u64)
    requires
        -1100 <= e10 <= 1100,
    ensures
        r as nat == spec_dec_double_bits(m as nat, e10 as int, s),
{
    if e10 >= 0 {
        let (m1, e1, s1) = scale_up10(m, s, e10 as u64);
        double_bits(m1, e1, s1)
    } else {
        let (m1, e1, s1) = scale_down10(m, s, (-e10) as u64);
        double_bits(m1, e1, s1)
    }
}

/// The bit pattern of the IEEE-754 binary32 value nearest to
/// `(m + sticky) * 10^e10`.
pub fn dec_float_bits(m: u128, e10: i64, s: bool) -> (r: u32)
    requires
        -1100 <= e10 <= 1100,
    ensures
        r as nat == spec_dec_float_bits(m as nat, e10 as int, s),
{
    if e10 >= 0 {
        let (m1, e1, s1) = scale_up10(m, s, e10 as u64);
        float_bits(m1, e1, s1)
    } else {
        let (m1, e1, s1) = scale_down10(m, s, (-e10) as u64);
        float_bits(m1, e1, s1)
    }
}


} // verus!
