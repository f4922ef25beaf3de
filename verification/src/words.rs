//! Interpretations of a raw 32-bit word: two's-complement signed values and
//! IEEE-754 binary32 bit patterns. All executable functions here work on the
//! raw words alone; the binary32 functions cover exactly the operations whose
//! results are bit-exact functions of the operand patterns (comparisons and
//! negation).
use vstd::prelude::*;
use vstd::arithmetic::div_mod::lemma_small_mod;
use vstd::arithmetic::div_mod::lemma_mod_multiples_vanish;
use vstd::arithmetic::div_mod::lemma_fundamental_div_mod;

verus! {

/// The signed value that a word holds under two's complement.
pub open spec fn s32(x: u32) -> int {
    if x >= 0x8000_0000 {
        x - 0x1_0000_0000
    } else {
        x as int
    }
}

/// Reduction of an integer to the 32-bit word with the same residue.
pub open spec fn wrap32(x: int) -> u32 {
    (x % 0x1_0000_0000) as u32
}

/// Truncating (round toward zero) division of signed values; `b != 0`.
pub open spec fn sdiv_trunc(a: int, b: int) -> int
    recommends
        b != 0,
{
    if a >= 0 && b > 0 {
        a / b
    } else if a < 0 && b < 0 {
        (-a) / (-b)
    } else if a < 0 {
        -((-a) / b)
    } else {
        -(a / (-b))
    }
}

/// Remainder of truncating division; it takes the sign of the dividend.
pub open spec fn srem_trunc(a: int, b: int) -> int
    recommends
        b != 0,
{
    a - b * sdiv_trunc(a, b)
}

/// A residue already in word range wraps to itself.
pub proof fn lemma_wrap32_small(x: int)
    requires
        0 <= x < 0x1_0000_0000,
    ensures
        wrap32(x) == x,
{
    lemma_small_mod(x as nat, 0x1_0000_0000);
}

/// Adding a multiple of the word range does not change the wrapped value.
pub proof fn lemma_wrap32_shift(x: int, k: int)
    ensures
        wrap32(x + k * 0x1_0000_0000) == wrap32(x),
    decreases (if k >= 0 { k } else { -k }),
{
    if k > 0 {
        lemma_wrap32_shift(x, k - 1);
        lemma_mod_multiples_vanish(1, x + (k - 1) * 0x1_0000_0000, 0x1_0000_0000);
    } else if k < 0 {
        lemma_wrap32_shift(x, k + 1);
        lemma_mod_multiples_vanish(-1, x + (k + 1) * 0x1_0000_0000, 0x1_0000_0000);
    }
}

/// The signed reading of a word differs from the unsigned one by a multiple
/// of the word range, so sums wrap to the same word either way. This is the
/// family-purity fact for addition: on equal bit patterns the unsigned and
/// the signed addition produce the identical result word, whether or not the
/// signed sum overflows.
pub proof fn lemma_family_purity_add(a: u32, b: u32)
    ensures
        wrap32(s32(a) + s32(b)) == wrap32(a + b),
{
    let d: int = (if a >= 0x8000_0000 { 1int } else { 0int }) + (if b >= 0x8000_0000 {
        1int
    } else {
        0int
    });
    assert(s32(a) + s32(b) == a + b - d * 0x1_0000_0000);
    lemma_wrap32_shift(s32(a) + s32(b), d);
}

/// Family purity for subtraction: unsigned and signed subtraction of equal
/// bit patterns wrap to the identical result word.
pub proof fn lemma_family_purity_sub(a: u32, b: u32)
    ensures
        wrap32(s32(a) - s32(b)) == wrap32(a - b),
{
    let d: int = (if a >= 0x8000_0000 { 1int } else { 0int }) - (if b >= 0x8000_0000 {
        1int
    } else {
        0int
    });
    assert(s32(a) - s32(b) == a - b - d * 0x1_0000_0000);
    lemma_wrap32_shift(s32(a) - s32(b), d);
}

/// Family purity for multiplication: unsigned and signed multiplication of
/// equal bit patterns wrap to the identical result word.
pub proof fn lemma_family_purity_mul(a: u32, b: u32)
    ensures
        wrap32(s32(a) * s32(b)) == wrap32(a * b),
{
    let ka: int = if a >= 0x8000_0000 { 1int } else { 0int };
    let kb: int = if b >= 0x8000_0000 { 1int } else { 0int };
    assert(s32(a) * s32(b) == a * b + (ka * kb * 0x1_0000_0000 - ka * b - kb * a)
        * 0x1_0000_0000) by (nonlinear_arith)
        requires
            s32(a) == a - ka * 0x1_0000_0000,
            s32(b) == b - kb * 0x1_0000_0000,
    ;
    lemma_wrap32_shift(a * b, ka * kb * 0x1_0000_0000 - ka * b - kb * a);
}

/// The word for the negated signed value.
pub fn signed_negate_bits(x: u32) -> (r: u32)
    ensures
        r == wrap32(-s32(x)),
{
    let r = 0u32.wrapping_sub(x);
    proof {
        if x == 0 {
            lemma_wrap32_small(0);
        } else if x >= 0x8000_0000 {
            lemma_wrap32_shift(-s32(x), 0);
            lemma_wrap32_small(-s32(x));
        } else {
            lemma_wrap32_shift(-s32(x), 1);
            lemma_wrap32_small(-(x as int) + 0x1_0000_0000);
        }
    }
    r
}

/// The word for the wrapped signed (equally, unsigned) sum.
pub fn wrapping_add_bits(a: u32, b: u32) -> (r: u32)
    ensures
        r == wrap32(a + b),
        r == wrap32(s32(a) + s32(b)),
{
    let r = a.wrapping_add(b);
    proof {
        if a + b <= u32::MAX {
            lemma_wrap32_small(a + b);
        } else {
            lemma_wrap32_shift(a + b - 0x1_0000_0000, 1);
            lemma_wrap32_small(a + b - 0x1_0000_0000);
        }
        lemma_family_purity_add(a, b);
    }
    r
}

/// The word for the wrapped signed (equally, unsigned) difference.
pub fn wrapping_sub_bits(a: u32, b: u32) -> (r: u32)
    ensures
        r == wrap32(a - b),
        r == wrap32(s32(a) - s32(b)),
{
    let r = a.wrapping_sub(b);
    proof {
        if a >= b {
            lemma_wrap32_small(a - b);
        } else {
            lemma_wrap32_shift(a - b, 1);
            lemma_wrap32_small(a - b + 0x1_0000_0000);
        }
        lemma_family_purity_sub(a, b);
    }
    r
}

/// The word for the wrapped signed (equally, unsigned) product.
pub fn wrapping_mul_bits(a: u32, b: u32) -> (r: u32)
    ensures
        r == wrap32(a * b),
        r == wrap32(s32(a) * s32(b)),
{
    let r = a.wrapping_mul(b);
    proof {
        assert(a * b >= 0) by (nonlinear_arith);
        assert((a as nat * b as nat) % 0x1_0000_0000nat == (a * b) % 0x1_0000_0000);
        lemma_family_purity_mul(a, b);
    }
    r
}

/// Magnitude of the signed reading of a word, as the word holding `|s32(x)|`.
fn signed_magnitude(x: u32) -> (r: u32)
    ensures
        r as int == (if s32(x) >= 0 { s32(x) } else { -s32(x) }),
{
    if x >= 0x80000000 {
        0u32.wrapping_sub(x)
    } else {
        x
    }
}

/// The word for the truncating signed quotient.
pub fn signed_div_bits(a: u32, b: u32) -> (r: u32)
    requires
        b != 0,
    ensures
        r == wrap32(sdiv_trunc(s32(a), s32(b))),
{
    let na = a >= 0x80000000;
    let nb = b >= 0x80000000;
    let ma = signed_magnitude(a);
    let mb = signed_magnitude(b);
    let q = ma / mb;
    if na == nb {
        proof {
            lemma_wrap32_small(sdiv_trunc(s32(a), s32(b)));
        }
        q
    } else {
        let r = 0u32.wrapping_sub(q);
        proof {
            assert(sdiv_trunc(s32(a), s32(b)) == -(q as int));
            if q == 0 {
                lemma_wrap32_small(0);
            } else {
                lemma_wrap32_shift(-(q as int), 1);
                lemma_wrap32_small(-(q as int) + 0x1_0000_0000);
            }
        }
        r
    }
}

/// The word for the remainder of truncating signed division; it carries the
/// sign of the dividend.
pub fn signed_rem_bits(a: u32, b: u32) -> (r: u32)
    requires
        b != 0,
    ensures
        r == wrap32(srem_trunc(s32(a), s32(b))),
{
    let na = a >= 0x80000000;
    let ma = signed_magnitude(a);
    let mb = signed_magnitude(b);
    let m = ma % mb;
    proof {
        let sa = s32(a);
        let sb = s32(b);
        let q = sdiv_trunc(sa, sb);
        lemma_fundamental_div_mod(ma as int, mb as int);
        assert(ma as int == mb * (ma as int / mb as int) + ma as int % mb as int);
        if sa >= 0 && sb > 0 {
            assert(srem_trunc(sa, sb) == m);
        } else if sa < 0 && sb < 0 {
            assert(q == ma as int / mb as int);
            assert(sb * q == -(mb as int * (ma as int / mb as int))) by (nonlinear_arith)
                requires
                    sb == -(mb as int),
                    q == ma as int / mb as int,
            ;
            assert(srem_trunc(sa, sb) == -(m as int));
        } else if sa < 0 {
            assert(q == -(ma as int / mb as int));
            assert(sb * q == -(mb as int * (ma as int / mb as int))) by (nonlinear_arith)
                requires
                    sb == mb as int,
                    q == -(ma as int / mb as int),
            ;
            assert(srem_trunc(sa, sb) == -(m as int));
        } else {
            assert(q == -(ma as int / mb as int));
            assert(sb * q == mb as int * (ma as int / mb as int)) by (nonlinear_arith)
                requires
                    sb == -(mb as int),
                    q == -(ma as int / mb as int),
            ;
            assert(srem_trunc(sa, sb) == m);
        }
    }
    if na {
        let r = 0u32.wrapping_sub(m);
        proof {
            if m == 0 {
                lemma_wrap32_small(0);
            } else {
                lemma_wrap32_shift(-(m as int), 1);
                lemma_wrap32_small(-(m as int) + 0x1_0000_0000);
            }
        }
        r
    } else {
        proof {
            lemma_wrap32_small(m as int);
        }
        m
    }
}

/// Whether the signed reading of `a` is strictly below that of `b`.
pub fn signed_lt_bits(a: u32, b: u32) -> (r: bool)
    ensures
        r == (s32(a) < s32(b)),
{
    let na = a >= 0x80000000;
    let nb = b >= 0x80000000;
    if na != nb {
        na
    } else {
        a < b
    }
}

/// Bit pattern of an IEEE-754 binary32 not-a-number: exponent all ones and a
/// non-zero mantissa.
pub open spec fn f32_is_nan(x: u32) -> bool {
    x % 0x8000_0000 > 0x7F80_0000
}

/// Order key of a binary32 pattern that is not a NaN: the magnitude bits,
/// negated when the sign bit is set. Both zeros share the key 0, and the IEEE
/// order of two non-NaN values is the order of their keys.
pub open spec fn f32_key(x: u32) -> int {
    if x >= 0x8000_0000 {
        -(x % 0x8000_0000)
    } else {
        x as int
    }
}

/// IEEE-754 `<` on binary32 bit patterns; false when either side is a NaN.
pub open spec fn f32_lt(a: u32, b: u32) -> bool {
    !f32_is_nan(a) && !f32_is_nan(b) && f32_key(a) < f32_key(b)
}

/// IEEE-754 `<=` on binary32 bit patterns; false when either side is a NaN.
pub open spec fn f32_le(a: u32, b: u32) -> bool {
    !f32_is_nan(a) && !f32_is_nan(b) && f32_key(a) <= f32_key(b)
}

/// Whether a word is a binary32 NaN pattern.
pub fn float_is_nan_bits(x: u32) -> (r: bool)
    ensures
        r == f32_is_nan(x),
{
    x % 0x80000000 > 0x7F800000
}

/// IEEE-754 `<` computed on the bit patterns.
pub fn float_lt_bits(a: u32, b: u32) -> (r: bool)
    ensures
        r == f32_lt(a, b),
{
    if float_is_nan_bits(a) || float_is_nan_bits(b) {
        false
    } else {
        let na = a >= 0x80000000;
        let nb = b >= 0x80000000;
        let ma = a % 0x80000000;
        let mb = b % 0x80000000;
        if na != nb {
            na && (ma != 0 || mb != 0)
        } else if na {
            mb < ma
        } else {
            a < b
        }
    }
}

/// IEEE-754 `<=` computed on the bit patterns.
pub fn float_le_bits(a: u32, b: u32) -> (r: bool)
    ensures
        r == f32_le(a, b),
{
    if float_is_nan_bits(a) || float_is_nan_bits(b) {
        false
    } else {
        !float_lt_bits(b, a)
    }
}

/// The binary32 negation of a pattern: the sign bit flipped, every other bit
/// kept, NaN patterns included.
pub open spec fn f32_negate(x: u32) -> u32 {
    if x >= 0x8000_0000 {
        (x - 0x8000_0000) as u32
    } else {
        (x + 0x8000_0000) as u32
    }
}

/// Flips the sign bit of a binary32 pattern.
pub fn float_negate_bits(x: u32) -> (r: u32)
    ensures
        r == f32_negate(x),
{
    if x >= 0x80000000 {
        x - 0x80000000
    } else {
        x + 0x80000000
    }
}

/// The bitwise complement, written arithmetically.
pub fn not_bits(x: u32) -> (r: u32)
    ensures
        r == 0xFFFF_FFFFu32 - x,
{
    0xFFFFFFFFu32 - x
}

} // verus!
