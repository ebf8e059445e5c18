//! IEEE-754 binary32 values held as their bit patterns, and the saturating
//! truncation of such a value to an unsigned 32-bit integer.
use vstd::prelude::*;
use vstd::arithmetic::power2::{pow2, lemma_pow2_unfold, lemma_pow2_strictly_increases};
use vstd::arithmetic::div_mod::lemma_div_denominator;

verus! {

/// The sign bit.
pub open spec fn f32_is_negative(bits: u32) -> bool {
    bits >= 0x8000_0000
}

/// The biased exponent field (8 bits).
pub open spec fn f32_exponent(bits: u32) -> nat {
    ((bits as nat) / pow2(23)) % 256
}

/// The stored fraction field (23 bits).
pub open spec fn f32_fraction(bits: u32) -> nat {
    (bits as nat) % pow2(23)
}

/// Not a number: all exponent bits set and a non-zero fraction.
pub open spec fn f32_is_nan(bits: u32) -> bool {
    f32_exponent(bits) == 255 && f32_fraction(bits) != 0
}

/// A finite value greater than zero (normal or subnormal).
pub open spec fn f32_is_positive_finite(bits: u32) -> bool {
    0 < bits < 0x7f80_0000
}

/// The magnitude of a finite value, rounded toward zero to an integer.
///
/// A normal value with biased exponent `e` and fraction `f` is
/// `(2^23 + f) * 2^(e - 150)`; a subnormal value is below one.
pub open spec fn f32_trunc_magnitude(bits: u32) -> nat {
    let e = f32_exponent(bits);
    let m = pow2(23) + f32_fraction(bits);
    if e == 0 {
        0
    } else if e >= 150 {
        m * pow2((e - 150) as nat)
    } else {
        m / pow2((150 - e) as nat)
    }
}

/// What casting the value to `u32` gives: rounding toward zero, saturating
/// at both ends of the range, and mapping not-a-number to zero.
pub open spec fn f32_to_u32_spec(bits: u32) -> u32 {
    if f32_is_nan(bits) || f32_is_negative(bits) {
        0
    } else if f32_trunc_magnitude(bits) > u32::MAX as nat {
        u32::MAX
    } else {
        f32_trunc_magnitude(bits) as u32
    }
}

proof fn lemma_fields(bits: u32)
    ensures
        f32_exponent(bits) == ((bits >> 23u32) & 0xff) as nat,
        f32_fraction(bits) == (bits & 0x7f_ffff) as nat,
        f32_is_negative(bits) <==> (bits >> 31u32) == 1,
        pow2(23) == 0x80_0000,
{
    vstd::arithmetic::power2::lemma2_to64();
    assert((bits >> 23u32) & 0xff == (bits / 0x80_0000) % 256) by (bit_vector);
    assert(bits & 0x7f_ffff == bits % 0x80_0000) by (bit_vector);
    assert(bits >= 0x8000_0000 <==> (bits >> 31u32) == 1) by (bit_vector);
}

/// Shifts `m` left by `k` places as repeated doubling, proved equal to `m * 2^k`.
fn scale_up(m: u32, k: u32) -> (r: u32)
    requires
        m < 0x100_0000,
        k <= 8,
    ensures
        r as nat == m as nat * pow2(k as nat),
{
    let mut v: u32 = m;
    let mut i: u32 = 0;
    proof {
        vstd::arithmetic::power2::lemma2_to64();
    }
    while i < k
        invariant
            i <= k <= 8,
            m < 0x100_0000,
            v as nat == m as nat * pow2(i as nat),
        decreases k - i,
    {
        proof {
            lemma_pow2_unfold((i + 1) as nat);
            if i + 1 < 8 {
                lemma_pow2_strictly_increases((i + 1) as nat, 8);
            }
            vstd::arithmetic::power2::lemma2_to64();
            assert(m as nat * pow2((i + 1) as nat) <= 0xff_ffff * 256) by (nonlinear_arith)
                requires
                    m < 0x100_0000,
                    pow2((i + 1) as nat) <= 256,
            ;
            assert(m as nat * pow2((i + 1) as nat) == (m as nat * pow2(i as nat)) * 2)
                by (nonlinear_arith)
                requires
                    pow2((i + 1) as nat) == 2 * pow2(i as nat),
            ;
        }
        v = v * 2;
        i = i + 1;
    }
    v
}

/// Shifts `m` right by `k` places as repeated halving, proved equal to `m / 2^k`.
fn scale_down(m: u32, k: u32) -> (r: u32)
    ensures
        r as nat == m as nat / pow2(k as nat),
{
    let mut v: u32 = m;
    let mut i: u32 = 0;
    proof {
        vstd::arithmetic::power2::lemma2_to64();
    }
    while i < k
        invariant
            i <= k,
            v as nat == m as nat / pow2(i as nat),
        decreases k - i,
    {
        proof {
            lemma_pow2_unfold((i + 1) as nat);
            vstd::arithmetic::power2::lemma_pow2_pos(i as nat);
            lemma_div_denominator(m as int, pow2(i as nat) as int, 2);
        }
        v = v / 2;
        i = i + 1;
    }
    v
}

/// Converts a binary32 value, given by its bits, to `u32` as the `as` cast
/// does: toward zero, saturating, not-a-number to zero.
pub fn f32_bits_to_u32(bits: u32) -> (r: u32)
    ensures
        r == f32_to_u32_spec(bits),
{
    proof {
        lemma_fields(bits);
    }
    let exponent: u32 = (bits >> 23u32) & 0xff;
    let fraction: u32 = bits & 0x7f_ffff;
    if (bits >> 31u32) == 1 {
        0
    } else if exponent == 0xff {
        if fraction != 0 {
            0
        } else {
            proof {
                lemma_saturates(bits);
            }
            u32::MAX
        }
    } else if exponent == 0 {
        0
    } else if exponent >= 159 {
        proof {
            lemma_saturates(bits);
        }
        u32::MAX
    } else {
        let m: u32 = fraction + 0x80_0000;
        if exponent >= 150 {
            let r = scale_up(m, exponent - 150);
            r
        } else {
            scale_down(m, 150 - exponent)
        }
    }
}

proof fn lemma_saturates(bits: u32)
    requires
        f32_exponent(bits) >= 159,
    ensures
        f32_trunc_magnitude(bits) > u32::MAX as nat,
{
    let e = f32_exponent(bits);
    let m = pow2(23) + f32_fraction(bits);
    vstd::arithmetic::power2::lemma2_to64();
    if (e - 150) as nat > 9 {
        lemma_pow2_strictly_increases(9, (e - 150) as nat);
    }
    assert(m * pow2((e - 150) as nat) >= 0x80_0000 * 512) by (nonlinear_arith)
        requires
            m >= 0x80_0000,
            pow2((e - 150) as nat) >= 512,
    ;
}

} // verus!
