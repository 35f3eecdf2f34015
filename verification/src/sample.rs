//! Fixed-point amplitudes.
//!
//! A sample is an `i32` in Q16.16 fixed point: `UNIT` (65536) stands for a
//! full-scale amplitude of one.  The representation keeps headroom above
//! full scale, so a hot signal is carried through unclamped; clamping to the
//! display range happens only in the volume meter.

use vstd::prelude::*;
use vstd::arithmetic::power2::{
    pow2,
    lemma_pow2_unfold,
    lemma_pow2_strictly_increases,
    lemma2_to64,
};
use vstd::arithmetic::div_mod::{lemma_div_multiples_vanish, lemma_div_is_ordered};
use vstd::arithmetic::mul::lemma_mul_inequality;
use vstd::bits::lemma_u64_shl_is_mul;

verus! {

/// Fixed-point value of a full-scale amplitude of one.
pub const UNIT: u32 = 65536;

/// Magnitude of a fixed-point sample, as a mathematical integer.
pub open spec fn mag(s: i32) -> int {
    if s >= 0 {
        s as int
    } else {
        -(s as int)
    }
}

/// Magnitude of a fixed-point sample.  Total: the magnitude of every `i32`,
/// including the minimum, fits in a `u32`.
pub fn magnitude(s: i32) -> (m: u32)
    ensures
        m as int == mag(s),
{
    if s >= 0 {
        s as u32
    } else {
        (-(s as i64)) as u32
    }
}

/// The fixed-point amplitude a signed 16-bit hardware sample stands for:
/// `v / 32768` in amplitude, so `v * 2` in Q16.16.
pub open spec fn spec_normalize_i16(v: i16) -> i32 {
    (2 * (v as int)) as i32
}

/// Normalize a signed 16-bit hardware sample to Q16.16.
pub fn normalize_i16(v: i16) -> (s: i32)
    ensures
        s == spec_normalize_i16(v),
        s as int == 2 * (v as int),
        mag(s) <= UNIT,
{
    2 * (v as i32)
}

/// The fixed-point amplitude an unsigned 16-bit hardware sample stands for:
/// the range midpoint 32768 is silence, so `(v - 32768) / 32768` in
/// amplitude, `(v - 32768) * 2` in Q16.16.
pub open spec fn spec_normalize_u16(v: u16) -> i32 {
    (2 * (v as int - 32768)) as i32
}

/// Normalize an unsigned 16-bit hardware sample to Q16.16.
pub fn normalize_u16(v: u16) -> (s: i32)
    ensures
        s == spec_normalize_u16(v),
        s as int == 2 * (v as int - 32768),
        mag(s) <= UNIT,
{
    2 * (v as i32 - 32768)
}

/// The 16-bit integer a fixed-point sample is quantized to when written to a
/// 16-bit PCM container: `s / 2` (Q16.16 rescaled to a 1.15 integer, rounded
/// toward zero), clamped to the representable range.
pub open spec fn spec_quantize_i16(s: i32) -> i16 {
    let q = if s >= 0 {
        (s as int) / 2
    } else {
        -(mag(s) / 2)
    };
    if q > 32767 {
        32767i16
    } else if q < -32768 {
        -32768i16
    } else {
        q as i16
    }
}

/// Quantize a fixed-point sample for a 16-bit PCM container.
pub fn quantize_i16(s: i32) -> (q: i16)
    ensures
        q == spec_quantize_i16(s),
{
    let half: u32 = magnitude(s) / 2;
    if s >= 0 {
        if half > 32767 {
            32767
        } else {
            half as i16
        }
    } else {
        if half > 32768 {
            -32768
        } else {
            (-(half as i32)) as i16
        }
    }
}

/// Floor of the base-2 logarithm of a positive integer.
pub open spec fn floor_log2(v: int) -> int
    recommends
        v >= 1,
    decreases v when v >= 1
{
    if v < 2 {
        0
    } else {
        1 + floor_log2(v / 2)
    }
}

/// `floor_log2` names the position of the highest set bit:
/// `2^floor_log2(v) <= v < 2^(floor_log2(v) + 1)`.
pub proof fn lemma_floor_log2(v: int)
    requires
        v >= 1,
    ensures
        0 <= floor_log2(v),
        pow2(floor_log2(v) as nat) <= v < pow2((floor_log2(v) + 1) as nat),
    decreases v,
{
    if v < 2 {
        lemma2_to64();
    } else {
        lemma_floor_log2(v / 2);
        let l = floor_log2(v / 2);
        lemma_pow2_unfold((l + 1) as nat);
        lemma_pow2_unfold((l + 2) as nat);
        assert(v / 2 >= pow2(l as nat));
        assert(v >= 2 * (v / 2));
        assert(v / 2 + 1 <= pow2((l + 1) as nat));
        assert(v <= 2 * (v / 2) + 1);
    }
}

/// The IEEE 754 single-precision bit pattern that stands for the amplitude
/// `s / 65536` of a fixed-point sample, the significand truncated toward
/// zero where the sample carries more than 24 significant bits.  With
/// `m = |s|` and `p` the position of its highest bit, the encoded number is
/// `(2^23 + frac) * 2^(p - 16 - 23)`, stored as sign bit, biased exponent
/// `(p - 16) + 127` and 23-bit fraction.  Every Q16.16 value of magnitude
/// below `2^24` is encoded exactly; zero maps to positive zero.
pub open spec fn spec_f32_bits(s: i32) -> u32 {
    if s == 0 {
        0u32
    } else {
        let m = mag(s);
        let p = floor_log2(m);
        let frac = m * 0x800000 / pow2(p as nat) as int - 0x800000;
        let sign: int = if s < 0 {
            0x80000000
        } else {
            0
        };
        (sign + (p + 111) * 0x800000 + frac) as u32
    }
}

/// Below 24 significant bits the float encoding is exact: the stored
/// significand (hidden bit plus fraction) times `2^p` equals the magnitude
/// times `2^23`, so the encoded number is exactly `s / 65536` — no sample
/// between minus and plus 256 full scales loses precision.
pub proof fn lemma_f32_bits_exact(s: i32)
    requires
        s != 0,
        mag(s) < 0x1000000,
    ensures
        ({
            let m = mag(s);
            let p = floor_log2(m);
            let frac = m * 0x800000 / pow2(p as nat) as int - 0x800000;
            (0x800000 + frac) * pow2(p as nat) == m * 0x800000
        }),
{
    let m = mag(s);
    lemma_floor_log2(m);
    let p = floor_log2(m);
    lemma2_to64();
    if p >= 24 {
        if p > 24 {
            lemma_pow2_strictly_increases(24, p as nat);
        }
        assert(false);
    }
    let q = pow2((23 - p) as nat) as int;
    let d = pow2(p as nat) as int;
    vstd::arithmetic::power2::lemma_pow2_adds((23 - p) as nat, p as nat);
    assert(m * 0x800000 == d * (m * q)) by (nonlinear_arith)
        requires
            q * d == 0x800000,
    {
    }
    lemma_div_multiples_vanish(m * q, d);
    assert((0x800000 + (m * q - 0x800000)) * d == m * (q * d)) by (nonlinear_arith);
}

/// Build the IEEE 754 single-precision bit pattern for a fixed-point
/// sample's amplitude `s / 65536`.
pub fn f32_bits(s: i32) -> (bits: u32)
    ensures
        bits == spec_f32_bits(s),
{
    if s == 0 {
        return 0;
    }
    let m: u32 = magnitude(s);
    proof {
        lemma_floor_log2(m as int);
        let fl = floor_log2(m as int);
        if fl >= 32 {
            lemma2_to64();
            if fl > 32 {
                lemma_pow2_strictly_increases(32, fl as nat);
            }
            assert(false);
        }
    }
    let mut p: u32 = 0;
    let mut t: u32 = m;
    while t >= 2
        invariant
            1 <= t <= m,
            floor_log2(m as int) == p + floor_log2(t as int),
            0 <= floor_log2(t as int),
            floor_log2(m as int) <= 31,
        decreases t,
    {
        proof {
            lemma_floor_log2((t / 2) as int);
        }
        t = t / 2;
        p = p + 1;
    }
    proof {
        assert(floor_log2(m as int) == p as int);
        lemma_floor_log2(m as int);
        lemma2_to64();
        lemma_u64_shl_is_mul(1u64, p as u64);
    }
    let denom: u64 = 1u64 << p;
    proof {
        let mi = m as int;
        let pw = pow2(p as nat) as int;
        assert(denom == pw);
        // frac is in [0, 2^23): m in [2^p, 2^(p+1)) scales to
        // m * 2^23 / 2^p in [2^23, 2^24).
        lemma_mul_inequality(pw, mi, 0x800000);
        lemma_div_multiples_vanish(0x800000, pw);
        lemma_div_is_ordered(pw * 0x800000, mi * 0x800000, pw);
        assert(mi * 0x800000 / pw >= 0x800000);
        lemma_pow2_unfold((p + 1) as nat);
        assert(mi + 1 <= 2 * pw);
        lemma_mul_inequality(mi + 1, 2 * pw, 0x800000);
        lemma_div_is_ordered(mi * 0x800000, 2 * pw * 0x800000 - 1, pw);
        assert(2 * pw * 0x800000 / pw == 0x1000000) by {
            lemma_div_multiples_vanish(0x1000000, pw);
        }
        assert((2 * pw * 0x800000 - 1) / pw < 0x1000000) by {
            lemma_div_is_ordered(2 * pw * 0x800000 - 1, 2 * pw * 0x800000, pw);
            if (2 * pw * 0x800000 - 1) / pw == 0x1000000 {
                assert(0x1000000 * pw <= 2 * pw * 0x800000 - 1) by (nonlinear_arith)
                    requires
                        pw >= 1,
                        (2 * pw * 0x800000 - 1) / pw == 0x1000000,
                {
                }
                assert(false);
            }
        }
        assert(mi * 0x800000 / pw < 0x1000000);
    }
    let frac: u64 = (m as u64) * 0x800000 / denom - 0x800000;
    let sign: u32 = if s < 0 {
        0x80000000
    } else {
        0
    };
    sign + (p + 111) * 0x800000 + (frac as u32)
}

} // verus!
