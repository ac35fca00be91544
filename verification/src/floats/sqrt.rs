//! The IEEE 754 square root, computed and verified on the bit pattern alone.
//!
//! The value is decomposed into significand and exponent, scaled to an even
//! exponent wide enough for a 54-bit integer square root, and rounded to
//! nearest with ties to even. Every step is plain integer arithmetic, so the
//! whole function carries an exact specification; no floating-point unit and
//! no outside code takes part.

use vstd::prelude::*;

use super::{is_nan_bits64, Float64};

verus! {

/// The restoring integer square root, descending one result bit at a time:
/// a candidate bit is kept exactly when the enlarged root still squares to no
/// more than the radicand.
pub open spec fn isqrt_rec(n: u128, bit: u64, q: u64) -> u64
    decreases bit,
{
    if bit == 0 {
        q
    } else {
        if (q + bit) * (q + bit) <= n {
            isqrt_rec(n, (bit / 2) as u64, (q + bit) as u64)
        } else {
            isqrt_rec(n, (bit / 2) as u64, q)
        }
    }
}

/// How many doublings bring a significand up to the normalized range.
pub open spec fn norm_shifts(m: u64) -> nat
    decreases 0x20_0000_0000_0000 - m,
{
    if m == 0 || m >= 0x10_0000_0000_0000 {
        0
    } else {
        1 + norm_shifts((2 * m) as u64)
    }
}

/// The significand after normalization.
pub open spec fn norm_sig(m: u64) -> u64
    decreases 0x20_0000_0000_0000 - m,
{
    if m == 0 || m >= 0x10_0000_0000_0000 {
        m
    } else {
        norm_sig((2 * m) as u64)
    }
}

/// A positive significand reaches the normalized range within its leading
/// zeros.
proof fn lemma_norm_shifts_bound(m: u64, j: nat)
    requires
        1 <= m,
        j <= 52,
        m >= vstd::arithmetic::power2::pow2(j),
    ensures
        norm_shifts(m) <= 52 - j,
    decreases 52 - j,
{
    vstd::arithmetic::power2::lemma2_to64();
    vstd::arithmetic::power2::lemma2_to64_rest();
    if m >= 0x10_0000_0000_0000 {
    } else {
        assert(j < 52) by {
            if j == 52 {
                assert(vstd::arithmetic::power2::pow2(52) == 0x10_0000_0000_0000);
            }
        }
        assert((2 * m) as u64 >= vstd::arithmetic::power2::pow2(j + 1)) by {
            vstd::arithmetic::power2::lemma_pow2_unfold(j + 1);
        }
        lemma_norm_shifts_bound((2 * m) as u64, j + 1);
    }
}

/// The square root pattern of a positive finite nonzero pattern: normalize
/// the significand, scale it to an even exponent with at least 106 bits, take
/// the 54-bit integer square root, and round to nearest, ties to even.
pub open spec fn sqrt_pos_bits64(b: u64) -> u64 {
    let e_field = b >> 52;
    let frac = b & 0xf_ffff_ffff_ffff;
    let m0: u64 = if e_field == 0 {
        frac
    } else {
        (frac + 0x10_0000_0000_0000) as u64
    };
    let e0: int = if e_field == 0 {
        -1074
    } else {
        e_field - 1075
    };
    let m = norm_sig(m0);
    let e = e0 - norm_shifts(m0);
    let sh: int = if (e + 1182) % 2 == 0 {
        54
    } else {
        55
    };
    let nbig: u128 = if sh == 54 {
        ((m as u128) * 0x40_0000_0000_0000) as u128
    } else {
        ((m as u128) * 0x80_0000_0000_0000) as u128
    };
    let e2 = e - sh;
    let q = isqrt_rec(nbig, 0x20_0000_0000_0000, 0);
    let qq = (q / 2) as u64;
    let my: u64 = if q % 2 == 0 {
        qq
    } else if q * q == nbig {
        (qq + (qq % 2)) as u64
    } else {
        (qq + 1) as u64
    };
    let my2: u64 = if my == 0x20_0000_0000_0000 {
        0x10_0000_0000_0000
    } else {
        my
    };
    let rexp: int = if my == 0x20_0000_0000_0000 {
        e2 / 2 + 2
    } else {
        e2 / 2 + 1
    };
    let biased: u64 = (rexp + 1075) as u64;
    (biased << 52) | ((my2 - 0x10_0000_0000_0000) as u64)
}

/// The square root pattern of any 64-bit pattern: the zeros and plus
/// infinity return themselves, a `NaN` or a negative value gives the
/// canonical quiet `NaN`, and a positive finite value is rounded to nearest,
/// ties to even.
pub open spec fn sqrt_bits64(b: u64) -> u64 {
    let mag = b & 0x7fff_ffff_ffff_ffff;
    if mag == 0 {
        b
    } else if is_nan_bits64(b) {
        0x7ff8_0000_0000_0000
    } else if b >> 63 == 1 {
        0x7ff8_0000_0000_0000
    } else if mag == 0x7ff0_0000_0000_0000 {
        b
    } else {
        sqrt_pos_bits64(b)
    }
}

/// The IEEE 754 square root of a 64-bit pattern, computed on the bits.
pub fn fsqrt64(b: u64) -> (r: u64)
    ensures
        r == sqrt_bits64(b),
{
    let mag = b & 0x7fff_ffff_ffff_ffff;
    if mag == 0 {
        return b;
    }
    if (b >> 52) & 0x7ff == 0x7ff && b & 0x000f_ffff_ffff_ffff != 0 {
        return 0x7ff8_0000_0000_0000;
    }
    if b >> 63 == 1 {
        return 0x7ff8_0000_0000_0000;
    }
    if mag == 0x7ff0_0000_0000_0000 {
        return b;
    }
    let e_field = b >> 52;
    let frac = b & 0xf_ffff_ffff_ffff;
    proof {
        assert(b >> 63 == 0) by (bit_vector)
            requires
                !(b >> 63 == 1),
        ;
        assert(frac < 0x10_0000_0000_0000) by (bit_vector)
            requires
                frac == b & 0xf_ffff_ffff_ffff,
        ;
        assert(e_field < 0x800) by (bit_vector)
            requires
                e_field == b >> 52,
                b >> 63 == 0,
        ;
        assert(e_field != 0x7ff) by (bit_vector)
            requires
                e_field == b >> 52,
                b >> 63 == 0,
                !((b >> 52) & 0x7ff == 0x7ff && b & 0x000f_ffff_ffff_ffff != 0),
                b & 0x7fff_ffff_ffff_ffff != 0x7ff0_0000_0000_0000,
        ;
        assert(e_field == 0 ==> frac != 0) by (bit_vector)
            requires
                e_field == b >> 52,
                frac == b & 0xf_ffff_ffff_ffff,
                b & 0x7fff_ffff_ffff_ffff != 0,
                b >> 63 == 0,
        ;
    }
    let m0: u64 = if e_field == 0 {
        frac
    } else {
        frac + 0x10_0000_0000_0000
    };
    let e0: i32 = if e_field == 0 {
        -1074i32
    } else {
        (e_field as i32) - 1075
    };
    proof {
        vstd::arithmetic::power2::lemma2_to64();
        vstd::arithmetic::power2::lemma2_to64_rest();
        lemma_norm_shifts_bound(m0, 0);
    }
    // normalize the significand
    let mut m: u64 = m0;
    let mut k: u32 = 0;
    while m < 0x10_0000_0000_0000
        invariant
            1 <= m < 0x20_0000_0000_0000,
            norm_sig(m) == norm_sig(m0),
            k + norm_shifts(m) == norm_shifts(m0),
            norm_shifts(m0) <= 52,
        decreases 0x20_0000_0000_0000 - m,
    {
        m = m * 2;
        k = k + 1;
    }
    proof {
        assert(norm_shifts(m) == 0);
        assert(norm_sig(m) == m);
        assert(k == norm_shifts(m0));
    }
    let e: i32 = e0 - (k as i32);
    proof {
        assert(-1126 <= e <= 971);
    }
    let sh: u32 = if ((e + 1182) as u32) % 2 == 0 {
        54
    } else {
        55
    };
    let nbig: u128 = if sh == 54 {
        (m as u128) * 0x40_0000_0000_0000
    } else {
        (m as u128) * 0x80_0000_0000_0000
    };
    let e2: i32 = e - (sh as i32);
    proof {
        if sh == 54 {
            vstd::arithmetic::mul::lemma_mul_inequality(
                0x10_0000_0000_0000,
                m as int,
                0x40_0000_0000_0000,
            );
            vstd::arithmetic::mul::lemma_mul_strict_inequality(
                m as int,
                0x20_0000_0000_0000,
                0x40_0000_0000_0000,
            );
        } else {
            vstd::arithmetic::mul::lemma_mul_inequality(
                0x10_0000_0000_0000,
                m as int,
                0x80_0000_0000_0000,
            );
            vstd::arithmetic::mul::lemma_mul_strict_inequality(
                m as int,
                0x20_0000_0000_0000,
                0x80_0000_0000_0000,
            );
        }
        assert(0x400000000000000000000000000 <= nbig < 0x1000000000000000000000000000);
    }
    // 54-bit restoring square root
    let mut q: u64 = 0;
    let mut bit: u64 = 0x20_0000_0000_0000;
    proof {
        assert(0x20_0000_0000_0000u64 & ((0x20_0000_0000_0000u64 - 1) as u64) == 0) by (bit_vector);
        assert((0 + 2 * 0x20_0000_0000_0000) * (0 + 2 * 0x20_0000_0000_0000)
            == 0x1000000000000000000000000000);
    }
    while bit > 0
        invariant
            q + 2 * bit <= 0x40_0000_0000_0000,
            bit & ((bit - 1) as u64) == 0,
            isqrt_rec(nbig, 0x20_0000_0000_0000, 0) == isqrt_rec(nbig, bit, q),
            q * q <= nbig,
            bit > 0 ==> nbig < (q + 2 * bit) * (q + 2 * bit),
            bit == 0 ==> nbig < (q + 1) * (q + 1),
            nbig < 0x1000000000000000000000000000,
        decreases bit,
    {
        let cand = q + bit;
        let c128 = cand as u128;
        proof {
            assert(c128 * c128 < 0x10000000000000000000000000000) by (nonlinear_arith)
                requires
                    c128 <= 0x40_0000_0000_0000,
            ;
        }
        let ghost oldq = q;
        let ghost oldbit = bit;
        if c128 * c128 <= nbig {
            q = cand;
        }
        bit = bit / 2;
        proof {
            assert(bit & ((bit - 1) as u64) == 0 && (oldbit > 1 ==> 2 * bit == oldbit)) by (bit_vector)
                requires
                    oldbit & ((oldbit - 1) as u64) == 0,
                    oldbit > 0,
                    bit == oldbit / 2,
            ;
            if oldbit == 1 {
                assert(bit == 0);
                assert(nbig < (q + 1) * (q + 1));
            } else {
                assert(2 * bit == oldbit);
                if (oldq + oldbit) * (oldq + oldbit) <= nbig {
                    assert((q + 2 * bit) == (oldq + 2 * oldbit));
                } else {
                    assert((q + 2 * bit) == (oldq + oldbit));
                    assert(nbig < (q + 2 * bit) * (q + 2 * bit));
                }
            }
        }
    }
    proof {
        assert(q == isqrt_rec(nbig, 0x20_0000_0000_0000, 0));
        assert(q < 0x40_0000_0000_0000) by {
            if q >= 0x40_0000_0000_0000 {
                assert(q * q >= 0x1000000000000000000000000000) by (nonlinear_arith)
                    requires
                        q >= 0x40_0000_0000_0000,
                ;
            }
        }
        assert(q >= 0x20_0000_0000_0000) by {
            if q < 0x20_0000_0000_0000 {
                assert((q + 1) * (q + 1) <= 0x400000000000000000000000000) by (nonlinear_arith)
                    requires
                        q + 1 <= 0x20_0000_0000_0000,
                ;
            }
        }
    }
    let qq = q / 2;
    let exact = (q as u128) * (q as u128) == nbig;
    let my: u64 = if q % 2 == 0 {
        qq
    } else if exact {
        qq + (qq % 2)
    } else {
        qq + 1
    };
    let (my2, rexp): (u64, i32) = if my == 0x20_0000_0000_0000 {
        (0x10_0000_0000_0000, (((e2 + 1236) as u32 / 2) as i32) - 618 + 2)
    } else {
        (my, (((e2 + 1236) as u32 / 2) as i32) - 618 + 1)
    };
    proof {
        assert((e2 + 1236) as u32 / 2 == (e2 + 1236) / 2);
        assert((e2 + 1236) / 2 == 618 + e2 / 2) by {
            vstd::arithmetic::div_mod::lemma_hoist_over_denominator(e2 as int, 618, 2);
        }
        assert(0x10_0000_0000_0000 <= my2 < 0x20_0000_0000_0000);
    }
    let biased: u64 = ((rexp + 1075) as u32) as u64;
    proof {
        assert(-591 <= e2 / 2 <= 458);
        assert(0 <= rexp + 1075 < 2047);
    }
    (biased << 52) | (my2 - 0x10_0000_0000_0000)
}

impl Float64 {
    /// The IEEE 754 square root of this value, rounded to nearest, ties to
    /// even; negative values and `NaN` give the canonical quiet `NaN`.
    pub fn sqrt(&self) -> (r: Float64)
        ensures
            r.bits == sqrt_bits64(self.bits),
    {
        Float64 { bits: fsqrt64(self.bits) }
    }
}

} // verus!
