//! Integer readings of the numbers that FLV metadata carries.
//!
//! AMF0 stores every number as the eight bytes of an IEEE 754 double. The
//! remuxer only ever needs whole-number readings of those values, scaled by
//! a constant, so this module computes `floor(value * scale)` exactly from
//! the bits, without floating-point arithmetic: the bits are split into
//! sign, exponent and fraction, and the scaled significand is shifted by
//! the exponent.

use vstd::arithmetic::power2::{
    lemma2_to64, lemma_pow2_adds, lemma_pow2_pos, lemma_pow2_strictly_increases, pow2,
};
use vstd::bits::{lemma_u64_pow2_no_overflow, lemma_u64_shl_is_mul};
use vstd::prelude::*;

verus! {

/// Two to the power `q`, computed in 128 bits from two 64-bit shifts.
fn pow2_u128(q: u64) -> (r: u128)
    requires
        q <= 85,
    ensures
        r == pow2(q as nat),
        r >= 1,
{
    let q1: u64 = if q > 60 {
        60
    } else {
        q
    };
    let q2: u64 = q - q1;
    proof {
        lemma_u64_pow2_no_overflow(q1 as nat);
        lemma_u64_pow2_no_overflow(q2 as nat);
        lemma_u64_shl_is_mul(1u64, q1);
        lemma_u64_shl_is_mul(1u64, q2);
        lemma_pow2_adds(q1 as nat, q2 as nat);
        lemma_pow2_pos(q1 as nat);
        lemma_pow2_pos(q2 as nat);
        assert(pow2(q1 as nat) * pow2(q2 as nat) <= u128::MAX) by (nonlinear_arith)
            requires
                pow2(q1 as nat) <= u64::MAX as nat,
                pow2(q2 as nat) <= u64::MAX as nat,
        ;
        assert(pow2(q1 as nat) * pow2(q2 as nat) >= 1) by (nonlinear_arith)
            requires
                pow2(q1 as nat) >= 1,
                pow2(q2 as nat) >= 1,
        ;
    }
    let a: u64 = 1u64 << q1;
    let b: u64 = 1u64 << q2;
    (a as u128) * (b as u128)
}

/// The value `floor(x * scale)` of the double whose bits are given, pinned
/// into `u32` the way a float-to-integer cast is: negative values and NaN
/// give zero, values past the range give the maximum.
pub open spec fn spec_f64_scaled_floor(bits: u64, scale: u32) -> u32 {
    let e = (bits >> 52u64) & 0x7ff;
    let f = bits & 0xf_ffff_ffff_ffff;
    if bits >> 63u64 == 1 {
        0u32
    } else if e == 0x7ff {
        if f == 0 {
            u32::MAX
        } else {
            0u32
        }
    } else {
        let m: nat = if e == 0 {
            f as nat
        } else {
            (f + 0x10_0000_0000_0000) as nat
        };
        let p: int = (if e == 0 {
            1int
        } else {
            e as int
        }) - 1075;
        let product: nat = m * (scale as nat);
        let shifted: nat = if p >= 0 {
            product * pow2(p as nat)
        } else {
            product / pow2((-p) as nat)
        };
        if shifted > u32::MAX {
            u32::MAX
        } else {
            shifted as u32
        }
    }
}

/// The whole part of the double whose bits are given, pinned into `u32`.
pub open spec fn spec_f64_floor(bits: u64) -> u32 {
    spec_f64_scaled_floor(bits, 1)
}

/// Computes `floor(x * scale)` for the double whose bits are given,
/// without floating-point arithmetic.
pub fn f64_bits_scaled_floor(bits: u64, scale: u32) -> (r: u32)
    ensures
        r == spec_f64_scaled_floor(bits, scale),
{
    if bits >> 63u64 == 1 {
        return 0;
    }
    let e: u64 = (bits >> 52u64) & 0x7ff;
    let f: u64 = bits & 0xf_ffff_ffff_ffff;
    proof {
        assert(e <= 0x7ff && f < 0x10_0000_0000_0000) by (bit_vector)
            requires
                e == (bits >> 52u64) & 0x7ff && f == bits & 0xf_ffff_ffff_ffff,
        ;
    }
    if e == 0x7ff {
        if f == 0 {
            return u32::MAX;
        } else {
            return 0;
        }
    }
    let m: u64 = if e == 0 {
        f
    } else {
        f + 0x10_0000_0000_0000
    };
    let ep: u64 = if e == 0 {
        1
    } else {
        e
    };
    proof {
        assert((m as nat) * (scale as nat) <= u128::MAX) by (nonlinear_arith)
            requires
                m <= u64::MAX,
                scale <= u32::MAX,
        ;
    }
    let product: u128 = (m as u128) * (scale as u128);
    proof {
        lemma2_to64();
        assert(pow2(53) == 0x20_0000_0000_0000 && pow2(32) == 0x1_0000_0000) by {
            lemma_pow2_adds(32, 21);
            lemma_pow2_adds(32, 20);
            lemma_pow2_adds(26, 27);
        }
        lemma_pow2_adds(53, 32);
        assert(product < pow2(85)) by (nonlinear_arith)
            requires
                product == (m as nat) * (scale as nat),
                (m as nat) < pow2(53),
                (scale as nat) < pow2(32),
                pow2(85) == pow2(53) * pow2(32),
        ;
    }
    if ep >= 1075 {
        // The exponent is non-negative: the scaled significand is shifted up.
        if product == 0 {
            proof {
                assert(((m as nat) * (scale as nat)) * pow2((ep - 1075) as nat) == 0)
                    by (nonlinear_arith)
                    requires
                        (m as nat) * (scale as nat) == 0,
                ;
            }
            return 0;
        }
        let p: u64 = ep - 1075;
        if p >= 32 {
            proof {
                if p > 32 {
                    lemma_pow2_strictly_increases(32, p as nat);
                }
                assert((product as nat) * pow2(p as nat) > u32::MAX as nat) by (nonlinear_arith)
                    requires
                        product >= 1,
                        pow2(p as nat) > u32::MAX as nat,
                ;
            }
            return u32::MAX;
        }
        proof {
            lemma_pow2_strictly_increases(p as nat, 32);
            lemma_pow2_adds(85, 32);
            lemma_pow2_adds(64, 53);
            assert((product as nat) * pow2(p as nat) < pow2(85) * pow2(32)) by (nonlinear_arith)
                requires
                    (product as nat) < pow2(85),
                    pow2(p as nat) < pow2(32),
                    pow2(85) > 0,
                    pow2(32) > 0,
            ;
            assert(pow2(117) < pow2(128)) by {
                lemma_pow2_strictly_increases(117, 128);
            }
            assert(pow2(128) == pow2(64) * pow2(64)) by {
                lemma_pow2_adds(64, 64);
            }
            assert(pow2(85) * pow2(32) == pow2(117));
        }
        let shifted: u128 = product * pow2_u128(p);
        if shifted > 0xffff_ffffu128 {
            u32::MAX
        } else {
            shifted as u32
        }
    } else {
        // The exponent is negative: the scaled significand is shifted down.
        let q: u64 = 1075 - ep;
        if q >= 86 {
            proof {
                if q >= 86 {
                    lemma_pow2_strictly_increases(85, q as nat);
                    lemma_pow2_pos(q as nat);
                    assert((product as nat) / pow2(q as nat) == 0) by (nonlinear_arith)
                        requires
                            (product as nat) < pow2(q as nat),
                            pow2(q as nat) > 0,
                    ;
                }
            }
            return 0;
        }
        let divisor: u128 = pow2_u128(q);
        let shifted: u128 = product / divisor;
        if shifted > 0xffff_ffffu128 {
            u32::MAX
        } else {
            shifted as u32
        }
    }
}

/// The whole part of the double whose bits are given, pinned into `u32`.
pub fn f64_bits_floor(bits: u64) -> (r: u32)
    ensures
        r == spec_f64_floor(bits),
{
    f64_bits_scaled_floor(bits, 1)
}

/// The number a string of decimal digit bytes spells.
pub open spec fn spec_dec_val(s: Seq<u8>) -> nat
    decreases s.len(),
{
    if s.len() == 0 {
        0
    } else {
        spec_dec_val(s.drop_last()) * 10 + (if 0x30 <= s.last() <= 0x39 {
            (s.last() - 0x30) as nat
        } else {
            0nat
        })
    }
}

/// True when the byte string is one or more decimal digits.
pub open spec fn spec_is_dec(s: Seq<u8>) -> bool {
    s.len() > 0 && forall|i: int| 0 <= i < s.len() ==> 0x30 <= #[trigger] s[i] <= 0x39
}

/// Reads a non-negative decimal number from bytes; anything but plain
/// digits, or a value past 32 bits, is rejected.
pub fn parse_u32_dec(s: &[u8]) -> (r: Option<u32>)
    ensures
        r is Some <==> spec_is_dec(s@) && spec_dec_val(s@) <= u32::MAX,
        r is Some ==> r->0 == spec_dec_val(s@),
{
    let ghost cs = s@;
    if s.len() == 0 {
        return None;
    }
    let mut acc: u32 = 0;
    let mut k: usize = 0;
    while k < s.len()
        invariant
            k <= cs.len(),
            cs == s@,
            forall|j: int| 0 <= j < k ==> 0x30 <= #[trigger] cs[j] <= 0x39,
            acc as nat == spec_dec_val(cs.take(k as int)),
        decreases cs.len() - k,
    {
        let b: u8 = s[k];
        if b < 0x30 || b > 0x39 {
            return None;
        }
        let digit: u32 = (b - 0x30) as u32;
        proof {
            assert(cs.take(k as int + 1).drop_last() =~= cs.take(k as int));
            assert(cs.take(k as int + 1).last() == cs[k as int]);
        }
        if acc > (u32::MAX - digit) / 10 {
            proof {
                assert(spec_dec_val(cs.take(k as int + 1)) > u32::MAX) by (nonlinear_arith)
                    requires
                        spec_dec_val(cs.take(k as int + 1)) == spec_dec_val(cs.take(k as int)) * 10
                            + digit,
                        spec_dec_val(cs.take(k as int)) > ((u32::MAX - digit) / 10) as nat,
                        digit <= 9,
                ;
                lemma_dec_val_prefix_bound(cs, k as int + 1);
            }
            return None;
        }
        acc = acc * 10 + digit;
        k = k + 1;
    }
    proof {
        assert(cs.take(cs.len() as int) =~= cs);
    }
    Some(acc)
}

/// A digit string's value is at least the value of any of its prefixes.
proof fn lemma_dec_val_prefix_bound(s: Seq<u8>, k: int)
    requires
        0 <= k <= s.len(),
    ensures
        spec_dec_val(s) >= spec_dec_val(s.take(k)),
    decreases s.len() - k,
{
    if k < s.len() {
        assert(s.take(k + 1).drop_last() =~= s.take(k));
        assert(spec_dec_val(s.take(k + 1)) >= spec_dec_val(s.take(k))) by (nonlinear_arith)
            requires
                spec_dec_val(s.take(k + 1)) == spec_dec_val(s.take(k)) * 10 + (if 0x30 <= s[k]
                    <= 0x39 {
                    (s[k] as nat) - 0x30
                } else {
                    0
                }),
        ;
        lemma_dec_val_prefix_bound(s, k + 1);
        assert(s.take(s.len() as int) =~= s);
    } else {
        assert(s.take(s.len() as int) =~= s);
    }
}

} // verus!
