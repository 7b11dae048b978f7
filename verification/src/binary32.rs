//! Single-precision words, as drivers and requests hand numbers over.
//!
//! A word is an IEEE 754 binary32 bit pattern: one sign bit, eight exponent
//! bits, twenty-three fraction bits. A word whose exponent bits are all set
//! is an infinity or no number at all. Every other word stands for the
//! number `significand * 2^(binade - 149)`, negated where the sign bit is
//! set.
//!
//! Decoding turns a word into a quantity: the number in thousandths, rounded
//! to the nearest whole thousandth, with a half rounded away from zero.

use vstd::prelude::*;
use vstd::arithmetic::div_mod::{
    lemma_basic_div,
    lemma_div_is_ordered,
    lemma_div_multiples_vanish_quotient,
    lemma_fundamental_div_mod,
    lemma_mod_pos_bound,
};
use vstd::arithmetic::mul::lemma_mul_inequality;
use vstd::arithmetic::power2::{
    lemma2_to64,
    lemma_pow2_adds,
    lemma_pow2_pos,
    lemma_pow2_strictly_increases,
    lemma_pow2_unfold,
    pow2,
};
use vstd::bits::{lemma_u64_shl_is_mul, lemma_u64_shr_is_div};
use crate::quantity::Quantity;

verus! {

/// Whether the sign bit of `word` is set.
pub open spec fn sign_bit(word: u32) -> bool {
    word >= 0x8000_0000
}

/// The eight exponent bits of `word`.
pub open spec fn exponent_field(word: u32) -> nat {
    ((word as int / 0x80_0000) % 0x100) as nat
}

/// The twenty-three fraction bits of `word`.
pub open spec fn fraction_field(word: u32) -> nat {
    (word as int % 0x80_0000) as nat
}

/// Whether `word` stands for a number: it is neither an infinity nor a NaN.
pub open spec fn is_number(word: u32) -> bool {
    exponent_field(word) != 0xff
}

/// The significand of `word`: the fraction bits, with the hidden bit in
/// front unless the exponent bits are all clear.
pub open spec fn significand(word: u32) -> nat {
    if exponent_field(word) == 0 {
        fraction_field(word)
    } else {
        0x80_0000 + fraction_field(word)
    }
}

/// The binade of `word`: the power of two by which its significand counts
/// in units of `2^-149`.
pub open spec fn binade(word: u32) -> nat {
    if exponent_field(word) == 0 {
        0
    } else {
        (exponent_field(word) - 1) as nat
    }
}

/// The magnitude of the number of `word`, in units of `2^-149`.
pub open spec fn scaled_magnitude(word: u32) -> nat {
    significand(word) * pow2(binade(word))
}

/// `scaled`, a magnitude in units of `2^-149`, in thousandths and rounded
/// to the nearest whole one, a half upwards.
pub open spec fn rounded_thousandths(scaled: nat) -> nat {
    (((2000 * scaled + pow2(149)) as int) / (pow2(150) as int)) as nat
}

/// The number of `word`, in units of `2^-149`.
pub open spec fn scaled_value(word: u32) -> int {
    if sign_bit(word) {
        -(scaled_magnitude(word) as int)
    } else {
        scaled_magnitude(word) as int
    }
}

/// The number of `word` in thousandths, rounded to the nearest whole one,
/// a half away from zero.
pub open spec fn thousandths(word: u32) -> int {
    if sign_bit(word) {
        -(rounded_thousandths(scaled_magnitude(word)) as int)
    } else {
        rounded_thousandths(scaled_magnitude(word)) as int
    }
}

/// The quantity that `word` decodes to. There is none for an infinity, for
/// a NaN and for a number whose thousandths a quantity cannot hold.
pub open spec fn decoded(word: u32) -> Option<Quantity> {
    if is_number(word) && i64::MIN <= thousandths(word) <= i64::MAX {
        Some(Quantity { milli: thousandths(word) as i64 })
    } else {
        None
    }
}

/// From binade 149 on a number is whole, and its thousandths are exact.
proof fn whole_numbers_are_exact(n: nat, significand: nat, binade: nat)
    requires
        binade >= 149,
        n == significand * 1000,
    ensures
        rounded_thousandths(significand * pow2(binade)) == n * pow2((binade - 149) as nat),
{
    let up: nat = (binade - 149) as nat;
    let unit: int = pow2(149) as int;
    let whole: int = (n * pow2(up)) as int;
    lemma_pow2_adds(149, up);
    lemma_pow2_unfold(150);
    lemma_pow2_pos(149);
    assert(2000 * (significand * pow2(binade)) + pow2(149) == unit * (2 * whole + 1))
        by (nonlinear_arith)
        requires
            pow2(binade) == pow2(149) * pow2(up),
            n == significand * 1000,
            unit == pow2(149),
            whole == n * pow2(up),
    ;
    lemma_div_multiples_vanish_quotient(unit, 2 * whole + 1, 2);
}

/// Below binade 149 the thousandths are those of `n` after a division by a
/// power of two, rounded by adding half of the divisor first.
proof fn fractions_are_rounded(n: nat, significand: nat, binade: nat)
    requires
        binade < 149,
        n == significand * 1000,
    ensures
        rounded_thousandths(significand * pow2(binade)) == ((n + pow2(
            (148 - binade) as nat,
        )) as int) / (pow2((149 - binade) as nat) as int),
{
    let down: nat = (149 - binade) as nat;
    let half: int = pow2((down - 1) as nat) as int;
    let common: int = (2 * pow2(binade)) as int;
    lemma_pow2_adds(binade, down);
    lemma_pow2_unfold(down);
    lemma_pow2_unfold(150);
    lemma_pow2_pos(binade);
    lemma_pow2_pos(down);
    assert(2000 * (significand * pow2(binade)) + pow2(149) == common * (n + half))
        by (nonlinear_arith)
        requires
            pow2(149) == pow2(binade) * pow2(down),
            pow2(down) == 2 * half,
            n == significand * 1000,
            common == 2 * pow2(binade),
    ;
    assert(pow2(150) as int == common * pow2(down)) by (nonlinear_arith)
        requires
            pow2(150) == 2 * pow2(149),
            pow2(149) == pow2(binade) * pow2(down),
            common == 2 * pow2(binade),
    ;
    lemma_div_multiples_vanish_quotient(common, n + half, pow2(down) as int);
}

impl Quantity {
    /// Decodes a single-precision word.
    pub fn from_binary32(word: u32) -> (q: Option<Quantity>)
        ensures
            q == decoded(word),
    {
        let fraction: u64 = (word % 0x80_0000) as u64;
        let exponent: u32 = (word / 0x80_0000) % 0x100;
        let negative: bool = word >= 0x8000_0000;
        if exponent == 0xff {
            return None;
        }
        let significand: u64 = if exponent == 0 {
            fraction
        } else {
            0x80_0000 + fraction
        };
        let binade: u32 = if exponent == 0 {
            0
        } else {
            exponent - 1
        };
        let n: u64 = significand * 1000;
        proof {
            lemma2_to64();
        }
        let magnitude: u64 = if binade >= 149 {
            let up: u32 = binade - 149;
            proof {
                whole_numbers_are_exact(n as nat, significand as nat, binade as nat);
            }
            if up > 30 {
                proof {
                    if up > 31 {
                        lemma_pow2_strictly_increases(31, up as nat);
                    }
                    lemma_mul_inequality(pow2(31) as int, pow2(up as nat) as int, n as int);
                    assert(n * pow2(31) > 0x8000_0000_0000_0000) by (nonlinear_arith)
                        requires
                            n >= 0x80_0000 * 1000,
                            pow2(31) == 0x8000_0000,
                    ;
                }
                return None;
            }
            proof {
                lemma_mul_inequality(pow2(up as nat) as int, pow2(30) as int, n as int);
                assert(n * pow2(30) < 0x1_0000_0000_0000_0000) by (nonlinear_arith)
                    requires
                        n < 0x4_0000_0000,
                        pow2(30) == 0x4000_0000,
                ;
                assert(pow2(up as nat) * n == n * pow2(up as nat)) by (nonlinear_arith);
                lemma_u64_shl_is_mul(n, up as u64);
            }
            n << (up as u64)
        } else {
            let down: u32 = 149 - binade;
            proof {
                fractions_are_rounded(n as nat, significand as nat, binade as nat);
            }
            if down > 35 {
                proof {
                    lemma_pow2_unfold(down as nat);
                    if down > 36 {
                        lemma_pow2_strictly_increases(35, (down - 1) as nat);
                    }
                    lemma_pow2_unfold(35);
                    lemma_pow2_unfold(34);
                    lemma_pow2_unfold(33);
                    assert(pow2(35) == 0x8_0000_0000);
                    lemma_basic_div(
                        n + pow2((down - 1) as nat),
                        pow2(down as nat) as int,
                    );
                }
                0
            } else {
                proof {
                    lemma_pow2_unfold(34);
                    lemma_pow2_unfold(33);
                    lemma_u64_shl_is_mul(1, (down - 1) as u64);
                }
                let half: u64 = 1u64 << ((down - 1) as u64);
                proof {
                    lemma_u64_shr_is_div((n + half) as u64, down as u64);
                }
                (n + half) >> (down as u64)
            }
        };
        assert(magnitude == rounded_thousandths(scaled_magnitude(word)));
        if negative {
            if magnitude > 0x8000_0000_0000_0000 {
                None
            } else if magnitude == 0x8000_0000_0000_0000 {
                Some(Quantity { milli: i64::MIN })
            } else {
                Some(Quantity { milli: -(magnitude as i64) })
            }
        } else {
            if magnitude > 0x7fff_ffff_ffff_ffff {
                None
            } else {
                Some(Quantity { milli: magnitude as i64 })
            }
        }
    }
}

/// Rounding goes to the nearest whole thousandth: the rounded magnitude
/// lies within half a thousandth of the exact one, and a magnitude half-way
/// between two thousandths goes to the upper one.
pub proof fn rounding_is_to_nearest(scaled: nat)
    ensures
        -pow2(149) <= 2000 * scaled - rounded_thousandths(scaled) * pow2(150) < pow2(149),
{
    let shifted: int = (2000 * scaled + pow2(149)) as int;
    let unit: int = pow2(150) as int;
    lemma_pow2_pos(150);
    lemma_pow2_unfold(150);
    lemma_fundamental_div_mod(shifted, unit);
    lemma_mod_pos_bound(shifted, unit);
    assert(unit * (shifted / unit) == (shifted / unit) * unit) by (nonlinear_arith);
}

/// Rounding keeps the order of magnitudes.
proof fn rounding_keeps_order(a: nat, b: nat)
    requires
        a <= b,
    ensures
        rounded_thousandths(a) <= rounded_thousandths(b),
{
    lemma_pow2_pos(150);
    lemma_div_is_ordered(
        (2000 * a + pow2(149)) as int,
        (2000 * b + pow2(149)) as int,
        pow2(150) as int,
    );
}

/// Decoding keeps the order of numbers: where the number of `a` is at most
/// the number of `b`, so are its thousandths. A comparison of two decoded
/// quantities can therefore only turn a difference of the numbers into an
/// equality, never turn it round.
pub proof fn decoding_keeps_order(a: u32, b: u32)
    requires
        scaled_value(a) <= scaled_value(b),
    ensures
        thousandths(a) <= thousandths(b),
{
    if sign_bit(a) == sign_bit(b) {
        if sign_bit(a) {
            rounding_keeps_order(scaled_magnitude(b), scaled_magnitude(a));
        } else {
            rounding_keeps_order(scaled_magnitude(a), scaled_magnitude(b));
        }
    } else if sign_bit(b) {
        lemma_pow2_unfold(150);
        lemma_pow2_pos(149);
        lemma_basic_div(pow2(149) as int, pow2(150) as int);
    }
}

} // verus!
