//! Times, in fixed point: a time is a whole number of units of `2^-32`
//! tick, of magnitude at most `2^124` units (about `4.9e27` ticks).
//!
//! A time given as an IEEE 754 double arrives as its bit pattern
//! (`f64::to_bits`); it becomes the nearest time (halves away from zero),
//! held at the bound where its magnitude is larger, or `InvalidTime` where
//! it is NaN or infinite.

use vstd::arithmetic::div_mod::lemma_basic_div;
use vstd::arithmetic::power2::{
    lemma2_to64, lemma2_to64_rest, lemma_pow2_adds, lemma_pow2_strictly_increases,
    lemma_pow2_unfold, pow2,
};
use vstd::bits::lemma_u64_shr_is_div;
use vstd::prelude::*;

use crate::channel::AnimError;

verus! {

/// The biased exponent field of a double (11 bits).
pub open spec fn exponent_bits(bits: u64) -> u64 {
    (bits >> 52u64) & 0x7ff
}

/// The fraction field of a double (52 bits).
pub open spec fn fraction_bits(bits: u64) -> u64 {
    bits & 0xf_ffff_ffff_ffff
}

/// The sign bit of a double.
pub open spec fn is_negative(bits: u64) -> bool {
    (bits >> 63u64) == 1
}

/// The double is neither infinite nor NaN.
pub open spec fn is_finite(bits: u64) -> bool {
    exponent_bits(bits) != 0x7ff
}

/// A finite double's magnitude is `significand * 2^(scale - 1075)`.
pub open spec fn significand(bits: u64) -> nat {
    if exponent_bits(bits) == 0 {
        fraction_bits(bits) as nat
    } else {
        (fraction_bits(bits) + pow2(52)) as nat
    }
}

pub open spec fn scale(bits: u64) -> nat {
    if exponent_bits(bits) == 0 {
        1
    } else {
        exponent_bits(bits) as nat
    }
}

/// Units of time in one tick.
pub const UNITS_PER_TICK: i128 = 0x1_0000_0000;

/// The largest magnitude of a time, in units (`2^124`).
pub const TIME_LIMIT: i128 = 0x1000_0000_0000_0000_0000_0000_0000_0000;

/// A point in time: `units / 2^32` ticks.
#[derive(Clone, Copy, PartialEq, Eq, Debug, Structural)]
pub struct Time {
    units: i128,
}

impl View for Time {
    type V = int;

    closed spec fn view(&self) -> int {
        self.units as int
    }
}

/// The magnitude of a finite double in units, rounded to the nearest
/// whole unit (halves away from zero).
pub open spec fn rounded_units(bits: u64) -> nat {
    let m = significand(bits);
    let s = scale(bits);
    if s >= 1043 {
        m * pow2((s - 1043) as nat)
    } else {
        (m / pow2((1042 - s) as nat) + 1) / 2
    }
}

/// The time of a finite double, in units: rounded, and held within
/// `[-TIME_LIMIT, TIME_LIMIT]`.
pub open spec fn time_of_bits(bits: u64) -> int {
    let mag: int = if rounded_units(bits) > TIME_LIMIT {
        TIME_LIMIT as int
    } else {
        rounded_units(bits) as int
    };
    if is_negative(bits) {
        -mag
    } else {
        mag
    }
}

/// The magnitude of a finite double in units, rounded, and held at
/// `TIME_LIMIT` where it is larger.
fn clamped_units(bits: u64) -> (r: u128)
    requires
        is_finite(bits),
    ensures
        r == (if rounded_units(bits) > TIME_LIMIT {
            TIME_LIMIT as int
        } else {
            rounded_units(bits) as int
        }),
{
    proof {
        lemma2_to64();
        lemma2_to64_rest();
    }
    let e: u64 = (bits >> 52u64) & 0x7ff;
    let f: u64 = bits & 0xf_ffff_ffff_ffff;
    assert(f < 0x10_0000_0000_0000) by (bit_vector)
        requires
            f == bits & 0xf_ffff_ffff_ffff,
    ;
    let m: u64 = if e == 0 { f } else { f + 0x10_0000_0000_0000 };
    let s: u64 = if e == 0 { 1 } else { e };
    assert(m == significand(bits) && s == scale(bits));
    assert(m < 0x20_0000_0000_0000);
    if s >= 1043 {
        let k: u64 = s - 1043;
        if k >= 72 {
            proof {
                lemma_pow2_adds(64, 8);
                if k > 72 {
                    lemma_pow2_strictly_increases(72, k as nat);
                }
                assert(m * pow2(k as nat) >= TIME_LIMIT) by (nonlinear_arith)
                    requires
                        m >= 0x10_0000_0000_0000,
                        pow2(k as nat) >= 0x100 * 0x1_0000_0000_0000_0000,
                ;
            }
            TIME_LIMIT as u128
        } else {
            proof {
                lemma_pow2_adds(64, 7);
                lemma_pow2_strictly_increases(0, 71);
            }
            let mut v: u128 = m as u128;
            let mut j: u64 = 0;
            while j < k
                invariant
                    j <= k < 72,
                    m < 0x20_0000_0000_0000,
                    v == m * pow2(j as nat),
                    v < 0x20_0000_0000_0000 * pow2(j as nat),
                    pow2(j as nat) <= pow2(71),
                    pow2(71) == 0x80_0000_0000_0000_0000,
                decreases k - j,
            {
                proof {
                    lemma_pow2_unfold((j + 1) as nat);
                    if j + 1 < 71 {
                        lemma_pow2_strictly_increases((j + 1) as nat, 71);
                    }
                    assert(v * 2 < 0x20_0000_0000_0000 * pow2((j + 1) as nat)) by (nonlinear_arith)
                        requires
                            v < 0x20_0000_0000_0000 * pow2(j as nat),
                            pow2((j + 1) as nat) == 2 * pow2(j as nat),
                    ;
                    assert(0x20_0000_0000_0000 * pow2((j + 1) as nat) <= 0x20_0000_0000_0000
                        * pow2(71)) by (nonlinear_arith)
                        requires
                            pow2((j + 1) as nat) <= pow2(71),
                    ;
                    assert(v * 2 == m * pow2((j + 1) as nat)) by (nonlinear_arith)
                        requires
                            v == m * pow2(j as nat),
                            pow2((j + 1) as nat) == 2 * pow2(j as nat),
                    ;
                }
                v = v * 2;
                j = j + 1;
            }
            proof {
                assert(0x20_0000_0000_0000 * pow2(j as nat) <= 0x20_0000_0000_0000 * pow2(71))
                    by (nonlinear_arith)
                    requires
                        pow2(j as nat) <= pow2(71),
                ;
            }
            v
        }
    } else {
        let d: u64 = 1042 - s;
        let q: u64 = if d >= 64 {
            proof {
                if d > 64 {
                    lemma_pow2_strictly_increases(64, d as nat);
                }
                lemma_basic_div(m as int, pow2(d as nat) as int);
            }
            0
        } else {
            proof {
                lemma_u64_shr_is_div(m, d);
            }
            m >> d
        };
        assert(q <= m) by (nonlinear_arith)
            requires
                q as int == m as int / pow2(d as nat) as int,
                pow2(d as nat) >= 1,
        ;
        ((q + 1) / 2) as u128
    }
}

impl Time {
    #[verifier::type_invariant]
    spec fn in_range(self) -> bool {
        -TIME_LIMIT <= self.units <= TIME_LIMIT
    }

    /// The time in units of `2^-32` tick.
    pub fn units(self) -> (r: i128)
        ensures
            r == self@,
            -TIME_LIMIT <= r <= TIME_LIMIT,
    {
        proof {
            use_type_invariant(self);
        }
        self.units
    }

    /// The time `units / 2^32` ticks, or `None` where its magnitude exceeds
    /// `TIME_LIMIT` units.
    pub fn from_units(units: i128) -> (r: Option<Time>)
        ensures
            r is Some <==> -TIME_LIMIT <= units <= TIME_LIMIT,
            r matches Some(t) ==> t@ == units,
    {
        if -TIME_LIMIT <= units && units <= TIME_LIMIT {
            Some(Time { units })
        } else {
            None
        }
    }

    /// The time of a whole number of ticks.
    pub fn from_ticks(ticks: i64) -> (r: Time)
        ensures
            r@ == ticks * UNITS_PER_TICK,
    {
        Time { units: ticks as i128 * UNITS_PER_TICK }
    }

    /// The time of the double with bit pattern `bits`, counted in ticks:
    /// rounded to the nearest unit (halves away from zero) and held within
    /// `TIME_LIMIT`; `InvalidTime` exactly where the double is NaN or
    /// infinite.
    pub fn from_bits(bits: u64) -> (r: Result<Time, AnimError>)
        ensures
            r is Ok <==> is_finite(bits),
            r matches Ok(t) ==> t@ == time_of_bits(bits),
            r matches Err(e) ==> e == AnimError::InvalidTime,
    {
        if (bits >> 52u64) & 0x7ff == 0x7ff {
            return Err(AnimError::InvalidTime);
        }
        let mag: u128 = clamped_units(bits);
        let units: i128 = if (bits >> 63u64) == 1 {
            -(mag as i128)
        } else {
            mag as i128
        };
        Ok(Time { units })
    }
}

} // verus!
