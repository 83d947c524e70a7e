//! Value primitives: the raw host values and their fallible narrowing.
//!
//! The host exchanges every quantity as a 64-bit binary floating-point
//! value.  Inside the library such a value is carried by its raw bit
//! pattern, and the narrowing conversion to a machine integer is decided
//! from the bit fields of that pattern: sign, biased exponent and fraction.
//! The conversion fails on a not-a-number and on any value that is not
//! mathematically an integer; an integral value outside the target range
//! saturates at the range's ends.

use vstd::arithmetic::div_mod::lemma_small_mod;
use vstd::arithmetic::power2::{
    lemma2_to64, lemma2_to64_rest, lemma_pow2_pos, lemma_pow2_strictly_increases, pow2,
};
use vstd::bits::{lemma_u64_shl_is_mul, lemma_u64_shr_is_div};
use vstd::prelude::*;

use crate::error::TrnSysError;

verus! {

/// One host value, held as the raw bits of its 64-bit binary
/// floating-point encoding.
#[derive(Debug, Clone, Copy, PartialEq, Eq, Structural)]
pub struct TrnSysValue {
    pub bits: u64,
}

/// The biased exponent field: the 11 bits below the sign bit.
pub open spec fn exponent_field(bits: u64) -> u64 {
    (bits >> 52) & 0x7ff
}

/// The fraction field: the low 52 bits.
pub open spec fn fraction_field(bits: u64) -> u64 {
    bits & 0x000f_ffff_ffff_ffff
}

/// Whether the sign bit marks the value as negative.
pub open spec fn is_negative(bits: u64) -> bool {
    (bits >> 63) == 1
}

/// A not-a-number: exponent field all ones with a nonzero fraction.
pub open spec fn is_nan(bits: u64) -> bool {
    exponent_field(bits) == 0x7ff && fraction_field(bits) != 0
}

/// A finite value: any exponent field but all ones.
pub open spec fn is_finite(bits: u64) -> bool {
    exponent_field(bits) != 0x7ff
}

/// The integer significand: the fraction with the implicit leading bit
/// added for a normal value.
pub open spec fn significand(bits: u64) -> nat {
    if exponent_field(bits) == 0 {
        fraction_field(bits) as nat
    } else {
        (fraction_field(bits) + 0x0010_0000_0000_0000) as nat
    }
}

/// The power of two that scales the integer significand, so that the
/// encoded magnitude is `significand * 2^binary_exponent`.
pub open spec fn binary_exponent(bits: u64) -> int {
    if exponent_field(bits) == 0 {
        -1074
    } else {
        exponent_field(bits) - 1075
    }
}

/// Whether the encoded value is mathematically an integer.
pub open spec fn is_integral(bits: u64) -> bool {
    is_finite(bits) && (binary_exponent(bits) >= 0 || significand(bits) % pow2(
        (-binary_exponent(bits)) as nat,
    ) == 0)
}

/// The magnitude of an integral value.
pub open spec fn magnitude(bits: u64) -> nat {
    if binary_exponent(bits) >= 0 {
        significand(bits) * pow2(binary_exponent(bits) as nat)
    } else {
        significand(bits) / pow2((-binary_exponent(bits)) as nat)
    }
}

/// The signed integer encoded by an integral value.
pub open spec fn integer_value(bits: u64) -> int {
    if is_negative(bits) {
        -(magnitude(bits) as int)
    } else {
        magnitude(bits) as int
    }
}

/// Narrowing to a 32-bit integer saturates at the ends of the range.
pub open spec fn saturate_i32(v: int) -> i32 {
    if v > i32::MAX {
        i32::MAX
    } else if v < i32::MIN {
        i32::MIN
    } else {
        v as i32
    }
}

/// The failure produced when narrowing a not-a-number.
pub open spec fn is_nan_conversion_error(e: TrnSysError) -> bool {
    &&& e matches TrnSysError::ConversionError { param, message }
    &&& param@ == "TrnSysValue"@
    &&& message@ == "Cannot convert NaN to i32"@
}

/// The failure produced when narrowing a value that is not an integer.
pub open spec fn is_fraction_conversion_error(e: TrnSysError) -> bool {
    &&& e matches TrnSysError::ConversionError { param, message }
    &&& param@ == "TrnSysValue"@
    &&& message@ == "Cannot convert float to i32"@
}

impl TrnSysValue {
    /// Wraps the raw bits of one host value.
    pub fn new(bits: u64) -> (v: TrnSysValue)
        ensures
            v.bits == bits,
    {
        TrnSysValue { bits }
    }

    /// Narrows the value to a 32-bit integer.
    ///
    /// Succeeds exactly on the values that encode an integer, saturating
    /// at the ends of the 32-bit range; fails on a not-a-number and on
    /// every other non-integral value, infinities included.
    pub fn try_to_i32(&self) -> (r: Result<i32, TrnSysError>)
        ensures
            r is Ok <==> is_integral(self.bits),
            is_integral(self.bits) ==> r == Ok::<i32, TrnSysError>(
                saturate_i32(integer_value(self.bits)),
            ),
            is_nan(self.bits) ==> (r matches Err(e) && is_nan_conversion_error(e)),
            (!is_nan(self.bits) && !is_integral(self.bits)) ==> (r matches Err(e)
                && is_fraction_conversion_error(e)),
    {
        let b = self.bits;
        let exp: u64 = (b >> 52) & 0x7ff;
        let frac: u64 = b & 0x000f_ffff_ffff_ffff;
        let neg: bool = (b >> 63) == 1;

        if exp == 0x7ff {
            // Not a number or an infinity: never integral.
            if frac != 0 {
                Err(TrnSysError::ConversionError {
                    param: "TrnSysValue".to_owned(),
                    message: "Cannot convert NaN to i32".to_owned(),
                })
            } else {
                Err(TrnSysError::ConversionError {
                    param: "TrnSysValue".to_owned(),
                    message: "Cannot convert float to i32".to_owned(),
                })
            }
        } else if exp == 0 {
            // Zero or a subnormal; only a zero is integral.
            if frac == 0 {
                proof {
                    lemma_pow2_pos(1074);
                    lemma_small_mod(0, pow2(1074));
                }
                Ok(0)
            } else {
                proof {
                    assert(frac < 0x0010_0000_0000_0000) by (bit_vector)
                        requires
                            frac == b & 0x000f_ffff_ffff_ffff,
                    ;
                    lemma2_to64();
                    lemma2_to64_rest();
                    lemma_pow2_strictly_increases(52, 1074);
                    lemma_small_mod(frac as nat, pow2(1074));
                }
                Err(TrnSysError::ConversionError {
                    param: "TrnSysValue".to_owned(),
                    message: "Cannot convert float to i32".to_owned(),
                })
            }
        } else {
            // A normal value: magnitude is m * 2^(exp - 1075) with
            // m = fraction + 2^52.
            proof {
                assert(frac < 0x0010_0000_0000_0000) by (bit_vector)
                    requires
                        frac == b & 0x000f_ffff_ffff_ffff,
                ;
            }
            let m: u64 = frac + 0x0010_0000_0000_0000;
            if exp >= 1075 {
                // The scale is a nonnegative power of two: integral, and
                // the magnitude is at least 2^52, far beyond the range.
                proof {
                    lemma2_to64();
                    lemma2_to64_rest();
                    lemma_pow2_pos((exp - 1075) as nat);
                    assert(significand(b) * pow2((exp - 1075) as nat) >= significand(b) * 1)
                        by (nonlinear_arith)
                        requires
                            pow2((exp - 1075) as nat) >= 1,
                            significand(b) >= 0,
                    ;
                }
                if neg {
                    Ok(i32::MIN)
                } else {
                    Ok(i32::MAX)
                }
            } else {
                let k: u64 = 1075 - exp;
                if k >= 53 {
                    // The magnitude is below one but not zero: no integer.
                    proof {
                        lemma2_to64();
                        lemma2_to64_rest();
                        if k > 53 {
                            lemma_pow2_strictly_increases(53, k as nat);
                        }
                        lemma_small_mod(m as nat, pow2(k as nat));
                    }
                    Err(TrnSysError::ConversionError {
                        param: "TrnSysValue".to_owned(),
                        message: "Cannot convert float to i32".to_owned(),
                    })
                } else {
                    // 1 <= k <= 52: integral exactly when the low k bits
                    // of the significand are clear.
                    proof {
                        vstd::bits::lemma_u64_pow2_no_overflow(k as nat);
                        lemma_u64_shl_is_mul(1u64, k);
                    }
                    let pk: u64 = 1u64 << k;
                    if m % pk != 0 {
                        Err(TrnSysError::ConversionError {
                            param: "TrnSysValue".to_owned(),
                            message: "Cannot convert float to i32".to_owned(),
                        })
                    } else {
                        proof {
                            lemma_u64_shr_is_div(m, k);
                        }
                        let val: u64 = m >> k;
                        if neg {
                            if val <= 0x8000_0000 {
                                let out: i64 = -(val as i64);
                                Ok(out as i32)
                            } else {
                                Ok(i32::MIN)
                            }
                        } else {
                            if val <= 0x7fff_ffff {
                                Ok(val as i32)
                            } else {
                                Ok(i32::MAX)
                            }
                        }
                    }
                }
            }
        }
    }
}

} // verus!
