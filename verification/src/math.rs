//! Arithmetic on 64-bit magnitudes that fails instead of wrapping.

use vstd::prelude::*;
use crate::errors::USDvError;

verus! {

/// `a + b`, or `ArithmeticOverflow` when the sum does not fit in 64 bits.
pub fn checked_add(a: u64, b: u64) -> (r: Result<u64, USDvError>)
    ensures
        a + b <= u64::MAX ==> r == Ok::<u64, USDvError>((a + b) as u64),
        a + b > u64::MAX ==> r == Err::<u64, USDvError>(USDvError::ArithmeticOverflow),
{
    if a > u64::MAX - b {
        Err(USDvError::ArithmeticOverflow)
    } else {
        Ok(a + b)
    }
}

/// `a - b`, or `ArithmeticUnderflow` when `b` exceeds `a`.
pub fn checked_sub(a: u64, b: u64) -> (r: Result<u64, USDvError>)
    ensures
        b <= a ==> r == Ok::<u64, USDvError>((a - b) as u64),
        b > a ==> r == Err::<u64, USDvError>(USDvError::ArithmeticUnderflow),
{
    if b > a {
        Err(USDvError::ArithmeticUnderflow)
    } else {
        Ok(a - b)
    }
}

/// `a * b`, or `ArithmeticOverflow` when the product does not fit in 64 bits.
pub fn checked_mul(a: u64, b: u64) -> (r: Result<u64, USDvError>)
    ensures
        a * b <= u64::MAX ==> r == Ok::<u64, USDvError>((a * b) as u64),
        a * b > u64::MAX ==> r == Err::<u64, USDvError>(USDvError::ArithmeticOverflow),
{
    match a.checked_mul(b) {
        Some(p) => Ok(p),
        None => Err(USDvError::ArithmeticOverflow),
    }
}

} // verus!
