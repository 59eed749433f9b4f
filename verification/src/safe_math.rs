//! Arithmetic on token amounts that reports overflow instead of wrapping.

use vstd::prelude::*;

use crate::types::Error;

verus! {

/// Whether `value` is a token amount.
pub open spec fn fits(value: int) -> bool {
    i128::MIN <= value <= i128::MAX
}

/// The sum of two amounts, or `Overflow` if it is not an amount.
pub open spec fn sum_or_overflow(a: i128, b: i128) -> Result<i128, Error> {
    if fits(a + b) {
        Ok((a + b) as i128)
    } else {
        Err(Error::Overflow)
    }
}

/// The difference of two amounts, or `Underflow` if it is not an amount.
pub open spec fn difference_or_underflow(a: i128, b: i128) -> Result<i128, Error> {
    if fits(a - b) {
        Ok((a - b) as i128)
    } else {
        Err(Error::Underflow)
    }
}

/// Adds two amounts.
pub fn safe_add(a: i128, b: i128) -> (sum: Result<i128, Error>)
    ensures
        sum == sum_or_overflow(a, b),
{
    match a.checked_add(b) {
        Some(sum) => Ok(sum),
        None => Err(Error::Overflow),
    }
}

/// Subtracts `b` from `a`.
pub fn safe_sub(a: i128, b: i128) -> (difference: Result<i128, Error>)
    ensures
        difference == difference_or_underflow(a, b),
{
    match a.checked_sub(b) {
        Some(difference) => Ok(difference),
        None => Err(Error::Underflow),
    }
}

/// Refuses a negative amount.
pub fn validate_non_negative(amount: i128) -> (valid: Result<(), Error>)
    ensures
        valid == (if amount < 0 {
            Err::<(), Error>(Error::Underflow)
        } else {
            Ok(())
        }),
{
    if amount < 0 {
        return Err(Error::Underflow);
    }
    Ok(())
}

/// Adds a deposit, which must not be negative, to a balance.
pub fn safe_add_balance(balance: i128, amount: i128) -> (sum: Result<i128, Error>)
    ensures
        sum == (if amount < 0 {
            Err(Error::Underflow)
        } else {
            sum_or_overflow(balance, amount)
        }),
{
    if amount < 0 {
        return Err(Error::Underflow);
    }
    safe_add(balance, amount)
}

/// The counter value after `value`; the counter starts over after its largest value.
pub open spec fn successor(value: u32) -> u32 {
    if value == u32::MAX {
        0
    } else {
        (value + 1) as u32
    }
}

/// Advances a counter.
pub fn next_count(value: u32) -> (next: u32)
    ensures
        next == successor(value),
{
    if value == u32::MAX {
        0
    } else {
        value + 1
    }
}

} // verus!
