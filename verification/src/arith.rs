//! Checked arithmetic on token amounts.
//!
//! Every change of a balance or an allowance goes through these two
//! functions, so that an amount never wraps around.

use num_traits::{CheckedAdd, CheckedSub};
use vstd::prelude::*;

verus! {

/// Calls `num_traits::CheckedAdd::checked_add` on two `u128` values.
///
/// Trusted: the result is the sum where it fits in 128 bits, `None` where it
/// does not.
#[verifier::external_body]
pub(crate) fn checked_add(a: u128, b: u128) -> (r: Option<u128>)
    ensures
        a + b <= u128::MAX ==> r == Some((a + b) as u128),
        a + b > u128::MAX ==> r == None::<u128>,
{
    CheckedAdd::checked_add(&a, &b)
}

/// Calls `num_traits::CheckedSub::checked_sub` on two `u128` values.
///
/// Trusted: the result is the difference where it is not negative, `None`
/// where it is.
#[verifier::external_body]
pub(crate) fn checked_sub(a: u128, b: u128) -> (r: Option<u128>)
    ensures
        a >= b ==> r == Some((a - b) as u128),
        a < b ==> r == None::<u128>,
{
    CheckedSub::checked_sub(&a, &b)
}

} // verus!
