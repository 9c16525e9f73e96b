use vstd::prelude::*;

verus! {

/// The collateral due for minting `amount` units priced `price` each, at
/// `ratio` percent of their value, rounded down; none where the product of
/// ratio and amount, or that product times the price, exceeds 64 bits.
pub open spec fn collateral_spec(ratio: u64, amount: u64, price: u64) -> Option<u64> {
    if ratio * amount > u64::MAX || ratio * amount * price > u64::MAX {
        None
    } else {
        Some(((ratio * amount * price) / 100) as u64)
    }
}

/// Computes the collateral due, checking each multiplication for overflow.
pub fn collateral_due(ratio: u64, amount: u64, price: u64) -> (r: Option<u64>)
    ensures
        r == collateral_spec(ratio, amount, price),
{
    match ratio.checked_mul(amount) {
        None => None,
        Some(factor) => match factor.checked_mul(price) {
            None => None,
            Some(value) => Some(value / 100),
        },
    }
}

} // verus!
