use vstd::prelude::*;

verus! {

/// The balance the source must hold before a transfer: the amount plus the
/// reserve that has to remain, as an unbounded integer.
pub open spec fn required_spec(amount: u64, min_reserve: u64) -> int {
    amount as int + min_reserve as int
}

/// Whether `balance` covers `amount` and still leaves `min_reserve` behind.
pub open spec fn sufficient_spec(balance: u64, amount: u64, min_reserve: u64) -> bool {
    balance as int >= required_spec(amount, min_reserve)
}

/// The amount plus the reserve, exactly; a `u128` holds any sum of two `u64`.
pub fn required_balance(amount: u64, min_reserve: u64) -> (r: u128)
    ensures
        r as int == required_spec(amount, min_reserve),
{
    amount as u128 + min_reserve as u128
}

/// True iff `balance >= amount + min_reserve`. When the sum does not fit in
/// a `u64` no balance can cover it, and the answer is false.
pub fn check_sufficient_balance(balance: u64, amount: u64, min_reserve: u64) -> (r: bool)
    ensures
        r == sufficient_spec(balance, amount, min_reserve),
{
    match amount.checked_add(min_reserve) {
        Some(required) => balance >= required,
        None => false,
    }
}

} // verus!
