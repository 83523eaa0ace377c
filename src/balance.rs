use vstd::prelude::*;

verus! {

/// The part of a custody balance that may leave the account: everything above
/// the minimum reserve, and nothing when the balance does not exceed it.
pub open spec fn movable_amount(custody_balance: u64, minimum_reserve: u64) -> nat {
    if custody_balance >= minimum_reserve {
        (custody_balance - minimum_reserve) as nat
    } else {
        0
    }
}

/// Amount that a release or a refund moves out of the custody account.
pub fn transfer_amount(custody_balance: u64, minimum_reserve: u64) -> (r: u64)
    ensures
        r == movable_amount(custody_balance, minimum_reserve),
        r <= custody_balance,
        custody_balance - r >= minimum_reserve || r == 0,
{
    custody_balance.saturating_sub(minimum_reserve)
}

} // verus!
