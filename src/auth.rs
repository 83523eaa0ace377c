use vstd::prelude::*;

use crate::state::{Escrow, Key};

verus! {

/// The record names `caller` as its arbiter.
pub open spec fn is_arbiter(e: Escrow, caller: Key) -> bool {
    e.arbiter == Some(caller)
}

/// At clock reading `now`, the seller's timeout has run out.
pub open spec fn timeout_reached(e: Escrow, now: i64) -> bool {
    now - e.created_at >= e.timeout_period
}

/// Who may release the custody to the seller: the buyer at any time, the
/// arbiter at any time, and the seller once the timeout has run out.
pub open spec fn may_release(e: Escrow, caller: Key, now: i64) -> bool {
    ||| caller == e.buyer
    ||| is_arbiter(e, caller)
    ||| (caller == e.seller && timeout_reached(e, now))
}

/// Who may return the custody to the buyer: the seller, the arbiter or the buyer.
pub open spec fn may_refund(e: Escrow, caller: Key) -> bool {
    ||| caller == e.seller
    ||| is_arbiter(e, caller)
    ||| caller == e.buyer
}

/// Who may cancel an unfunded record: the buyer or the seller.
pub open spec fn may_cancel(e: Escrow, caller: Key) -> bool {
    caller == e.buyer || caller == e.seller
}

/// Whether `caller` is the record's arbiter; a record without one has none to match.
pub fn matches_arbiter(escrow: &Escrow, caller: &Key) -> (r: bool)
    ensures
        r == is_arbiter(*escrow, *caller),
{
    match escrow.arbiter {
        Some(a) => a == *caller,
        None => false,
    }
}

/// Whether the seller's timeout has run out at clock reading `now`.
pub fn has_timed_out(escrow: &Escrow, now: i64) -> (r: bool)
    ensures
        r == timeout_reached(*escrow, now),
{
    (now as i128) - (escrow.created_at as i128) >= escrow.timeout_period as i128
}

/// Whether `caller` may release the record at clock reading `now`.
pub fn can_release(escrow: &Escrow, caller: &Key, now: i64) -> (r: bool)
    ensures
        r == may_release(*escrow, *caller, now),
{
    *caller == escrow.buyer || matches_arbiter(escrow, caller) || (*caller == escrow.seller
        && has_timed_out(escrow, now))
}

/// Whether `caller` may refund the record.
pub fn can_refund(escrow: &Escrow, caller: &Key) -> (r: bool)
    ensures
        r == may_refund(*escrow, *caller),
{
    *caller == escrow.seller || matches_arbiter(escrow, caller) || *caller == escrow.buyer
}

/// Whether `caller` may cancel the record.
pub fn can_cancel(escrow: &Escrow, caller: &Key) -> (r: bool)
    ensures
        r == may_cancel(*escrow, *caller),
{
    *caller == escrow.buyer || *caller == escrow.seller
}

} // verus!
