use vstd::prelude::*;

pub mod auth;
pub mod balance;
pub mod errors;
pub mod laws;
pub mod state;

use crate::auth::{
    can_cancel, can_refund, can_release, may_cancel, may_refund, may_release,
};
use crate::balance::{movable_amount, transfer_amount};
use crate::errors::EscrowError;
use crate::state::{Escrow, EscrowState, Key};

verus! {

/// What creating an escrow reads: the parties, the custody account's
/// address token, and the clock.
#[derive(Clone, Copy, Debug)]
pub struct InitializeEscrow {
    pub buyer: Key,
    pub seller: Key,
    /// The arbiter; the buyer's own key here means that there is none.
    pub arbiter: Key,
    pub bump: u8,
    /// Clock reading, in seconds.
    pub now: i64,
}

/// What funding reads and changes: the record, the paying party and the
/// balances of its account and of the custody account.
#[derive(Clone, Copy, Debug)]
pub struct FundEscrow {
    pub escrow: Escrow,
    /// The party that moves the deposit.
    pub buyer: Key,
    pub buyer_lamports: u64,
    pub escrow_lamports: u64,
}

/// What a release reads and changes: the record, the caller, the clock and
/// the balances of the custody account and of the seller's account.
#[derive(Clone, Copy, Debug)]
pub struct ReleaseToSeller {
    pub escrow: Escrow,
    pub caller: Key,
    /// Clock reading, in seconds.
    pub now: i64,
    pub escrow_lamports: u64,
    pub seller_lamports: u64,
    /// The least balance that the custody account must keep.
    pub minimum_reserve: u64,
}

/// What a refund reads and changes: the record, the caller and the balances
/// of the custody account and of the buyer's account.
#[derive(Clone, Copy, Debug)]
pub struct RefundToBuyer {
    pub escrow: Escrow,
    pub caller: Key,
    pub escrow_lamports: u64,
    pub buyer_lamports: u64,
    /// The least balance that the custody account must keep.
    pub minimum_reserve: u64,
}

/// What a cancel reads and changes: the record, the caller and the balances
/// of the custody account and of the buyer's account.
#[derive(Clone, Copy, Debug)]
pub struct CancelEscrow {
    pub escrow: Escrow,
    pub caller: Key,
    pub escrow_lamports: u64,
    pub buyer_lamports: u64,
}

/// The stored arbiter: none where the given one is the buyer.
pub open spec fn normalized_arbiter(buyer: Key, arbiter: Key) -> Option<Key> {
    if arbiter == buyer {
        None
    } else {
        Some(arbiter)
    }
}

/// The record that a successful creation writes.
pub open spec fn created_record(ctx: InitializeEscrow, amount: u64, timeout_period: i64) -> Escrow {
    Escrow {
        buyer: ctx.buyer,
        seller: ctx.seller,
        arbiter: normalized_arbiter(ctx.buyer, ctx.arbiter),
        amount,
        created_at: ctx.now,
        timeout_period,
        state: EscrowState::Created,
        bump: ctx.bump,
    }
}

/// The answer to a creation.
pub open spec fn initialize_outcome(ctx: InitializeEscrow, amount: u64, timeout_period: i64) -> Result<
    Escrow,
    EscrowError,
> {
    if amount == 0 {
        Err(EscrowError::InvalidAmount)
    } else if timeout_period <= 0 {
        Err(EscrowError::InvalidTimeout)
    } else {
        Ok(created_record(ctx, amount, timeout_period))
    }
}

/// The answer to a funding.
pub open spec fn fund_outcome(ctx: FundEscrow) -> Result<(), EscrowError> {
    if ctx.escrow.state != EscrowState::Created {
        Err(EscrowError::InvalidState)
    } else if ctx.buyer != ctx.escrow.buyer {
        Err(EscrowError::UnauthorizedOperation)
    } else if ctx.buyer_lamports < ctx.escrow.amount {
        Err(EscrowError::InsufficientFunds)
    } else {
        Ok(())
    }
}

/// The answer to a release: on success, the amount moved to the seller.
pub open spec fn release_outcome(ctx: ReleaseToSeller) -> Result<u64, EscrowError> {
    if ctx.escrow.state != EscrowState::Funded {
        Err(EscrowError::EscrowNotFunded)
    } else if !may_release(ctx.escrow, ctx.caller, ctx.now) {
        Err(EscrowError::UnauthorizedOperation)
    } else {
        Ok(movable_amount(ctx.escrow_lamports, ctx.minimum_reserve) as u64)
    }
}

/// The answer to a refund: on success, the amount moved to the buyer.
pub open spec fn refund_outcome(ctx: RefundToBuyer) -> Result<u64, EscrowError> {
    if ctx.escrow.state != EscrowState::Funded {
        Err(EscrowError::EscrowNotFunded)
    } else if !may_refund(ctx.escrow, ctx.caller) {
        Err(EscrowError::UnauthorizedOperation)
    } else {
        Ok(movable_amount(ctx.escrow_lamports, ctx.minimum_reserve) as u64)
    }
}

/// The answer to a cancel.
pub open spec fn cancel_outcome(ctx: CancelEscrow) -> Result<(), EscrowError> {
    if ctx.escrow.state != EscrowState::Created {
        Err(EscrowError::EscrowAlreadyFunded)
    } else if !may_cancel(ctx.escrow, ctx.caller) {
        Err(EscrowError::UnauthorizedOperation)
    } else {
        Ok(())
    }
}

/// Creates the record of a new escrow between the context's buyer and seller.
/// An arbiter equal to the buyer is stored as no arbiter.
pub fn initialize_escrow(ctx: &InitializeEscrow, amount: u64, timeout_period: i64) -> (r: Result<
    Escrow,
    EscrowError,
>)
    ensures
        r == initialize_outcome(*ctx, amount, timeout_period),
        r is Ok <==> amount > 0 && timeout_period > 0,
        r is Ok ==> r->Ok_0.state == EscrowState::Created && r->Ok_0.wf(),
{
    if amount == 0 {
        return Err(EscrowError::InvalidAmount);
    }
    if timeout_period <= 0 {
        return Err(EscrowError::InvalidTimeout);
    }
    let arbiter = if ctx.arbiter == ctx.buyer {
        None
    } else {
        Some(ctx.arbiter)
    };
    Ok(
        Escrow {
            buyer: ctx.buyer,
            seller: ctx.seller,
            arbiter,
            amount,
            created_at: ctx.now,
            timeout_period,
            state: EscrowState::Created,
            bump: ctx.bump,
        },
    )
}

/// Moves the agreed amount from the buyer's account into custody and marks
/// the record funded.
pub fn fund_escrow(ctx: &mut FundEscrow) -> (r: Result<(), EscrowError>)
    requires
        old(ctx).buyer_lamports + old(ctx).escrow_lamports <= u64::MAX,
    ensures
        r == fund_outcome(*old(ctx)),
        r is Ok <==> old(ctx).escrow.state == EscrowState::Created && old(ctx).buyer
            == old(ctx).escrow.buyer && old(ctx).buyer_lamports >= old(ctx).escrow.amount,
        r is Err ==> *final(ctx) == *old(ctx),
        r is Ok ==> {
            &&& final(ctx).escrow == (Escrow { state: EscrowState::Funded, ..old(ctx).escrow })
            &&& final(ctx).buyer == old(ctx).buyer
            &&& final(ctx).escrow_lamports == old(ctx).escrow_lamports + old(ctx).escrow.amount
            &&& final(ctx).buyer_lamports == old(ctx).buyer_lamports - old(ctx).escrow.amount
        },
{
    if ctx.escrow.state != EscrowState::Created {
        return Err(EscrowError::InvalidState);
    }
    if ctx.buyer != ctx.escrow.buyer {
        return Err(EscrowError::UnauthorizedOperation);
    }
    let amount = ctx.escrow.amount;
    if ctx.buyer_lamports < amount {
        return Err(EscrowError::InsufficientFunds);
    }
    ctx.buyer_lamports = ctx.buyer_lamports - amount;
    ctx.escrow_lamports = ctx.escrow_lamports + amount;
    ctx.escrow.state = EscrowState::Funded;
    Ok(())
}

/// Moves the custody above the minimum reserve to the seller and marks the
/// record released. Returns the amount moved.
pub fn release_to_seller(ctx: &mut ReleaseToSeller) -> (r: Result<u64, EscrowError>)
    requires
        old(ctx).escrow_lamports + old(ctx).seller_lamports <= u64::MAX,
    ensures
        r == release_outcome(*old(ctx)),
        r is Ok <==> old(ctx).escrow.state == EscrowState::Funded && may_release(
            old(ctx).escrow,
            old(ctx).caller,
            old(ctx).now,
        ),
        r is Err ==> *final(ctx) == *old(ctx),
        r is Ok ==> {
            &&& r->Ok_0 == movable_amount(old(ctx).escrow_lamports, old(ctx).minimum_reserve)
            &&& final(ctx).escrow == (Escrow { state: EscrowState::Released, ..old(ctx).escrow })
            &&& final(ctx).caller == old(ctx).caller
            &&& final(ctx).now == old(ctx).now
            &&& final(ctx).minimum_reserve == old(ctx).minimum_reserve
            &&& final(ctx).escrow_lamports == old(ctx).escrow_lamports - r->Ok_0
            &&& final(ctx).seller_lamports == old(ctx).seller_lamports + r->Ok_0
        },
{
    if ctx.escrow.state != EscrowState::Funded {
        return Err(EscrowError::EscrowNotFunded);
    }
    if !can_release(&ctx.escrow, &ctx.caller, ctx.now) {
        return Err(EscrowError::UnauthorizedOperation);
    }
    let amount = transfer_amount(ctx.escrow_lamports, ctx.minimum_reserve);
    ctx.escrow_lamports = ctx.escrow_lamports - amount;
    ctx.seller_lamports = ctx.seller_lamports + amount;
    ctx.escrow.state = EscrowState::Released;
    Ok(amount)
}

/// Moves the custody above the minimum reserve back to the buyer and marks
/// the record refunded. Returns the amount moved.
pub fn refund_to_buyer(ctx: &mut RefundToBuyer) -> (r: Result<u64, EscrowError>)
    requires
        old(ctx).escrow_lamports + old(ctx).buyer_lamports <= u64::MAX,
    ensures
        r == refund_outcome(*old(ctx)),
        r is Ok <==> old(ctx).escrow.state == EscrowState::Funded && may_refund(
            old(ctx).escrow,
            old(ctx).caller,
        ),
        r is Err ==> *final(ctx) == *old(ctx),
        r is Ok ==> {
            &&& r->Ok_0 == movable_amount(old(ctx).escrow_lamports, old(ctx).minimum_reserve)
            &&& final(ctx).escrow == (Escrow { state: EscrowState::Refunded, ..old(ctx).escrow })
            &&& final(ctx).caller == old(ctx).caller
            &&& final(ctx).minimum_reserve == old(ctx).minimum_reserve
            &&& final(ctx).escrow_lamports == old(ctx).escrow_lamports - r->Ok_0
            &&& final(ctx).buyer_lamports == old(ctx).buyer_lamports + r->Ok_0
        },
{
    if ctx.escrow.state != EscrowState::Funded {
        return Err(EscrowError::EscrowNotFunded);
    }
    if !can_refund(&ctx.escrow, &ctx.caller) {
        return Err(EscrowError::UnauthorizedOperation);
    }
    let amount = transfer_amount(ctx.escrow_lamports, ctx.minimum_reserve);
    ctx.escrow_lamports = ctx.escrow_lamports - amount;
    ctx.buyer_lamports = ctx.buyer_lamports + amount;
    ctx.escrow.state = EscrowState::Refunded;
    Ok(amount)
}

/// Closes an unfunded record: its whole custody balance returns to the buyer
/// and the record is marked cancelled.
pub fn cancel_escrow(ctx: &mut CancelEscrow) -> (r: Result<(), EscrowError>)
    requires
        old(ctx).escrow_lamports + old(ctx).buyer_lamports <= u64::MAX,
    ensures
        r == cancel_outcome(*old(ctx)),
        r is Ok <==> old(ctx).escrow.state == EscrowState::Created && may_cancel(
            old(ctx).escrow,
            old(ctx).caller,
        ),
        r is Err ==> *final(ctx) == *old(ctx),
        r is Ok ==> {
            &&& final(ctx).escrow == (Escrow { state: EscrowState::Cancelled, ..old(ctx).escrow })
            &&& final(ctx).caller == old(ctx).caller
            &&& final(ctx).escrow_lamports == 0
            &&& final(ctx).buyer_lamports == old(ctx).buyer_lamports + old(ctx).escrow_lamports
        },
{
    if ctx.escrow.state != EscrowState::Created {
        return Err(EscrowError::EscrowAlreadyFunded);
    }
    if !can_cancel(&ctx.escrow, &ctx.caller) {
        return Err(EscrowError::UnauthorizedOperation);
    }
    ctx.buyer_lamports = ctx.buyer_lamports + ctx.escrow_lamports;
    ctx.escrow_lamports = 0;
    ctx.escrow.state = EscrowState::Cancelled;
    Ok(())
}

} // verus!
