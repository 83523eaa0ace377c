use vstd::prelude::*;

use crate::auth::{is_arbiter, timeout_reached};
use crate::errors::EscrowError;
use crate::state::{Escrow, EscrowState, Key};
use crate::{
    cancel_outcome, fund_outcome, initialize_outcome, refund_outcome, release_outcome,
    CancelEscrow, FundEscrow, InitializeEscrow, RefundToBuyer, ReleaseToSeller,
};

verus! {

/// On a funded record, the buyer and the arbiter may release at any time; the
/// seller, when neither buyer nor arbiter, is refused before the timeout runs
/// out and may release once it has.
pub proof fn lemma_release_authorization(ctx: ReleaseToSeller)
    requires
        ctx.escrow.state == EscrowState::Funded,
    ensures
        ctx.caller == ctx.escrow.buyer ==> release_outcome(ctx) is Ok,
        is_arbiter(ctx.escrow, ctx.caller) ==> release_outcome(ctx) is Ok,
        ctx.caller == ctx.escrow.seller && timeout_reached(ctx.escrow, ctx.now) ==> release_outcome(
            ctx,
        ) is Ok,
        ctx.caller == ctx.escrow.seller && ctx.caller != ctx.escrow.buyer && !is_arbiter(
            ctx.escrow,
            ctx.caller,
        ) && !timeout_reached(ctx.escrow, ctx.now) ==> release_outcome(ctx) == Err::<u64, EscrowError>(
            EscrowError::UnauthorizedOperation,
        ),
{
}

/// A funded record may be refunded by its seller, its arbiter or its buyer,
/// and by nobody else; an unfunded one is refused as not funded.
pub proof fn lemma_refund_authorization(ctx: RefundToBuyer)
    ensures
        ctx.escrow.state == EscrowState::Funded ==> ((ctx.caller == ctx.escrow.seller || ctx.caller == ctx.escrow.buyer
            || is_arbiter(ctx.escrow, ctx.caller)) <==> refund_outcome(
            ctx,
        ) is Ok),
        ctx.escrow.state == EscrowState::Funded && !(ctx.caller == ctx.escrow.seller || ctx.caller == ctx.escrow.buyer
            || is_arbiter(ctx.escrow, ctx.caller)) ==> refund_outcome(ctx)
            == Err::<u64, EscrowError>(EscrowError::UnauthorizedOperation),
        ctx.escrow.state == EscrowState::Created ==> refund_outcome(ctx) == Err::<u64, EscrowError>(
            EscrowError::EscrowNotFunded,
        ),
{
}

/// A record that funding has just accepted can no longer be cancelled: the
/// cancel is refused as already funded, whoever asks.
pub proof fn lemma_no_cancel_after_funding(f: FundEscrow, c: CancelEscrow)
    requires
        fund_outcome(f) is Ok,
        c.escrow == (Escrow { state: EscrowState::Funded, ..f.escrow }),
    ensures
        cancel_outcome(c) == Err::<(), EscrowError>(EscrowError::EscrowAlreadyFunded),
{
}

/// Once a record is released, refunded or cancelled, every operation on it is
/// refused by its state guard.
pub proof fn lemma_terminal_records_reject(
    e: Escrow,
    f: FundEscrow,
    rel: ReleaseToSeller,
    refd: RefundToBuyer,
    c: CancelEscrow,
)
    requires
        e.state == EscrowState::Released || e.state == EscrowState::Refunded || e.state
            == EscrowState::Cancelled,
        f.escrow == e,
        rel.escrow == e,
        refd.escrow == e,
        c.escrow == e,
    ensures
        fund_outcome(f) == Err::<(), EscrowError>(EscrowError::InvalidState),
        release_outcome(rel) == Err::<u64, EscrowError>(EscrowError::EscrowNotFunded),
        refund_outcome(refd) == Err::<u64, EscrowError>(EscrowError::EscrowNotFunded),
        cancel_outcome(c) == Err::<(), EscrowError>(EscrowError::EscrowAlreadyFunded),
{
}

/// Creating with the buyer's own key as arbiter stores no arbiter, so no
/// caller is ever taken for the arbiter of that record.
pub proof fn lemma_arbiter_normalization(
    ctx: InitializeEscrow,
    amount: u64,
    timeout_period: i64,
    caller: Key,
)
    requires
        ctx.arbiter == ctx.buyer,
        amount > 0,
        timeout_period > 0,
    ensures
        initialize_outcome(ctx, amount, timeout_period) is Ok,
        initialize_outcome(ctx, amount, timeout_period)->Ok_0.arbiter is None,
        !is_arbiter(initialize_outcome(ctx, amount, timeout_period)->Ok_0, caller),
{
}

} // verus!
