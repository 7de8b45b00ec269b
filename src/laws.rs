//! What holds of the operations together.
use vstd::prelude::*;
use crate::pda::Pubkey;
use crate::token::TokenAccount;
use crate::escrow::{
    MAX_DEADLINE_SECS,
    EscrowState,
    EscrowError,
    Initialize,
    Release,
    Cancel,
    initialize_authorized,
    initialize_outcome,
    new_record,
    buyer_controls,
    destination_valid,
    release_outcome,
    cancel_outcome,
};

verus! {

/// The custody account can pay out `amount` to `dest`: it is its own
/// authority, holds at least `amount` of the token type, and the destination
/// has room for it.
pub open spec fn payout_possible(vault: TokenAccount, dest: TokenAccount, mint_key: Pubkey, amount: u64) -> bool {
    &&& vault.owner@ == vault.key@
    &&& vault.mint@ == mint_key@
    &&& vault.amount >= amount
    &&& dest.amount + amount <= u64::MAX
}

/// A valid initialization (positive amount, deadline after now and within 90
/// days, accounts that match, no record yet, enough funds) succeeds: it creates
/// a `Locked` record of `amount`, and exactly `amount` moves from the buyer's
/// account into the custody account.
pub proof fn lemma_initialize_locks_amount(
    ctx: Initialize,
    program_id: Seq<u8>,
    now: i64,
    amount: u64,
    deadline: i64,
)
    requires
        amount > 0,
        now < deadline <= now + MAX_DEADLINE_SECS,
        initialize_authorized(ctx, program_id),
        ctx.escrow is None,
        ctx.vault is None,
        ctx.buyer_token_account.amount >= amount,
    ensures
        initialize_outcome(ctx, program_id, now, amount, deadline) matches Ok(next) && {
            &&& next.escrow == Some(new_record(ctx, program_id, amount, deadline))
            &&& next.escrow->0.state == EscrowState::Locked
            &&& next.escrow->0.amount == amount
            &&& next.vault matches Some(v) && v.amount == amount && v.key@ == ctx.vault_key@
            &&& next.buyer_token_account.amount == ctx.buyer_token_account.amount - amount
        },
{
}

/// Once a release has succeeded, no cancellation of that record succeeds; one
/// that the buyer is authorized for fails with `NotLocked`.
pub proof fn lemma_release_excludes_cancel(r: Release, next: Release, c: Cancel, program_id: Seq<u8>)
    requires
        release_outcome(r, program_id) == Ok::<Release, EscrowError>(next),
        c.escrow == next.escrow,
    ensures
        cancel_outcome(c, program_id) is Err,
        buyer_controls(c.buyer, c.buyer_signed, c.mint, c.escrow_key, c.escrow, c.vault.key, program_id)
            && destination_valid(c.buyer_token_account, c.buyer, c.mint, c.vault.key) ==> cancel_outcome(
            c,
            program_id,
        ) == Err::<Cancel, EscrowError>(EscrowError::NotLocked),
{
}

/// Once a cancellation has succeeded, no release of that record succeeds; one
/// that the buyer is authorized for fails with `NotLocked`.
pub proof fn lemma_cancel_excludes_release(c: Cancel, next: Cancel, r: Release, program_id: Seq<u8>)
    requires
        cancel_outcome(c, program_id) == Ok::<Cancel, EscrowError>(next),
        r.escrow == next.escrow,
    ensures
        release_outcome(r, program_id) is Err,
        buyer_controls(r.buyer, r.buyer_signed, r.mint, r.escrow_key, r.escrow, r.vault.key, program_id)
            && destination_valid(r.seller_token_account, r.escrow.seller, r.mint, r.vault.key) ==> release_outcome(
            r,
            program_id,
        ) == Err::<Release, EscrowError>(EscrowError::NotLocked),
{
}

/// An authorized release of a `Locked` record whose custody account can pay
/// succeeds; a release that succeeds moves the record's amount from custody to
/// the seller and marks it `Released`, and a custody account that held exactly
/// that amount is left empty.
pub proof fn lemma_release_pays_seller(r: Release, program_id: Seq<u8>)
    requires
        buyer_controls(r.buyer, r.buyer_signed, r.mint, r.escrow_key, r.escrow, r.vault.key, program_id),
        destination_valid(r.seller_token_account, r.escrow.seller, r.mint, r.vault.key),
    ensures
        r.escrow.state == EscrowState::Locked && payout_possible(r.vault, r.seller_token_account, r.mint.key, r.escrow.amount)
            ==> release_outcome(r, program_id) is Ok,
        release_outcome(r, program_id) matches Ok(next) ==> {
            &&& next.escrow.state == EscrowState::Released
            &&& next.seller_token_account.amount == r.seller_token_account.amount + r.escrow.amount
            &&& next.vault.amount == r.vault.amount - r.escrow.amount
            &&& r.vault.amount == r.escrow.amount ==> next.vault.amount == 0
        },
{
}

/// An authorized cancellation of a `Locked` record whose custody account can
/// pay succeeds, whatever the time and the deadline; one that succeeds moves
/// the record's amount from custody back to the buyer and marks it `Cancelled`.
pub proof fn lemma_cancel_refunds_buyer(c: Cancel, program_id: Seq<u8>)
    requires
        buyer_controls(c.buyer, c.buyer_signed, c.mint, c.escrow_key, c.escrow, c.vault.key, program_id),
        destination_valid(c.buyer_token_account, c.buyer, c.mint, c.vault.key),
    ensures
        c.escrow.state == EscrowState::Locked && payout_possible(c.vault, c.buyer_token_account, c.mint.key, c.escrow.amount)
            ==> cancel_outcome(c, program_id) is Ok,
        cancel_outcome(c, program_id) matches Ok(next) ==> {
            &&& next.escrow.state == EscrowState::Cancelled
            &&& next.buyer_token_account.amount == c.buyer_token_account.amount + c.escrow.amount
            &&& next.vault.amount == c.vault.amount - c.escrow.amount
            &&& c.vault.amount == c.escrow.amount ==> next.vault.amount == 0
        },
{
}

/// Releasing twice: the second call, on the accounts the first one left, fails
/// with `NotLocked` and changes nothing, so the seller gains the amount once.
pub proof fn lemma_release_twice(r: Release, next: Release, program_id: Seq<u8>)
    requires
        release_outcome(r, program_id) == Ok::<Release, EscrowError>(next),
    ensures
        release_outcome(next, program_id) == Err::<Release, EscrowError>(EscrowError::NotLocked),
        next.seller_token_account.amount == r.seller_token_account.amount + r.escrow.amount,
        next.vault.amount == r.vault.amount - r.escrow.amount,
{
}

/// Cancelling twice: the second call, on the accounts the first one left, fails
/// with `NotLocked` and changes nothing, so the buyer gets the amount back once.
pub proof fn lemma_cancel_twice(c: Cancel, next: Cancel, program_id: Seq<u8>)
    requires
        cancel_outcome(c, program_id) == Ok::<Cancel, EscrowError>(next),
    ensures
        cancel_outcome(next, program_id) == Err::<Cancel, EscrowError>(EscrowError::NotLocked),
        next.buyer_token_account.amount == c.buyer_token_account.amount + c.escrow.amount,
        next.vault.amount == c.vault.amount - c.escrow.amount,
{
}

} // verus!
