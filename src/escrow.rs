//! The escrow record and its three operations: initialize, release, cancel.
use vstd::prelude::*;
use crate::pda::{
    Pubkey,
    program_address,
    seeds_view,
    derives,
    is_pda,
    pda_bump,
    lemma_canonical_unique,
    create_program_address,
    try_find_program_address,
};
use crate::token::{Mint, TokenAccount, TokenError, transfer_outcome, transfer_checked};

verus! {

/// The longest time between initialization and the deadline: 90 days, in seconds.
pub const MAX_DEADLINE_SECS: i64 = 90 * 24 * 60 * 60;

/// Where an escrow stands. `Released` and `Cancelled` are final.
#[derive(Clone, Copy, Debug, PartialEq, Eq, Structural)]
pub enum EscrowState {
    Locked,
    Released,
    Cancelled,
}

/// One escrow agreement.
#[derive(Clone, Copy, Debug)]
pub struct Escrow {
    /// The party that deposited the tokens and alone may release or cancel.
    pub buyer: Pubkey,
    /// The party that receives the tokens on release.
    pub seller: Pubkey,
    /// The token type held.
    pub mint: Pubkey,
    /// The amount held; never changes.
    pub amount: u64,
    /// Unix time documented as the cancellation horizon; nothing enforces it.
    pub deadline: i64,
    /// Bump seed of the record's own address.
    pub bump: u8,
    /// Bump seed of the custody account's address.
    pub vault_bump: u8,
    pub state: EscrowState,
}

/// Why an operation is refused. A refused operation changes nothing.
#[derive(Clone, Copy, Debug, PartialEq, Eq, Structural)]
pub enum EscrowError {
    /// The amount is zero.
    InvalidAmount,
    /// The deadline is not after the current time.
    DeadlineInPast,
    /// The deadline is more than 90 days after the current time.
    DeadlineTooFar,
    /// The record is no longer `Locked`.
    NotLocked,
    /// A record or a custody account already exists at the derived address.
    DuplicateRecord,
    /// The buyer did not sign, or an account does not match the record.
    AuthorizationFailed,
    /// The token transfer was refused.
    Token(TokenError),
}

/// The accounts of an initialization, as they stand before it.
#[derive(Clone, Copy, Debug)]
pub struct Initialize {
    pub buyer: Pubkey,
    /// Whether the buyer signed the call.
    pub buyer_signed: bool,
    pub seller: Pubkey,
    pub mint: Mint,
    /// The buyer's account that the deposit comes from.
    pub buyer_token_account: TokenAccount,
    pub escrow_key: Pubkey,
    /// The record at `escrow_key`, if one exists.
    pub escrow: Option<Escrow>,
    pub vault_key: Pubkey,
    /// The custody account at `vault_key`, if one exists.
    pub vault: Option<TokenAccount>,
}

/// The accounts of a release.
#[derive(Clone, Copy, Debug)]
pub struct Release {
    pub buyer: Pubkey,
    /// Whether the buyer signed the call.
    pub buyer_signed: bool,
    pub mint: Mint,
    pub escrow_key: Pubkey,
    pub escrow: Escrow,
    /// The custody account.
    pub vault: TokenAccount,
    /// The seller's account that receives the tokens.
    pub seller_token_account: TokenAccount,
}

/// The accounts of a cancellation.
#[derive(Clone, Copy, Debug)]
pub struct Cancel {
    pub buyer: Pubkey,
    /// Whether the buyer signed the call.
    pub buyer_signed: bool,
    pub mint: Mint,
    pub escrow_key: Pubkey,
    pub escrow: Escrow,
    /// The custody account.
    pub vault: TokenAccount,
    /// The buyer's account that receives the tokens back.
    pub buyer_token_account: TokenAccount,
}

/// The bytes of "escrow".
pub open spec fn escrow_tag() -> Seq<u8> {
    seq![101u8, 115u8, 99u8, 114u8, 111u8, 119u8]
}

/// The bytes of "vault".
pub open spec fn vault_tag() -> Seq<u8> {
    seq![118u8, 97u8, 117u8, 108u8, 116u8]
}

/// The seeds of a record's address.
pub open spec fn escrow_seeds(buyer: Seq<u8>, seller: Seq<u8>, mint: Seq<u8>) -> Seq<Seq<u8>> {
    seq![escrow_tag(), buyer, seller, mint]
}

/// The seeds of a custody account's address.
pub open spec fn vault_seeds(escrow: Seq<u8>) -> Seq<Seq<u8>> {
    seq![vault_tag(), escrow]
}

fn escrow_seeds_vec(buyer: &Pubkey, seller: &Pubkey, mint: &Pubkey) -> (r: Vec<Vec<u8>>)
    ensures
        seeds_view(r@) == escrow_seeds(buyer@, seller@, mint@),
{
    let tag: Vec<u8> = vec![101u8, 115, 99, 114, 111, 119];
    let r: Vec<Vec<u8>> = vec![tag, buyer.to_vec(), seller.to_vec(), mint.to_vec()];
    assert(tag@ =~= escrow_tag());
    assert(seeds_view(r@) =~= escrow_seeds(buyer@, seller@, mint@));
    r
}

fn vault_seeds_vec(escrow: &Pubkey) -> (r: Vec<Vec<u8>>)
    ensures
        seeds_view(r@) == vault_seeds(escrow@),
{
    let tag: Vec<u8> = vec![118u8, 97, 117, 108, 116];
    let r: Vec<Vec<u8>> = vec![tag, escrow.to_vec()];
    assert(tag@ =~= vault_tag());
    assert(seeds_view(r@) =~= vault_seeds(escrow@));
    r
}

/// Recomputes the address of `seeds` and `bump` and compares it with `addr`.
fn check_derives(seeds: Vec<Vec<u8>>, program_id: &Pubkey, addr: &Pubkey, bump: u8) -> (r: bool)
    ensures
        r == derives(seeds_view(seeds@), program_id@, addr@, bump),
{
    let ghost before = seeds_view(seeds@);
    let mut s = seeds;
    let b: Vec<u8> = vec![bump];
    s.push(b);
    assert(b@ =~= seq![bump]);
    assert(seeds_view(s@) =~= before.push(seq![bump]));
    match create_program_address(&s, program_id) {
        Some(k) => k.same_as(addr),
        None => false,
    }
}

/// The canonical bump of `addr`, if `addr` is the canonical address of `seeds`.
fn find_bump(seeds: &Vec<Vec<u8>>, program_id: &Pubkey, addr: &Pubkey) -> (r: Option<u8>)
    ensures
        r is Some <==> is_pda(seeds_view(seeds@), program_id@, addr@),
        r matches Some(b) ==> b == pda_bump(seeds_view(seeds@), program_id@, addr@),
{
    let ghost sv = seeds_view(seeds@);
    match find_address(seeds, program_id) {
        Some((k, b)) => {
            if k.same_as(addr) {
                Some(b)
            } else {
                proof {
                    if is_pda(sv, program_id@, addr@) {
                        let c = pda_bump(sv, program_id@, addr@);
                        lemma_canonical_unique(sv, program_id@, k@, b, addr@, c);
                    }
                }
                None
            }
        },
        None => None,
    }
}

fn find_address(seeds: &Vec<Vec<u8>>, program_id: &Pubkey) -> (r: Option<(Pubkey, u8)>)
    ensures
        r matches Some((k, b)) ==> is_pda(seeds_view(seeds@), program_id@, k@) && b == pda_bump(
            seeds_view(seeds@),
            program_id@,
            k@,
        ),
        r is None ==> forall|a: Seq<u8>| !is_pda(seeds_view(seeds@), program_id@, a),
{
    let ghost sv = seeds_view(seeds@);
    let r = try_find_program_address(seeds, program_id);
    match r {
        Some((k, b)) => {
            proof {
                let c = pda_bump(sv, program_id@, k@);
                lemma_canonical_unique(sv, program_id@, k@, b, k@, c);
            }
        },
        None => {
            assert forall|a: Seq<u8>| !is_pda(sv, program_id@, a) by {
                if is_pda(sv, program_id@, a) {
                    let b = pda_bump(sv, program_id@, a);
                    assert(program_address(sv.push(seq![b]), program_id@) is None);
                }
            }
        },
    }
    r
}

/// The address of the record of an agreement, with its bump seed.
pub fn escrow_address(buyer: &Pubkey, seller: &Pubkey, mint: &Pubkey, program_id: &Pubkey) -> (r: Option<(Pubkey, u8)>)
    ensures
        r matches Some((k, b)) ==> is_pda(escrow_seeds(buyer@, seller@, mint@), program_id@, k@) && b == pda_bump(
            escrow_seeds(buyer@, seller@, mint@),
            program_id@,
            k@,
        ),
        r is None ==> forall|a: Seq<u8>| !is_pda(escrow_seeds(buyer@, seller@, mint@), program_id@, a),
{
    let seeds = escrow_seeds_vec(buyer, seller, mint);
    find_address(&seeds, program_id)
}

/// The address of the custody account of the record at `escrow`, with its bump
/// seed.
pub fn vault_address(escrow: &Pubkey, program_id: &Pubkey) -> (r: Option<(Pubkey, u8)>)
    ensures
        r matches Some((k, b)) ==> is_pda(vault_seeds(escrow@), program_id@, k@) && b == pda_bump(
            vault_seeds(escrow@),
            program_id@,
            k@,
        ),
        r is None ==> forall|a: Seq<u8>| !is_pda(vault_seeds(escrow@), program_id@, a),
{
    let seeds = vault_seeds_vec(escrow);
    find_address(&seeds, program_id)
}

/// `after` and `r` are what `outcome` says: the new accounts on success, the
/// error and the accounts unchanged otherwise.
pub open spec fn settled<T>(
    before: T,
    after: T,
    r: Result<(), EscrowError>,
    outcome: Result<T, EscrowError>,
) -> bool {
    match outcome {
        Ok(next) => r is Ok && after == next,
        Err(e) => r == Err::<(), EscrowError>(e) && after == before,
    }
}

/// The buyer signed, the record's address and the custody account's address
/// derive from the agreement, and the source account is the buyer's, of the
/// token type, and not the custody account.
pub open spec fn initialize_authorized(ctx: Initialize, program_id: Seq<u8>) -> bool {
    &&& ctx.buyer_signed
    &&& is_pda(escrow_seeds(ctx.buyer@, ctx.seller@, ctx.mint.key@), program_id, ctx.escrow_key@)
    &&& is_pda(vault_seeds(ctx.escrow_key@), program_id, ctx.vault_key@)
    &&& ctx.buyer_token_account.mint@ == ctx.mint.key@
    &&& ctx.buyer_token_account.owner@ == ctx.buyer@
    &&& ctx.buyer_token_account.key@ != ctx.vault_key@
}

/// The empty custody account, which owns itself.
pub open spec fn new_vault(ctx: Initialize) -> TokenAccount {
    TokenAccount { key: ctx.vault_key, mint: ctx.mint.key, owner: ctx.vault_key, amount: 0 }
}

/// The record that an initialization creates.
pub open spec fn new_record(ctx: Initialize, program_id: Seq<u8>, amount: u64, deadline: i64) -> Escrow {
    Escrow {
        buyer: ctx.buyer,
        seller: ctx.seller,
        mint: ctx.mint.key,
        amount,
        deadline,
        bump: pda_bump(escrow_seeds(ctx.buyer@, ctx.seller@, ctx.mint.key@), program_id, ctx.escrow_key@),
        vault_bump: pda_bump(vault_seeds(ctx.escrow_key@), program_id, ctx.vault_key@),
        state: EscrowState::Locked,
    }
}

/// What an initialization at time `now` does.
pub open spec fn initialize_outcome(
    ctx: Initialize,
    program_id: Seq<u8>,
    now: i64,
    amount: u64,
    deadline: i64,
) -> Result<Initialize, EscrowError> {
    if amount == 0 {
        Err(EscrowError::InvalidAmount)
    } else if deadline <= now {
        Err(EscrowError::DeadlineInPast)
    } else if deadline > now + MAX_DEADLINE_SECS {
        Err(EscrowError::DeadlineTooFar)
    } else if !initialize_authorized(ctx, program_id) {
        Err(EscrowError::AuthorizationFailed)
    } else if ctx.escrow is Some || ctx.vault is Some {
        Err(EscrowError::DuplicateRecord)
    } else {
        match transfer_outcome(ctx.buyer_token_account, new_vault(ctx), ctx.buyer, ctx.mint, amount, ctx.mint.decimals) {
            Err(e) => Err(EscrowError::Token(e)),
            Ok((source, vault)) => Ok(
                Initialize {
                    buyer_token_account: source,
                    escrow: Some(new_record(ctx, program_id, amount, deadline)),
                    vault: Some(vault),
                    ..ctx
                },
            ),
        }
    }
}

/// Creates the record in `Locked` and moves `amount` from the buyer's account
/// into a new custody account.
pub fn initialize(ctx: &mut Initialize, program_id: &Pubkey, now: i64, amount: u64, deadline: i64) -> (r: Result<(), EscrowError>)
    ensures
        settled(*old(ctx), *final(ctx), r, initialize_outcome(*old(ctx), program_id@, now, amount, deadline)),
        amount == 0 ==> r == Err::<(), EscrowError>(EscrowError::InvalidAmount),
        amount > 0 && deadline <= now ==> r == Err::<(), EscrowError>(EscrowError::DeadlineInPast),
        amount > 0 && deadline > now + MAX_DEADLINE_SECS ==> r == Err::<(), EscrowError>(
            EscrowError::DeadlineTooFar,
        ),
        r is Err ==> *final(ctx) == *old(ctx),
{
    if amount == 0 {
        return Err(EscrowError::InvalidAmount);
    }
    if deadline <= now {
        return Err(EscrowError::DeadlineInPast);
    }
    if deadline as i128 > now as i128 + MAX_DEADLINE_SECS as i128 {
        return Err(EscrowError::DeadlineTooFar);
    }
    let escrow_seeds = escrow_seeds_vec(&ctx.buyer, &ctx.seller, &ctx.mint.key);
    let bump = match find_bump(&escrow_seeds, program_id, &ctx.escrow_key) {
        Some(b) => b,
        None => {
            return Err(EscrowError::AuthorizationFailed);
        },
    };
    let vault_seeds = vault_seeds_vec(&ctx.escrow_key);
    let vault_bump = match find_bump(&vault_seeds, program_id, &ctx.vault_key) {
        Some(b) => b,
        None => {
            return Err(EscrowError::AuthorizationFailed);
        },
    };
    let source = ctx.buyer_token_account;
    if !ctx.buyer_signed || !source.mint.same_as(&ctx.mint.key) || !source.owner.same_as(&ctx.buyer)
        || source.key.same_as(&ctx.vault_key) {
        return Err(EscrowError::AuthorizationFailed);
    }
    if ctx.escrow.is_some() || ctx.vault.is_some() {
        return Err(EscrowError::DuplicateRecord);
    }
    let vault = TokenAccount { key: ctx.vault_key, mint: ctx.mint.key, owner: ctx.vault_key, amount: 0 };
    match transfer_checked(source, vault, ctx.buyer, ctx.mint, amount, ctx.mint.decimals) {
        Err(e) => Err(EscrowError::Token(e)),
        Ok((source, vault)) => {
            ctx.buyer_token_account = source;
            ctx.escrow = Some(
                Escrow {
                    buyer: ctx.buyer,
                    seller: ctx.seller,
                    mint: ctx.mint.key,
                    amount,
                    deadline,
                    bump,
                    vault_bump,
                    state: EscrowState::Locked,
                },
            );
            ctx.vault = Some(vault);
            Ok(())
        },
    }
}

/// The buyer signed and the record is theirs and of `mint`; the record's
/// address and the custody account's address are recomputed from the record's
/// fields and stored bumps. The second is what lets the custody account
/// authorize the payout.
pub open spec fn buyer_controls(
    buyer: Pubkey,
    buyer_signed: bool,
    mint: Mint,
    escrow_key: Pubkey,
    escrow: Escrow,
    vault_key: Pubkey,
    program_id: Seq<u8>,
) -> bool {
    &&& buyer_signed
    &&& escrow.buyer@ == buyer@
    &&& escrow.mint@ == mint.key@
    &&& derives(escrow_seeds(escrow.buyer@, escrow.seller@, escrow.mint@), program_id, escrow_key@, escrow.bump)
    &&& derives(vault_seeds(escrow_key@), program_id, vault_key@, escrow.vault_bump)
}

fn check_buyer_controls(
    buyer: &Pubkey,
    buyer_signed: bool,
    mint: &Mint,
    escrow_key: &Pubkey,
    escrow: &Escrow,
    vault_key: &Pubkey,
    program_id: &Pubkey,
) -> (r: bool)
    ensures
        r == buyer_controls(*buyer, buyer_signed, *mint, *escrow_key, *escrow, *vault_key, program_id@),
{
    if !buyer_signed || !escrow.buyer.same_as(buyer) || !escrow.mint.same_as(&mint.key) {
        return false;
    }
    let seeds = escrow_seeds_vec(&escrow.buyer, &escrow.seller, &escrow.mint);
    if !check_derives(seeds, program_id, escrow_key, escrow.bump) {
        return false;
    }
    let seeds = vault_seeds_vec(escrow_key);
    check_derives(seeds, program_id, vault_key, escrow.vault_bump)
}

/// The account that receives a payout is of the token type, belongs to
/// `owner`, and is not the custody account itself.
pub open spec fn destination_valid(dest: TokenAccount, owner: Pubkey, mint: Mint, vault_key: Pubkey) -> bool {
    &&& dest.mint@ == mint.key@
    &&& dest.owner@ == owner@
    &&& dest.key@ != vault_key@
}

fn check_destination(dest: &TokenAccount, owner: &Pubkey, mint: &Mint, vault_key: &Pubkey) -> (r: bool)
    ensures
        r == destination_valid(*dest, *owner, *mint, *vault_key),
{
    dest.mint.same_as(&mint.key) && dest.owner.same_as(owner) && !dest.key.same_as(vault_key)
}

/// The one guard of both payouts: only a `Locked` record pays out, all of its
/// amount, from the custody account (its own authority) to `dest`, and then
/// stands at `next`.
pub open spec fn payout_outcome(
    escrow: Escrow,
    vault: TokenAccount,
    dest: TokenAccount,
    mint: Mint,
    next: EscrowState,
) -> Result<(Escrow, TokenAccount, TokenAccount), EscrowError> {
    if escrow.state != EscrowState::Locked {
        Err(EscrowError::NotLocked)
    } else {
        match transfer_outcome(vault, dest, vault.key, mint, escrow.amount, mint.decimals) {
            Err(e) => Err(EscrowError::Token(e)),
            Ok((v, d)) => Ok((Escrow { state: next, ..escrow }, v, d)),
        }
    }
}

fn payout(escrow: Escrow, vault: TokenAccount, dest: TokenAccount, mint: Mint, next: EscrowState) -> (r: Result<(Escrow, TokenAccount, TokenAccount), EscrowError>)
    ensures
        r == payout_outcome(escrow, vault, dest, mint, next),
{
    if escrow.state != EscrowState::Locked {
        return Err(EscrowError::NotLocked);
    }
    match transfer_checked(vault, dest, vault.key, mint, escrow.amount, mint.decimals) {
        Err(e) => Err(EscrowError::Token(e)),
        Ok((v, d)) => Ok((Escrow { state: next, ..escrow }, v, d)),
    }
}

/// What a release does.
pub open spec fn release_outcome(ctx: Release, program_id: Seq<u8>) -> Result<Release, EscrowError> {
    if !buyer_controls(ctx.buyer, ctx.buyer_signed, ctx.mint, ctx.escrow_key, ctx.escrow, ctx.vault.key, program_id)
        || !destination_valid(ctx.seller_token_account, ctx.escrow.seller, ctx.mint, ctx.vault.key) {
        Err(EscrowError::AuthorizationFailed)
    } else {
        match payout_outcome(ctx.escrow, ctx.vault, ctx.seller_token_account, ctx.mint, EscrowState::Released) {
            Err(e) => Err(e),
            Ok((escrow, vault, dest)) => Ok(Release { escrow, vault, seller_token_account: dest, ..ctx }),
        }
    }
}

/// What a cancellation does. The current time plays no part.
pub open spec fn cancel_outcome(ctx: Cancel, program_id: Seq<u8>) -> Result<Cancel, EscrowError> {
    if !buyer_controls(ctx.buyer, ctx.buyer_signed, ctx.mint, ctx.escrow_key, ctx.escrow, ctx.vault.key, program_id)
        || !destination_valid(ctx.buyer_token_account, ctx.buyer, ctx.mint, ctx.vault.key) {
        Err(EscrowError::AuthorizationFailed)
    } else {
        match payout_outcome(ctx.escrow, ctx.vault, ctx.buyer_token_account, ctx.mint, EscrowState::Cancelled) {
            Err(e) => Err(e),
            Ok((escrow, vault, dest)) => Ok(Cancel { escrow, vault, buyer_token_account: dest, ..ctx }),
        }
    }
}

/// Sends the whole amount from custody to the seller and marks the record
/// `Released`.
pub fn release(ctx: &mut Release, program_id: &Pubkey) -> (r: Result<(), EscrowError>)
    ensures
        settled(*old(ctx), *final(ctx), r, release_outcome(*old(ctx), program_id@)),
        r is Err ==> *final(ctx) == *old(ctx),
{
    if !check_buyer_controls(&ctx.buyer, ctx.buyer_signed, &ctx.mint, &ctx.escrow_key, &ctx.escrow, &ctx.vault.key, program_id)
        || !check_destination(&ctx.seller_token_account, &ctx.escrow.seller, &ctx.mint, &ctx.vault.key) {
        return Err(EscrowError::AuthorizationFailed);
    }
    match payout(ctx.escrow, ctx.vault, ctx.seller_token_account, ctx.mint, EscrowState::Released) {
        Err(e) => Err(e),
        Ok((escrow, vault, dest)) => {
            ctx.escrow = escrow;
            ctx.vault = vault;
            ctx.seller_token_account = dest;
            Ok(())
        },
    }
}

/// Sends the whole amount from custody back to the buyer and marks the record
/// `Cancelled`, at any time while it is `Locked`.
pub fn cancel(ctx: &mut Cancel, program_id: &Pubkey) -> (r: Result<(), EscrowError>)
    ensures
        settled(*old(ctx), *final(ctx), r, cancel_outcome(*old(ctx), program_id@)),
        r is Err ==> *final(ctx) == *old(ctx),
{
    if !check_buyer_controls(&ctx.buyer, ctx.buyer_signed, &ctx.mint, &ctx.escrow_key, &ctx.escrow, &ctx.vault.key, program_id)
        || !check_destination(&ctx.buyer_token_account, &ctx.buyer, &ctx.mint, &ctx.vault.key) {
        return Err(EscrowError::AuthorizationFailed);
    }
    match payout(ctx.escrow, ctx.vault, ctx.buyer_token_account, ctx.mint, EscrowState::Cancelled) {
        Err(e) => Err(e),
        Ok((escrow, vault, dest)) => {
            ctx.escrow = escrow;
            ctx.vault = vault;
            ctx.buyer_token_account = dest;
            Ok(())
        },
    }
}

} // verus!
