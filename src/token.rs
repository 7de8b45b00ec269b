//! Token accounts, and what a checked transfer does to them.
//!
//! The escrow operations compute the accounts that they touch as they stand
//! after the operation; the transfer itself is carried out by the token
//! program, which refuses it in the cases that `transfer_outcome` lists.
use vstd::prelude::*;
use crate::pda::Pubkey;

verus! {

/// A token type: its key and the number of decimals of its amounts.
#[derive(Clone, Copy, Debug)]
pub struct Mint {
    pub key: Pubkey,
    pub decimals: u8,
}

/// A balance of one token type, held for an owner.
#[derive(Clone, Copy, Debug)]
pub struct TokenAccount {
    pub key: Pubkey,
    pub mint: Pubkey,
    pub owner: Pubkey,
    pub amount: u64,
}

/// Why a transfer is refused.
#[derive(Clone, Copy, Debug, PartialEq, Eq, Structural)]
pub enum TokenError {
    /// An account is of another token type, or the decimals differ.
    MintMismatch,
    /// The authority does not own the source account.
    OwnerMismatch,
    /// The source holds less than the amount.
    InsufficientFunds,
    /// The destination's balance would exceed `u64::MAX`.
    Overflow,
}

/// The two accounts after `amount` units move from `from` to `to` under
/// `authority`, or why the move is refused.
pub open spec fn transfer_outcome(
    from: TokenAccount,
    to: TokenAccount,
    authority: Pubkey,
    mint: Mint,
    amount: u64,
    decimals: u8,
) -> Result<(TokenAccount, TokenAccount), TokenError> {
    if from.mint@ != mint.key@ || to.mint@ != mint.key@ || decimals != mint.decimals {
        Err(TokenError::MintMismatch)
    } else if from.owner@ != authority@ {
        Err(TokenError::OwnerMismatch)
    } else if from.amount < amount {
        Err(TokenError::InsufficientFunds)
    } else if to.amount + amount > u64::MAX {
        Err(TokenError::Overflow)
    } else {
        Ok((
            TokenAccount { amount: (from.amount - amount) as u64, ..from },
            TokenAccount { amount: (to.amount + amount) as u64, ..to },
        ))
    }
}

/// The two accounts after exactly `amount` units of `mint` move from `from`
/// to `to`, or why the move is refused. The accounts are taken to be distinct.
pub fn transfer_checked(
    from: TokenAccount,
    to: TokenAccount,
    authority: Pubkey,
    mint: Mint,
    amount: u64,
    decimals: u8,
) -> (r: Result<(TokenAccount, TokenAccount), TokenError>)
    ensures
        r == transfer_outcome(from, to, authority, mint, amount, decimals),
{
    if !from.mint.same_as(&mint.key) || !to.mint.same_as(&mint.key) || decimals != mint.decimals {
        return Err(TokenError::MintMismatch);
    }
    if !from.owner.same_as(&authority) {
        return Err(TokenError::OwnerMismatch);
    }
    if from.amount < amount {
        return Err(TokenError::InsufficientFunds);
    }
    if to.amount > u64::MAX - amount {
        return Err(TokenError::Overflow);
    }
    Ok((
        TokenAccount { amount: from.amount - amount, ..from },
        TokenAccount { amount: to.amount + amount, ..to },
    ))
}

} // verus!
