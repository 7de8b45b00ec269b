//! Custodial escrow between a buyer and a seller over a fungible token.
//!
//! A buyer locks an amount of a token in a custody account whose address is
//! derived from the escrow record; the record then moves once, to `Released`
//! (funds go to the seller) or to `Cancelled` (funds go back to the buyer).

pub mod pda;
pub mod token;
pub mod escrow;
pub mod laws;

pub use escrow::{
    cancel, escrow_address, initialize, release, vault_address, Cancel, Escrow, EscrowError,
    EscrowState, Initialize, Release, MAX_DEADLINE_SECS,
};
pub use pda::Pubkey;
pub use token::{Mint, TokenAccount, TokenError};
