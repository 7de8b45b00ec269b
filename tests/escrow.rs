use solana_escrow::token::transfer_checked;
use solana_escrow::{
    cancel, escrow_address, initialize, release, vault_address, Cancel, EscrowError, EscrowState,
    Initialize, Mint, Pubkey, Release, TokenAccount, TokenError, MAX_DEADLINE_SECS,
};

const NOW: i64 = 1_700_000_000;

fn key(n: u8) -> Pubkey {
    Pubkey { bytes: [n; 32] }
}

fn program() -> Pubkey {
    key(200)
}

fn usdc() -> Mint {
    Mint { key: key(3), decimals: 6 }
}

fn setup(held: u64) -> Initialize {
    let buyer = key(1);
    let seller = key(2);
    let mint = usdc();
    let (escrow_key, _) = escrow_address(&buyer, &seller, &mint.key, &program()).unwrap();
    let (vault_key, _) = vault_address(&escrow_key, &program()).unwrap();
    Initialize {
        buyer,
        buyer_signed: true,
        seller,
        mint,
        buyer_token_account: TokenAccount { key: key(4), mint: mint.key, owner: buyer, amount: held },
        escrow_key,
        escrow: None,
        vault_key,
        vault: None,
    }
}

fn locked(held: u64, amount: u64, deadline: i64) -> Initialize {
    let mut ctx = setup(held);
    assert_eq!(initialize(&mut ctx, &program(), NOW, amount, deadline), Ok(()));
    ctx
}

fn release_ctx(init: &Initialize) -> Release {
    Release {
        buyer: init.buyer,
        buyer_signed: true,
        mint: init.mint,
        escrow_key: init.escrow_key,
        escrow: init.escrow.unwrap(),
        vault: init.vault.unwrap(),
        seller_token_account: TokenAccount { key: key(5), mint: init.mint.key, owner: init.seller, amount: 0 },
    }
}

fn cancel_ctx(init: &Initialize) -> Cancel {
    Cancel {
        buyer: init.buyer,
        buyer_signed: true,
        mint: init.mint,
        escrow_key: init.escrow_key,
        escrow: init.escrow.unwrap(),
        vault: init.vault.unwrap(),
        buyer_token_account: init.buyer_token_account,
    }
}

#[test]
fn initialize_then_release_then_cancel_fails() {
    let ctx = locked(5000, 1000, NOW + 86400);
    let record = ctx.escrow.unwrap();
    assert_eq!(record.state, EscrowState::Locked);
    assert_eq!(record.amount, 1000);
    assert_eq!(record.deadline, NOW + 86400);
    assert_eq!(record.buyer.bytes, key(1).bytes);
    assert_eq!(record.seller.bytes, key(2).bytes);
    assert_eq!(record.mint.bytes, key(3).bytes);
    assert_eq!(ctx.vault.unwrap().amount, 1000);
    assert_eq!(ctx.buyer_token_account.amount, 4000);

    let mut rel = release_ctx(&ctx);
    assert_eq!(release(&mut rel, &program()), Ok(()));
    assert_eq!(rel.seller_token_account.amount, 1000);
    assert_eq!(rel.vault.amount, 0);
    assert_eq!(rel.escrow.state, EscrowState::Released);

    let mut can = cancel_ctx(&ctx);
    can.escrow = rel.escrow;
    can.vault = rel.vault;
    let before = can.buyer_token_account.amount;
    assert_eq!(cancel(&mut can, &program()), Err(EscrowError::NotLocked));
    assert_eq!(can.buyer_token_account.amount, before);
    assert_eq!(can.escrow.state, EscrowState::Released);
}

#[test]
fn initialize_deadline_beyond_ninety_days() {
    let mut ctx = setup(5000);
    assert_eq!(initialize(&mut ctx, &program(), NOW, 500, NOW + 200_000_000), Err(EscrowError::DeadlineTooFar));
    assert!(ctx.escrow.is_none());
    assert!(ctx.vault.is_none());
    assert_eq!(ctx.buyer_token_account.amount, 5000);
}

#[test]
fn initialize_zero_amount() {
    let mut ctx = setup(5000);
    assert_eq!(initialize(&mut ctx, &program(), NOW, 0, NOW + 3600), Err(EscrowError::InvalidAmount));
    assert!(ctx.escrow.is_none());
    assert_eq!(ctx.buyer_token_account.amount, 5000);
}

#[test]
fn initialize_zero_amount_comes_before_deadline_errors() {
    let mut ctx = setup(5000);
    assert_eq!(initialize(&mut ctx, &program(), NOW, 0, NOW), Err(EscrowError::InvalidAmount));
}

#[test]
fn initialize_deadline_now_is_past() {
    let mut ctx = setup(5000);
    assert_eq!(initialize(&mut ctx, &program(), NOW, 10, NOW), Err(EscrowError::DeadlineInPast));
    assert_eq!(initialize(&mut ctx, &program(), NOW, 10, NOW - 1), Err(EscrowError::DeadlineInPast));
    assert!(ctx.escrow.is_none());
}

#[test]
fn initialize_deadline_horizon_is_inclusive() {
    assert_eq!(MAX_DEADLINE_SECS, 7_776_000);
    let ctx = locked(10, 10, NOW + MAX_DEADLINE_SECS);
    assert_eq!(ctx.escrow.unwrap().deadline, NOW + 7_776_000);
    assert_eq!(ctx.vault.unwrap().amount, 10);
    assert_eq!(ctx.buyer_token_account.amount, 0);

    let mut late = setup(10);
    assert_eq!(
        initialize(&mut late, &program(), NOW, 10, NOW + MAX_DEADLINE_SECS + 1),
        Err(EscrowError::DeadlineTooFar)
    );
}

#[test]
fn initialize_horizon_does_not_overflow() {
    let mut ctx = setup(10);
    assert_eq!(initialize(&mut ctx, &program(), i64::MAX - 5, 10, i64::MAX), Ok(()));
}

#[test]
fn initialize_twice_is_duplicate() {
    let mut ctx = locked(5000, 1000, NOW + 86400);
    let again = ctx;
    assert_eq!(initialize(&mut ctx, &program(), NOW, 1000, NOW + 86400), Err(EscrowError::DuplicateRecord));
    assert_eq!(ctx.buyer_token_account.amount, again.buyer_token_account.amount);
    assert_eq!(ctx.vault.unwrap().amount, 1000);
}

#[test]
fn initialize_needs_buyer_signature() {
    let mut ctx = setup(5000);
    ctx.buyer_signed = false;
    assert_eq!(initialize(&mut ctx, &program(), NOW, 100, NOW + 60), Err(EscrowError::AuthorizationFailed));
}

#[test]
fn initialize_rejects_underived_escrow_address() {
    let mut ctx = setup(5000);
    ctx.escrow_key = key(9);
    assert_eq!(initialize(&mut ctx, &program(), NOW, 100, NOW + 60), Err(EscrowError::AuthorizationFailed));
    let mut other = setup(5000);
    assert_eq!(initialize(&mut other, &key(201), NOW, 100, NOW + 60), Err(EscrowError::AuthorizationFailed));
}

#[test]
fn initialize_rejects_source_of_other_token() {
    let mut ctx = setup(5000);
    ctx.buyer_token_account.mint = key(7);
    assert_eq!(initialize(&mut ctx, &program(), NOW, 100, NOW + 60), Err(EscrowError::AuthorizationFailed));
    let mut ctx = setup(5000);
    ctx.buyer_token_account.owner = key(2);
    assert_eq!(initialize(&mut ctx, &program(), NOW, 100, NOW + 60), Err(EscrowError::AuthorizationFailed));
}

#[test]
fn initialize_insufficient_funds() {
    let mut ctx = setup(99);
    assert_eq!(
        initialize(&mut ctx, &program(), NOW, 100, NOW + 60),
        Err(EscrowError::Token(TokenError::InsufficientFunds))
    );
    assert!(ctx.escrow.is_none());
    assert_eq!(ctx.buyer_token_account.amount, 99);
}

#[test]
fn initialize_records_canonical_bumps() {
    let ctx = locked(100, 100, NOW + 60);
    let (escrow_key, bump) = escrow_address(&key(1), &key(2), &key(3), &program()).unwrap();
    let (vault_key, vault_bump) = vault_address(&escrow_key, &program()).unwrap();
    let record = ctx.escrow.unwrap();
    assert_eq!(record.bump, bump);
    assert_eq!(record.vault_bump, vault_bump);
    assert_eq!(ctx.vault.unwrap().key.bytes, vault_key.bytes);
    assert_eq!(ctx.vault.unwrap().owner.bytes, vault_key.bytes);
}

#[test]
fn addresses_derive_from_the_agreement() {
    let (a, _) = escrow_address(&key(1), &key(2), &key(3), &program()).unwrap();
    let (b, _) = escrow_address(&key(1), &key(2), &key(3), &program()).unwrap();
    let (c, _) = escrow_address(&key(1), &key(6), &key(3), &program()).unwrap();
    let (v, _) = vault_address(&a, &program()).unwrap();
    assert_eq!(a.bytes, b.bytes);
    assert_ne!(a.bytes, c.bytes);
    assert_ne!(a.bytes, v.bytes);
    assert_ne!(a.bytes, key(1).bytes);
    assert_ne!(v.bytes, a.bytes);
    assert_ne!(v.bytes, program().bytes);
}

#[test]
fn cancel_returns_funds_after_deadline() {
    let ctx = locked(1000, 600, NOW + 60);
    let mut can = cancel_ctx(&ctx);
    assert!(can.escrow.deadline < NOW + 1_000_000);
    assert_eq!(cancel(&mut can, &program()), Ok(()));
    assert_eq!(can.buyer_token_account.amount, 1000);
    assert_eq!(can.vault.amount, 0);
    assert_eq!(can.escrow.state, EscrowState::Cancelled);
}

#[test]
fn cancel_twice_moves_funds_once() {
    let ctx = locked(1000, 600, NOW + 60);
    let mut can = cancel_ctx(&ctx);
    assert_eq!(cancel(&mut can, &program()), Ok(()));
    assert_eq!(cancel(&mut can, &program()), Err(EscrowError::NotLocked));
    assert_eq!(can.buyer_token_account.amount, 1000);
    assert_eq!(can.vault.amount, 0);
    assert_eq!(can.escrow.state, EscrowState::Cancelled);
}

#[test]
fn release_twice_moves_funds_once() {
    let ctx = locked(1000, 600, NOW + 60);
    let mut rel = release_ctx(&ctx);
    assert_eq!(release(&mut rel, &program()), Ok(()));
    assert_eq!(release(&mut rel, &program()), Err(EscrowError::NotLocked));
    assert_eq!(rel.seller_token_account.amount, 600);
    assert_eq!(rel.vault.amount, 0);
    assert_eq!(rel.escrow.state, EscrowState::Released);
}

#[test]
fn release_after_cancel_fails() {
    let ctx = locked(1000, 600, NOW + 60);
    let mut can = cancel_ctx(&ctx);
    assert_eq!(cancel(&mut can, &program()), Ok(()));
    let mut rel = release_ctx(&ctx);
    rel.escrow = can.escrow;
    rel.vault = can.vault;
    assert_eq!(release(&mut rel, &program()), Err(EscrowError::NotLocked));
    assert_eq!(rel.seller_token_account.amount, 0);
}

#[test]
fn release_needs_the_buyer() {
    let ctx = locked(1000, 600, NOW + 60);
    let mut rel = release_ctx(&ctx);
    rel.buyer_signed = false;
    assert_eq!(release(&mut rel, &program()), Err(EscrowError::AuthorizationFailed));
    let mut rel = release_ctx(&ctx);
    rel.buyer = key(2);
    assert_eq!(release(&mut rel, &program()), Err(EscrowError::AuthorizationFailed));
    assert_eq!(rel.vault.amount, 600);
}

#[test]
fn release_rejects_foreign_destination() {
    let ctx = locked(1000, 600, NOW + 60);
    let mut rel = release_ctx(&ctx);
    rel.seller_token_account.owner = key(8);
    assert_eq!(release(&mut rel, &program()), Err(EscrowError::AuthorizationFailed));
    let mut rel = release_ctx(&ctx);
    rel.seller_token_account.mint = key(8);
    assert_eq!(release(&mut rel, &program()), Err(EscrowError::AuthorizationFailed));
    let mut rel = release_ctx(&ctx);
    rel.mint = Mint { key: key(8), decimals: 6 };
    assert_eq!(release(&mut rel, &program()), Err(EscrowError::AuthorizationFailed));
}

#[test]
fn release_rejects_wrong_vault_or_bump() {
    let ctx = locked(1000, 600, NOW + 60);
    let mut rel = release_ctx(&ctx);
    rel.vault.key = key(9);
    assert_eq!(release(&mut rel, &program()), Err(EscrowError::AuthorizationFailed));
    let mut rel = release_ctx(&ctx);
    rel.escrow.vault_bump = rel.escrow.vault_bump.wrapping_sub(1);
    assert_eq!(release(&mut rel, &program()), Err(EscrowError::AuthorizationFailed));
    let mut rel = release_ctx(&ctx);
    rel.escrow_key = key(9);
    assert_eq!(release(&mut rel, &program()), Err(EscrowError::AuthorizationFailed));
}

#[test]
fn release_from_empty_custody_fails() {
    let ctx = locked(1000, 600, NOW + 60);
    let mut rel = release_ctx(&ctx);
    rel.vault.amount = 0;
    assert_eq!(release(&mut rel, &program()), Err(EscrowError::Token(TokenError::InsufficientFunds)));
    assert_eq!(rel.escrow.state, EscrowState::Locked);
}

#[test]
fn transfer_checks_mint_owner_and_room() {
    let mint = usdc();
    let from = TokenAccount { key: key(10), mint: mint.key, owner: key(1), amount: 50 };
    let to = TokenAccount { key: key(11), mint: mint.key, owner: key(2), amount: u64::MAX - 10 };
    assert_eq!(transfer_checked(from, to, key(1), mint, 20, 6).err(), Some(TokenError::Overflow));
    assert_eq!(transfer_checked(from, to, key(2), mint, 5, 6).err(), Some(TokenError::OwnerMismatch));
    assert_eq!(transfer_checked(from, to, key(1), mint, 5, 9).err(), Some(TokenError::MintMismatch));
    let (f, t) = transfer_checked(from, to, key(1), mint, 10, 6).unwrap();
    assert_eq!(f.amount, 40);
    assert_eq!(t.amount, u64::MAX);
}
