//! The vault record, the accounts each instruction receives, and the
//! instruction handlers.
use vstd::prelude::*;
use vstd::string::*;
use crate::address::{Pubkey, canonical_bump, check_vault_address, find_vault_address, is_vault_address};

verus! {

/// The vault's stored record.
#[derive(Clone, Copy, Debug)]
pub struct Vault {
    /// The only identity that may withdraw.
    pub authority: Pubkey,
    /// The bump that derives the vault's address from its seed label.
    pub bump: u8,
}

/// Why an instruction was refused.
#[derive(Clone, Copy, Debug, PartialEq, Eq, Structural)]
pub enum ErrorCode {
    /// The amount is zero.
    InvalidAmount,
    /// The destination address starts with neither `z` nor `u1`.
    InvalidZAddress,
    /// The vault holds less than the amount asked for.
    InsufficientFunds,
    /// The signer is not the vault's authority.
    AuthorityMismatch,
    /// The vault account given is not the one its seeds and bump derive.
    AccountDerivationMismatch,
    /// The vault account exists already.
    AccountAlreadyInitialized,
}

/// The record of a deposit, for the indexers that route it on.
#[derive(Debug)]
pub struct DepositEvent {
    pub user_pubkey: Pubkey,
    pub asset: String,
    pub amount: u64,
    pub z_address: String,
    pub deposit_id: String,
    pub timestamp: i64,
}

/// A move of `amount` units from `from` to `to`, approved by `authority`.
/// Where `signer_bump` is `Some(b)`, the authority is the vault itself and the
/// program signs for it with the seeds `["vault", [b]]`.
#[derive(Clone, Copy, Debug)]
pub struct Transfer {
    pub from: Pubkey,
    pub to: Pubkey,
    pub authority: Pubkey,
    pub amount: u64,
    pub signer_bump: Option<u8>,
}

/// The accounts of `initialize`; `vault` is `None` while the vault account
/// does not exist.
#[derive(Clone, Copy, Debug)]
pub struct Initialize {
    pub program_id: Pubkey,
    pub vault_key: Pubkey,
    pub vault: Option<Vault>,
    pub authority: Pubkey,
}

/// The accounts of `deposit_sol`.
#[derive(Clone, Copy, Debug)]
pub struct DepositSol {
    pub program_id: Pubkey,
    pub vault_key: Pubkey,
    pub vault: Vault,
    pub user: Pubkey,
}

/// The accounts of `deposit_usdc`.
#[derive(Clone, Copy, Debug)]
pub struct DepositUsdc {
    pub program_id: Pubkey,
    pub vault_key: Pubkey,
    pub vault: Vault,
    pub user: Pubkey,
    pub user_token_account: Pubkey,
    pub vault_token_account: Pubkey,
}

/// The accounts of `admin_withdraw_sol`, with their native balances.
#[derive(Clone, Copy, Debug)]
pub struct AdminWithdraw {
    pub program_id: Pubkey,
    pub vault_key: Pubkey,
    pub vault: Vault,
    pub authority: Pubkey,
    pub vault_lamports: u64,
    pub authority_lamports: u64,
}

/// The accounts of `admin_withdraw_usdc`.
#[derive(Clone, Copy, Debug)]
pub struct AdminWithdrawToken {
    pub program_id: Pubkey,
    pub vault_key: Pubkey,
    pub vault: Vault,
    pub authority: Pubkey,
    pub vault_token_account: Pubkey,
    pub authority_token_account: Pubkey,
}

/// A destination accepted for a deposit: it starts with `z` or with `u1`.
pub open spec fn valid_z_address(s: Seq<char>) -> bool {
    seq!['z'].is_prefix_of(s) || seq!['u', '1'].is_prefix_of(s)
}

/// The outcome of `initialize`: the record it creates, or why it refuses.
pub open spec fn initialize_spec(ctx: Initialize) -> Result<Vault, ErrorCode> {
    match canonical_bump(ctx.program_id@) {
        None => Err(ErrorCode::AccountDerivationMismatch),
        Some(b) => if !is_vault_address(ctx.program_id@, b, ctx.vault_key@) {
            Err(ErrorCode::AccountDerivationMismatch)
        } else if ctx.vault is Some {
            Err(ErrorCode::AccountAlreadyInitialized)
        } else {
            Ok(Vault { authority: ctx.authority, bump: b })
        },
    }
}

/// The accounts after `initialize`: the new record where it succeeds, the
/// accounts as they were where it fails.
pub open spec fn after_initialize(ctx: Initialize) -> Initialize {
    match initialize_spec(ctx) {
        Ok(v) => Initialize { vault: Some(v), ..ctx },
        Err(_) => ctx,
    }
}

/// The check shared by both deposits: the vault account, then the amount,
/// then the destination address.
pub open spec fn deposit_error(vault_ok: bool, amount: u64, z_address: Seq<char>) -> Option<
    ErrorCode,
> {
    if !vault_ok {
        Some(ErrorCode::AccountDerivationMismatch)
    } else if amount == 0 {
        Some(ErrorCode::InvalidAmount)
    } else if !valid_z_address(z_address) {
        Some(ErrorCode::InvalidZAddress)
    } else {
        None
    }
}

/// The check shared by both withdrawals: the vault account, the authority,
/// then the amount.
pub open spec fn withdraw_error(
    program_id: Pubkey,
    vault_key: Pubkey,
    vault: Vault,
    authority: Pubkey,
    amount: u64,
) -> Option<ErrorCode> {
    if !is_vault_address(program_id@, vault.bump, vault_key@) {
        Some(ErrorCode::AccountDerivationMismatch)
    } else if vault.authority@ != authority@ {
        Some(ErrorCode::AuthorityMismatch)
    } else if amount == 0 {
        Some(ErrorCode::InvalidAmount)
    } else {
        None
    }
}

/// The outcome of `admin_withdraw_sol`.
pub open spec fn withdraw_sol_error(ctx: AdminWithdraw, amount: u64) -> Option<ErrorCode> {
    match withdraw_error(ctx.program_id, ctx.vault_key, ctx.vault, ctx.authority, amount) {
        Some(e) => Some(e),
        None => if ctx.vault_lamports < amount {
            Some(ErrorCode::InsufficientFunds)
        } else {
            None
        },
    }
}

/// The accounts after `admin_withdraw_sol`: `amount` lamports moved from the
/// vault to the authority where it succeeds, nothing changed where it fails.
pub open spec fn after_withdraw_sol(ctx: AdminWithdraw, amount: u64) -> AdminWithdraw {
    match withdraw_sol_error(ctx, amount) {
        Some(_) => ctx,
        None => AdminWithdraw {
            vault_lamports: (ctx.vault_lamports - amount) as u64,
            authority_lamports: (ctx.authority_lamports + amount) as u64,
            ..ctx
        },
    }
}

/// Whether `z_address` starts with `z` or with `u1`.
pub fn is_valid_z_address(z_address: &str) -> (r: bool)
    ensures
        r == valid_z_address(z_address@),
{
    let n = z_address.unicode_len();
    if n >= 1 && z_address.get_char(0) == 'z' {
        assert(z_address@.subrange(0, 1) =~= seq!['z']);
        return true;
    }
    if n >= 2 && z_address.get_char(0) == 'u' && z_address.get_char(1) == '1' {
        assert(z_address@.subrange(0, 2) =~= seq!['u', '1']);
        return true;
    }
    proof {
        if seq!['z'].is_prefix_of(z_address@) {
            assert(z_address@[0] == seq!['z'][0]);
        }
        if seq!['u', '1'].is_prefix_of(z_address@) {
            assert(z_address@[0] == seq!['u', '1'][0]);
            assert(z_address@[1] == seq!['u', '1'][1]);
        }
    }
    false
}

/// Creates the vault record at the canonical vault address, with the signer
/// as its authority.
pub fn initialize(ctx: &mut Initialize) -> (r: Result<(), ErrorCode>)
    ensures
        *final(ctx) == after_initialize(*old(ctx)),
        r is Ok <==> initialize_spec(*old(ctx)) is Ok,
        r matches Err(e) ==> initialize_spec(*old(ctx)) == Err::<Vault, ErrorCode>(e),
{
    let (key, bump) = match find_vault_address(&ctx.program_id) {
        Some(found) => found,
        None => return Err(ErrorCode::AccountDerivationMismatch),
    };
    if !key.key_eq(&ctx.vault_key) {
        return Err(ErrorCode::AccountDerivationMismatch);
    }
    if ctx.vault.is_some() {
        return Err(ErrorCode::AccountAlreadyInitialized);
    }
    ctx.vault = Some(Vault { authority: ctx.authority, bump });
    Ok(())
}

/// The event of a successful deposit.
pub open spec fn deposit_event_matches(
    ev: DepositEvent,
    user: Pubkey,
    asset: Seq<char>,
    amount: u64,
    z_address: Seq<char>,
    deposit_id: Seq<char>,
    timestamp: i64,
) -> bool {
    &&& ev.user_pubkey == user
    &&& ev.asset@ == asset
    &&& ev.amount == amount
    &&& ev.z_address@ == z_address
    &&& ev.deposit_id@ == deposit_id
    &&& ev.timestamp == timestamp
}

/// Checks a deposit: the vault account, then the amount, then the
/// destination address.
fn check_deposit(
    program_id: &Pubkey,
    vault_key: &Pubkey,
    vault: &Vault,
    amount: u64,
    z_address: &String,
) -> (r: Option<ErrorCode>)
    ensures
        r == deposit_error(
            is_vault_address(program_id@, vault.bump, vault_key@),
            amount,
            z_address@,
        ),
{
    if !check_vault_address(program_id, vault.bump, vault_key) {
        return Some(ErrorCode::AccountDerivationMismatch);
    }
    if amount == 0 {
        return Some(ErrorCode::InvalidAmount);
    }
    if !is_valid_z_address(z_address.as_str()) {
        return Some(ErrorCode::InvalidZAddress);
    }
    None
}

/// Checks a withdrawal: the vault account, the authority, then the amount.
fn check_withdraw(
    program_id: &Pubkey,
    vault_key: &Pubkey,
    vault: &Vault,
    authority: &Pubkey,
    amount: u64,
) -> (r: Option<ErrorCode>)
    ensures
        r == withdraw_error(*program_id, *vault_key, *vault, *authority, amount),
{
    if !check_vault_address(program_id, vault.bump, vault_key) {
        return Some(ErrorCode::AccountDerivationMismatch);
    }
    if !vault.authority.key_eq(authority) {
        return Some(ErrorCode::AuthorityMismatch);
    }
    if amount == 0 {
        return Some(ErrorCode::InvalidAmount);
    }
    None
}

/// Accepts a deposit of native coin. On success it returns the transfer of
/// `amount` lamports from the user to the vault, to be made by the system
/// program, and the event to record with it.
pub fn deposit_sol(
    ctx: &DepositSol,
    amount: u64,
    deposit_id: String,
    z_address: String,
    timestamp: i64,
) -> (r: Result<(Transfer, DepositEvent), ErrorCode>)
    ensures
        match deposit_error(
            is_vault_address(ctx.program_id@, ctx.vault.bump, ctx.vault_key@),
            amount,
            z_address@,
        ) {
            Some(e) => r matches Err(x) && x == e,
            None => r matches Ok((t, ev)) && t == (Transfer {
                from: ctx.user,
                to: ctx.vault_key,
                authority: ctx.user,
                amount,
                signer_bump: None,
            }) && deposit_event_matches(
                ev,
                ctx.user,
                "SOL"@,
                amount,
                z_address@,
                deposit_id@,
                timestamp,
            ),
        },
{
    if let Some(e) = check_deposit(&ctx.program_id, &ctx.vault_key, &ctx.vault, amount, &z_address) {
        return Err(e);
    }
    let transfer = Transfer {
        from: ctx.user,
        to: ctx.vault_key,
        authority: ctx.user,
        amount,
        signer_bump: None,
    };
    let event = DepositEvent {
        user_pubkey: ctx.user,
        asset: String::from_str("SOL"),
        amount,
        z_address,
        deposit_id,
        timestamp,
    };
    Ok((transfer, event))
}

/// Accepts a deposit of tokens. On success it returns the transfer of
/// `amount` tokens from the user's token account to the vault's, approved by
/// the user, and the event to record with it.
pub fn deposit_usdc(
    ctx: &DepositUsdc,
    amount: u64,
    deposit_id: String,
    z_address: String,
    timestamp: i64,
) -> (r: Result<(Transfer, DepositEvent), ErrorCode>)
    ensures
        match deposit_error(
            is_vault_address(ctx.program_id@, ctx.vault.bump, ctx.vault_key@),
            amount,
            z_address@,
        ) {
            Some(e) => r matches Err(x) && x == e,
            None => r matches Ok((t, ev)) && t == (Transfer {
                from: ctx.user_token_account,
                to: ctx.vault_token_account,
                authority: ctx.user,
                amount,
                signer_bump: None,
            }) && deposit_event_matches(
                ev,
                ctx.user,
                "USDC"@,
                amount,
                z_address@,
                deposit_id@,
                timestamp,
            ),
        },
{
    if let Some(e) = check_deposit(&ctx.program_id, &ctx.vault_key, &ctx.vault, amount, &z_address) {
        return Err(e);
    }
    let transfer = Transfer {
        from: ctx.user_token_account,
        to: ctx.vault_token_account,
        authority: ctx.user,
        amount,
        signer_bump: None,
    };
    let event = DepositEvent {
        user_pubkey: ctx.user,
        asset: String::from_str("USDC"),
        amount,
        z_address,
        deposit_id,
        timestamp,
    };
    Ok((transfer, event))
}

/// Moves `amount` lamports from the vault to its authority, where the signer
/// is the authority and the vault holds enough.
pub fn admin_withdraw_sol(ctx: &mut AdminWithdraw, amount: u64) -> (r: Result<(), ErrorCode>)
    requires
        old(ctx).vault_lamports + old(ctx).authority_lamports <= u64::MAX,
    ensures
        *final(ctx) == after_withdraw_sol(*old(ctx), amount),
        match withdraw_sol_error(*old(ctx), amount) {
            Some(e) => r == Err::<(), ErrorCode>(e),
            None => r is Ok,
        },
{
    if let Some(e) = check_withdraw(&ctx.program_id, &ctx.vault_key, &ctx.vault, &ctx.authority, amount) {
        return Err(e);
    }
    if ctx.vault_lamports < amount {
        return Err(ErrorCode::InsufficientFunds);
    }
    ctx.vault_lamports = ctx.vault_lamports - amount;
    ctx.authority_lamports = ctx.authority_lamports + amount;
    Ok(())
}

/// Approves a move of `amount` tokens from the vault's token account to the
/// authority's, signed by the program for the vault; the token program
/// refuses it where the vault holds too few.
pub fn admin_withdraw_usdc(ctx: &AdminWithdrawToken, amount: u64) -> (r: Result<Transfer, ErrorCode>)
    ensures
        match withdraw_error(ctx.program_id, ctx.vault_key, ctx.vault, ctx.authority, amount) {
            Some(e) => r == Err::<Transfer, ErrorCode>(e),
            None => r == Ok::<Transfer, ErrorCode>(
                Transfer {
                    from: ctx.vault_token_account,
                    to: ctx.authority_token_account,
                    authority: ctx.vault_key,
                    amount,
                    signer_bump: Some(ctx.vault.bump),
                },
            ),
        },
{
    if let Some(e) = check_withdraw(&ctx.program_id, &ctx.vault_key, &ctx.vault, &ctx.authority, amount) {
        return Err(e);
    }
    Ok(
        Transfer {
            from: ctx.vault_token_account,
            to: ctx.authority_token_account,
            authority: ctx.vault_key,
            amount,
            signer_bump: Some(ctx.vault.bump),
        },
    )
}

} // verus!
