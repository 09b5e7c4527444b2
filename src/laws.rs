//! What holds of the vault across instructions.
use vstd::prelude::*;
use crate::address::Pubkey;
use crate::vault::{
    AdminWithdraw, ErrorCode, Initialize, Vault, after_initialize, after_withdraw_sol,
    initialize_spec, withdraw_sol_error,
};

verus! {

/// An instruction as it reaches the program, without the stored vault record,
/// which the runtime supplies. The deposits and the token withdrawal take the
/// record by shared reference, so they need no more here.
pub enum Call {
    Initialize { program_id: Pubkey, vault_key: Pubkey, authority: Pubkey },
    DepositSol,
    DepositUsdc,
    WithdrawSol {
        program_id: Pubkey,
        vault_key: Pubkey,
        authority: Pubkey,
        vault_lamports: u64,
        authority_lamports: u64,
        amount: u64,
    },
    WithdrawUsdc,
}

/// The stored record after one instruction.
pub open spec fn stored_after(slot: Option<Vault>, call: Call) -> Option<Vault> {
    match call {
        Call::Initialize { program_id, vault_key, authority } => after_initialize(
            Initialize { program_id, vault_key, vault: slot, authority },
        ).vault,
        Call::WithdrawSol {
            program_id,
            vault_key,
            authority,
            vault_lamports,
            authority_lamports,
            amount,
        } => match slot {
            Some(v) => Some(
                after_withdraw_sol(
                    AdminWithdraw {
                        program_id,
                        vault_key,
                        vault: v,
                        authority,
                        vault_lamports,
                        authority_lamports,
                    },
                    amount,
                ).vault,
            ),
            None => None,
        },
        _ => slot,
    }
}

/// The stored record after a sequence of instructions.
pub open spec fn stored_after_all(slot: Option<Vault>, calls: Seq<Call>) -> Option<Vault>
    decreases calls.len(),
{
    if calls.len() == 0 {
        slot
    } else {
        stored_after_all(stored_after(slot, calls[0]), calls.drop_first())
    }
}

/// Once the vault is initialized, a second `initialize`, whoever signs it,
/// fails with `AccountAlreadyInitialized` and leaves the record, its
/// authority and its bump, as they were.
pub proof fn lemma_initialize_once(ctx: Initialize, second_authority: Pubkey)
    requires
        initialize_spec(ctx) is Ok,
    ensures
        after_initialize(ctx).vault == Some(initialize_spec(ctx)->Ok_0),
        initialize_spec(Initialize { authority: second_authority, ..after_initialize(ctx) })
            == Err::<Vault, ErrorCode>(ErrorCode::AccountAlreadyInitialized),
        after_initialize(Initialize { authority: second_authority, ..after_initialize(ctx) })
            == (Initialize { authority: second_authority, ..after_initialize(ctx) }),
{
}

/// No instruction changes a stored record: whatever sequence follows, the
/// record is the one it was.
pub proof fn lemma_record_kept(v: Vault, calls: Seq<Call>)
    ensures
        stored_after_all(Some(v), calls) == Some(v),
    decreases calls.len(),
{
    if calls.len() > 0 {
        assert(stored_after(Some(v), calls[0]) == Some(v));
        lemma_record_kept(v, calls.drop_first());
    }
}

/// The authority set by `initialize` is the authority after any sequence of
/// instructions that follows.
pub proof fn lemma_authority_fixed(ctx: Initialize, calls: Seq<Call>)
    requires
        initialize_spec(ctx) is Ok,
    ensures
        stored_after_all(after_initialize(ctx).vault, calls) matches Some(v)
            && v.authority == ctx.authority,
{
    lemma_record_kept(initialize_spec(ctx)->Ok_0, calls);
}

/// A successful native withdrawal takes from the vault exactly what it gives
/// the authority, and that is the amount asked for.
pub proof fn lemma_withdraw_conserves(ctx: AdminWithdraw, amount: u64)
    requires
        ctx.vault_lamports + ctx.authority_lamports <= u64::MAX,
        withdraw_sol_error(ctx, amount) is None,
    ensures
        ctx.vault_lamports - after_withdraw_sol(ctx, amount).vault_lamports == amount,
        after_withdraw_sol(ctx, amount).authority_lamports - ctx.authority_lamports == amount,
        after_withdraw_sol(ctx, amount).vault_lamports + after_withdraw_sol(
            ctx,
            amount,
        ).authority_lamports == ctx.vault_lamports + ctx.authority_lamports,
{
}

} // verus!
