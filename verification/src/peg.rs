//! What holds of the ledger across transitions: the peg and the supply
//! ceiling survive every deposit and burn, a transition that fails in any of
//! its parts leaves the ledger as it was, and no transition after the first
//! touches the identities that the ledger was initialized with.

use vstd::prelude::*;
use crate::identity::Identity;
use crate::instructions::{
    burn_error, burn_transaction, deposit_error, deposit_transaction, initialized_state,
    state_after_burn, state_after_deposit, vault_is_authentic, BurnAndWithdraw, DepositAndMint,
    Initialize, TokenOutcome, Transaction,
};
use crate::state::ProgramState;

verus! {

/// Whether `post` is the ledger that a successful deposit makes of `pre`.
pub open spec fn is_deposit(pre: ProgramState, post: ProgramState) -> bool {
    exists|ctx: DepositAndMint, program_id: Identity, amount: u64|
        {
            &&& ctx.program_state == pre
            &&& (#[trigger] deposit_error(ctx, program_id, amount)) is None
            &&& post == state_after_deposit(pre, amount)
        }
}

/// Whether `post` is the ledger that a successful burn makes of `pre`.
pub open spec fn is_burn(pre: ProgramState, post: ProgramState) -> bool {
    exists|ctx: BurnAndWithdraw, program_id: Identity, amount: u64|
        {
            &&& ctx.program_state == pre
            &&& (#[trigger] burn_error(ctx, program_id, amount)) is None
            &&& post == state_after_burn(pre, amount)
        }
}

/// Whether each ledger of the sequence but the first comes from the one
/// before it by a successful deposit or a successful burn.
pub open spec fn is_history(ledgers: Seq<ProgramState>) -> bool {
    forall|i: int|
        0 <= i < ledgers.len() - 1 ==> is_deposit(#[trigger] ledgers[i], ledgers[i + 1]) || is_burn(
            ledgers[i],
            ledgers[i + 1],
        )
}

/// The ledger that `initialize` writes is sound: both counters are zero, so
/// the peg holds and the supply is within its ceiling.
pub proof fn initialized_ledger_is_sound(ctx: Initialize, program_id: Identity, usdc_mint_key: Identity)
    ensures
        initialized_state(ctx, program_id, usdc_mint_key).is_sound(),
        initialized_state(ctx, program_id, usdc_mint_key).is_initialized,
{
}

/// A deposit that is accepted stages a ledger on which the peg holds if it
/// held before, and whose supply is within the ceiling whatever held before.
pub proof fn deposit_keeps_peg(ctx: DepositAndMint, program_id: Identity, amount: u64)
    requires
        deposit_error(ctx, program_id, amount) is None,
    ensures
        ctx.program_state.peg() ==> deposit_transaction(ctx, amount).staged.peg(),
        deposit_transaction(ctx, amount).staged.total_usdv_supply
            <= crate::constants::MAX_TOTAL_SUPPLY,
        deposit_transaction(ctx, amount).staged.total_usdv_supply == ctx.program_state.total_usdv_supply
            + amount,
        deposit_transaction(ctx, amount).staged.total_usdc_deposits
            == ctx.program_state.total_usdc_deposits + amount,
{
}

/// A burn that is accepted stages a ledger on which the peg holds if it held
/// before, and whose supply is no larger than before.
pub proof fn burn_keeps_peg(ctx: BurnAndWithdraw, program_id: Identity, amount: u64)
    requires
        burn_error(ctx, program_id, amount) is None,
    ensures
        ctx.program_state.peg() ==> burn_transaction(ctx, amount).staged.peg(),
        burn_transaction(ctx, amount).staged.total_usdv_supply == ctx.program_state.total_usdv_supply
            - amount,
        burn_transaction(ctx, amount).staged.total_usdc_deposits
            == ctx.program_state.total_usdc_deposits - amount,
{
}

/// The peg is an invariant: in every sequence of successful deposits and
/// burns that starts from a ledger with both counters at zero, as much USDv
/// is in circulation as USDC is held after every operation, and the supply
/// stays within its ceiling.
pub proof fn peg_holds_throughout(ledgers: Seq<ProgramState>, at: int)
    requires
        0 <= at < ledgers.len(),
        ledgers[0].total_usdv_supply == 0,
        ledgers[0].total_usdc_deposits == 0,
        is_history(ledgers),
    ensures
        ledgers[at].is_sound(),
    decreases at,
{
    if at > 0 {
        peg_holds_throughout(ledgers, at - 1);
        let pre = ledgers[at - 1];
        let post = ledgers[at];
        assert(is_deposit(pre, ledgers[at - 1 + 1]) || is_burn(pre, ledgers[at - 1 + 1]));
        if is_deposit(pre, post) {
            let (ctx, program_id, amount) = choose|
                ctx: DepositAndMint,
                program_id: Identity,
                amount: u64,
            |
                ctx.program_state == pre && (#[trigger] deposit_error(ctx, program_id, amount))
                    is None && post == state_after_deposit(pre, amount);
            deposit_keeps_peg(ctx, program_id, amount);
        } else {
            let (ctx, program_id, amount) = choose|
                ctx: BurnAndWithdraw,
                program_id: Identity,
                amount: u64,
            |
                ctx.program_state == pre && (#[trigger] burn_error(ctx, program_id, amount))
                    is None && post == state_after_burn(pre, amount);
            burn_keeps_peg(ctx, program_id, amount);
        }
    }
}

/// A transition is all or nothing: of a transaction that starts afresh, the
/// ledger takes on the staged state when both token instructions succeed,
/// and stays as it was when either of them fails.
pub proof fn transaction_is_atomic(
    transaction: Transaction,
    state: ProgramState,
    first: TokenOutcome,
    second: TokenOutcome,
)
    requires
        transaction.stage is AwaitingFirst,
    ensures
        first is Succeeded && second is Succeeded ==> transaction.spec_advance(first).spec_advance(
            second,
        ).settled(state) == transaction.staged,
        first is Failed || second is Failed ==> transaction.spec_advance(first).spec_advance(
            second,
        ).settled(state) == state,
        first is Failed ==> transaction.spec_advance(first).stage is Aborted,
        first is Succeeded && second is Failed ==> transaction.spec_advance(first).spec_advance(
            second,
        ).stage is Aborted,
{
}

/// A transaction that is aborted or committed stays so, whatever is reported
/// to it afterwards.
pub proof fn finished_transaction_stays(transaction: Transaction, outcome: TokenOutcome)
    requires
        transaction.stage is Aborted || transaction.stage is Committed,
    ensures
        transaction.spec_advance(outcome) == transaction,
{
}

/// A deposit and a burn change the two counters and nothing else: the admin,
/// the mints, the vault authority and its bump seed stay as they were
/// initialized, and a vault authority that passed the check passes it again.
pub proof fn transitions_keep_identities(
    state: ProgramState,
    amount: u64,
    program_id: Identity,
    vault_authority: Identity,
)
    ensures
        same_identities(state, state_after_deposit(state, amount)),
        same_identities(state, state_after_burn(state, amount)),
        vault_is_authentic(state, program_id, vault_authority) ==> vault_is_authentic(
            state_after_deposit(state, amount),
            program_id,
            vault_authority,
        ) && vault_is_authentic(state_after_burn(state, amount), program_id, vault_authority),
{
}

/// Whether two ledgers agree on all but the two counters.
pub open spec fn same_identities(a: ProgramState, b: ProgramState) -> bool {
    &&& a.is_initialized == b.is_initialized
    &&& a.admin == b.admin
    &&& a.usdc_mint == b.usdc_mint
    &&& a.usdv_mint == b.usdv_mint
    &&& a.vault_authority == b.vault_authority
    &&& a.vault_bump == b.vault_bump
}

} // verus!
