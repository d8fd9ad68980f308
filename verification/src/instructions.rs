//! The program's four transitions: initialize, deposit and mint, burn and
//! withdraw, and the hand-over of the administration.
//!
//! A transition reads the accounts it is given and decides. Tokens are moved
//! by the token program, which the host calls: a deposit or a burn is
//! therefore planned here as a [`Transaction`], which hands out one token
//! instruction at a time, takes back how it ended, and lets the new state be
//! written only when each instruction has succeeded.

use vstd::prelude::*;
use crate::constants::VAULT_AUTHORITY_SEED;
use crate::errors::USDvError;
use crate::identity::{identity_of_view, Identity};
use crate::math::{checked_add, checked_sub};
use crate::pda::{derive_authority, rederives, search, search_settles_on_the_first, verify_authority};
use crate::state::ProgramState;
use crate::validation::{
    deposit_amount_verdict, mint_supply_verdict, validate_burn_amount, validate_deposit_amount,
    validate_mint_supply_limit, ValidationError,
};

verus! {

/// What a transition reads of a token account: where it is and what it holds.
#[derive(Debug, Clone, Copy, PartialEq, Eq)]
pub struct TokenAccount {
    pub address: Identity,
    pub amount: u64,
}

/// Who authorizes a token instruction.
#[derive(Debug, Clone, Copy, PartialEq, Eq)]
pub enum Authority {
    /// The caller, whose signature the host has verified.
    Signer(Identity),
    /// The vault authority, for which the program signs with the vault seed
    /// and this bump seed.
    Vault { address: Identity, bump: u8 },
}

/// A request to the token program.
#[derive(Debug, Clone, Copy, PartialEq, Eq)]
pub enum TokenInstruction {
    /// Move `amount` from one token account to another.
    Transfer { from: Identity, to: Identity, authority: Authority, amount: u64 },
    /// Mint `amount` of `mint` into a token account.
    MintTo { mint: Identity, to: Identity, authority: Authority, amount: u64 },
    /// Burn `amount` of `mint` from a token account.
    Burn { mint: Identity, from: Identity, authority: Authority, amount: u64 },
}

/// How a token instruction ended.
#[derive(Debug, Clone, Copy, PartialEq, Eq, Structural)]
pub enum TokenOutcome {
    Succeeded,
    Failed,
}

/// How far a transaction has come.
#[derive(Debug, Clone, Copy, PartialEq, Eq, Structural)]
pub enum Stage {
    /// The first instruction is to be performed.
    AwaitingFirst,
    /// The first instruction has succeeded, the second is to be performed.
    AwaitingSecond,
    /// Both instructions have succeeded: the staged state may be written.
    Committed,
    /// An instruction has failed: nothing may be written.
    Aborted,
}

/// A deposit or a burn in flight: the two token instructions it consists of,
/// and the state that the ledger takes on once both have succeeded.
#[derive(Debug, Clone, Copy, PartialEq, Eq)]
pub struct Transaction {
    pub first: TokenInstruction,
    pub second: TokenInstruction,
    pub staged: ProgramState,
    pub stage: Stage,
}

/// What the host is to do next for a transaction.
#[derive(Debug, Clone, Copy, PartialEq, Eq)]
pub enum Action {
    /// Perform this token instruction and report how it ended.
    Invoke(TokenInstruction),
    /// Write the staged state: the transition has succeeded.
    Commit,
    /// Write nothing and drop what the instructions have moved: the
    /// transition has failed with this error.
    Abort(USDvError),
}

/// The accounts of `initialize`.
#[derive(Debug, Clone, Copy, PartialEq, Eq)]
pub struct Initialize {
    pub program_state: ProgramState,
    pub usdv_mint: Identity,
    pub vault_authority: Identity,
    pub admin: Identity,
}

/// The accounts of `deposit_and_mint`.
#[derive(Debug, Clone, Copy, PartialEq, Eq)]
pub struct DepositAndMint {
    pub program_state: ProgramState,
    pub usdc_mint: Identity,
    pub usdv_mint: Identity,
    pub user_usdc_account: TokenAccount,
    pub user_usdv_account: TokenAccount,
    pub vault_usdc_account: TokenAccount,
    pub vault_authority: Identity,
    pub user: Identity,
}

/// The accounts of `burn_and_withdraw`.
#[derive(Debug, Clone, Copy, PartialEq, Eq)]
pub struct BurnAndWithdraw {
    pub program_state: ProgramState,
    pub usdv_mint: Identity,
    pub user_usdv_account: TokenAccount,
    pub user_usdc_account: TokenAccount,
    pub vault_usdc_account: TokenAccount,
    pub vault_authority: Identity,
    pub user: Identity,
}

/// The accounts of `update_program_state`.
#[derive(Debug, Clone, Copy, PartialEq, Eq)]
pub struct UpdateProgramState {
    pub program_state: ProgramState,
    pub admin: Identity,
}

/// Whether the vault authority that was passed is the one that the state
/// names, and the stored bump seed derives it again for this program.
pub open spec fn vault_is_authentic(
    state: ProgramState,
    program_id: Identity,
    vault_authority: Identity,
) -> bool {
    &&& vault_authority == state.vault_authority
    &&& rederives(program_id, VAULT_AUTHORITY_SEED@, state.vault_bump, state.vault_authority)
}

/// The address and bump seed that the vault seed derives for a program.
pub open spec fn vault_derivation(program_id: Identity) -> Option<(Seq<u8>, u8)> {
    search(seq![VAULT_AUTHORITY_SEED@], program_id)
}

/// Why `initialize` refuses, if it does: the state is initialized already, no
/// vault authority can be derived, or the one passed is not the derived one.
pub open spec fn initialize_error(ctx: Initialize, program_id: Identity) -> Option<USDvError> {
    if ctx.program_state.is_initialized {
        Some(USDvError::AlreadyInitialized)
    } else {
        match vault_derivation(program_id) {
            None => Some(USDvError::NoValidDerivation),
            Some((address, _)) => if address != ctx.vault_authority@ {
                Some(USDvError::InvalidVaultAuthority)
            } else {
                None
            },
        }
    }
}

/// The state that `initialize` writes: the accounts' identities, the derived
/// bump seed, and both counters at zero.
pub open spec fn initialized_state(
    ctx: Initialize,
    program_id: Identity,
    usdc_mint_key: Identity,
) -> ProgramState {
    ProgramState {
        is_initialized: true,
        admin: ctx.admin,
        usdc_mint: usdc_mint_key,
        usdv_mint: ctx.usdv_mint,
        vault_authority: ctx.vault_authority,
        vault_bump: vault_derivation(program_id)->Some_0.1,
        total_usdv_supply: 0,
        total_usdc_deposits: 0,
    }
}

/// Initializes the program: records the admin and the two mints, derives the
/// vault authority for `program_id` and records it with its bump seed, and
/// sets both counters to zero. A state that is initialized already is left as
/// it is.
pub fn initialize(ctx: &mut Initialize, program_id: &Identity, usdc_mint_key: Identity) -> (r: Result<
    (),
    USDvError,
>)
    ensures
        match initialize_error(*old(ctx), *program_id) {
            Some(e) => r == Err::<(), USDvError>(e) && *final(ctx) == *old(ctx),
            None => {
                &&& r is Ok
                &&& *final(ctx) == Initialize {
                    program_state: initialized_state(*old(ctx), *program_id, usdc_mint_key),
                    ..*old(ctx)
                }
                &&& vault_is_authentic(
                    final(ctx).program_state,
                    *program_id,
                    final(ctx).vault_authority,
                )
            },
        },
{
    if ctx.program_state.is_initialized {
        return Err(USDvError::AlreadyInitialized);
    }
    let (authority, bump) = match derive_authority(program_id, &VAULT_AUTHORITY_SEED) {
        Ok(derived) => derived,
        Err(e) => {
            return Err(e);
        },
    };
    proof {
        search_settles_on_the_first(seq![VAULT_AUTHORITY_SEED@], *program_id, 255);
        if ctx.vault_authority@ == authority@ {
            identity_of_view(ctx.vault_authority, authority);
        }
    }
    if !(ctx.vault_authority == authority) {
        return Err(USDvError::InvalidVaultAuthority);
    }
    ctx.program_state = ProgramState {
        is_initialized: true,
        admin: ctx.admin,
        usdc_mint: usdc_mint_key,
        usdv_mint: ctx.usdv_mint,
        vault_authority: ctx.vault_authority,
        vault_bump: bump,
        total_usdv_supply: 0,
        total_usdc_deposits: 0,
    };
    Ok(())
}

/// Why a deposit is refused, if it is. The checks come in this order: the
/// state, the two mints, the vault authority, the amount's shape, the user's
/// USDC balance, the supply ceiling, and the counters' range.
pub open spec fn deposit_error(ctx: DepositAndMint, program_id: Identity, amount: u64) -> Option<
    USDvError,
> {
    let state = ctx.program_state;
    if !state.is_initialized {
        Some(USDvError::NotInitialized)
    } else if ctx.usdc_mint != state.usdc_mint {
        Some(USDvError::InvalidUSDCMint)
    } else if ctx.usdv_mint != state.usdv_mint {
        Some(USDvError::AccountValidationError)
    } else if !vault_is_authentic(state, program_id, ctx.vault_authority) {
        Some(USDvError::InvalidVaultAuthority)
    } else if deposit_amount_verdict(amount) is Err {
        Some(USDvError::InvalidAmount)
    } else if amount > ctx.user_usdc_account.amount {
        Some(USDvError::InsufficientUSDCBalance)
    } else if mint_supply_verdict(amount, state.total_usdv_supply) is Err {
        Some(USDvError::SupplyLimitExceeded)
    } else if state.total_usdv_supply + amount > u64::MAX || state.total_usdc_deposits + amount
        > u64::MAX {
        Some(USDvError::ArithmeticOverflow)
    } else {
        None
    }
}

/// The state after a deposit of `amount`: both counters raised by it, the
/// rest as before.
pub open spec fn state_after_deposit(state: ProgramState, amount: u64) -> ProgramState {
    ProgramState {
        total_usdv_supply: (state.total_usdv_supply + amount) as u64,
        total_usdc_deposits: (state.total_usdc_deposits + amount) as u64,
        ..state
    }
}

/// The transaction of a deposit: the user's USDC goes to the vault on the
/// user's authority, then as much USDv is minted to the user on the vault
/// authority's.
pub open spec fn deposit_transaction(ctx: DepositAndMint, amount: u64) -> Transaction {
    Transaction {
        first: TokenInstruction::Transfer {
            from: ctx.user_usdc_account.address,
            to: ctx.vault_usdc_account.address,
            authority: Authority::Signer(ctx.user),
            amount,
        },
        second: TokenInstruction::MintTo {
            mint: ctx.program_state.usdv_mint,
            to: ctx.user_usdv_account.address,
            authority: Authority::Vault {
                address: ctx.program_state.vault_authority,
                bump: ctx.program_state.vault_bump,
            },
            amount,
        },
        staged: state_after_deposit(ctx.program_state, amount),
        stage: Stage::AwaitingFirst,
    }
}

/// Plans a deposit of `amount` USDC against as much USDv. Nothing is moved
/// and nothing is written: on success the transaction that comes back holds
/// the two token instructions and the state to commit.
pub fn deposit_and_mint(ctx: &DepositAndMint, program_id: &Identity, amount: u64) -> (r: Result<
    Transaction,
    USDvError,
>)
    ensures
        match deposit_error(*ctx, *program_id, amount) {
            Some(e) => r == Err::<Transaction, USDvError>(e),
            None => r == Ok::<Transaction, USDvError>(deposit_transaction(*ctx, amount)),
        },
{
    let state = &ctx.program_state;
    if !state.is_initialized {
        return Err(USDvError::NotInitialized);
    }
    if !(ctx.usdc_mint == state.usdc_mint) {
        return Err(USDvError::InvalidUSDCMint);
    }
    if !(ctx.usdv_mint == state.usdv_mint) {
        return Err(USDvError::AccountValidationError);
    }
    if !check_vault_authority(state, program_id, &ctx.vault_authority) {
        return Err(USDvError::InvalidVaultAuthority);
    }
    if validate_deposit_amount(amount).is_err() {
        return Err(USDvError::InvalidAmount);
    }
    if amount > ctx.user_usdc_account.amount {
        return Err(USDvError::InsufficientUSDCBalance);
    }
    if validate_mint_supply_limit(amount, state.total_usdv_supply).is_err() {
        return Err(USDvError::SupplyLimitExceeded);
    }
    let supply = match checked_add(state.total_usdv_supply, amount) {
        Ok(sum) => sum,
        Err(e) => {
            return Err(e);
        },
    };
    let deposits = match checked_add(state.total_usdc_deposits, amount) {
        Ok(sum) => sum,
        Err(e) => {
            return Err(e);
        },
    };
    Ok(
        Transaction {
            first: TokenInstruction::Transfer {
                from: ctx.user_usdc_account.address,
                to: ctx.vault_usdc_account.address,
                authority: Authority::Signer(ctx.user),
                amount,
            },
            second: TokenInstruction::MintTo {
                mint: state.usdv_mint,
                to: ctx.user_usdv_account.address,
                authority: Authority::Vault {
                    address: state.vault_authority,
                    bump: state.vault_bump,
                },
                amount,
            },
            staged: ProgramState {
                is_initialized: state.is_initialized,
                admin: state.admin,
                usdc_mint: state.usdc_mint,
                usdv_mint: state.usdv_mint,
                vault_authority: state.vault_authority,
                vault_bump: state.vault_bump,
                total_usdv_supply: supply,
                total_usdc_deposits: deposits,
            },
            stage: Stage::AwaitingFirst,
        },
    )
}

/// Why a burn is refused, if it is. The checks come in this order: the state,
/// the USDv mint, the vault authority, the amount against the user's USDv
/// balance, the amount against the vault's USDC balance, and the counters'
/// range.
pub open spec fn burn_error(ctx: BurnAndWithdraw, program_id: Identity, amount: u64) -> Option<
    USDvError,
> {
    let state = ctx.program_state;
    if !state.is_initialized {
        Some(USDvError::NotInitialized)
    } else if ctx.usdv_mint != state.usdv_mint {
        Some(USDvError::AccountValidationError)
    } else if !vault_is_authentic(state, program_id, ctx.vault_authority) {
        Some(USDvError::InvalidVaultAuthority)
    } else if amount == 0 {
        Some(USDvError::InvalidAmount)
    } else if amount > ctx.user_usdv_account.amount {
        Some(USDvError::InsufficientUSDvBalance)
    } else if amount > ctx.vault_usdc_account.amount {
        Some(USDvError::InsufficientVaultBalance)
    } else if amount > state.total_usdv_supply || amount > state.total_usdc_deposits {
        Some(USDvError::ArithmeticUnderflow)
    } else {
        None
    }
}

/// The state after a burn of `amount`: both counters lowered by it, the rest
/// as before.
pub open spec fn state_after_burn(state: ProgramState, amount: u64) -> ProgramState {
    ProgramState {
        total_usdv_supply: (state.total_usdv_supply - amount) as u64,
        total_usdc_deposits: (state.total_usdc_deposits - amount) as u64,
        ..state
    }
}

/// The transaction of a burn: the user's USDv is burnt on the user's
/// authority, then as much USDC goes from the vault to the user on the vault
/// authority's.
pub open spec fn burn_transaction(ctx: BurnAndWithdraw, amount: u64) -> Transaction {
    Transaction {
        first: TokenInstruction::Burn {
            mint: ctx.program_state.usdv_mint,
            from: ctx.user_usdv_account.address,
            authority: Authority::Signer(ctx.user),
            amount,
        },
        second: TokenInstruction::Transfer {
            from: ctx.vault_usdc_account.address,
            to: ctx.user_usdc_account.address,
            authority: Authority::Vault {
                address: ctx.program_state.vault_authority,
                bump: ctx.program_state.vault_bump,
            },
            amount,
        },
        staged: state_after_burn(ctx.program_state, amount),
        stage: Stage::AwaitingFirst,
    }
}

/// Plans a burn of `amount` USDv against as much USDC. Nothing is moved and
/// nothing is written: on success the transaction that comes back holds the
/// two token instructions and the state to commit.
pub fn burn_and_withdraw(ctx: &BurnAndWithdraw, program_id: &Identity, amount: u64) -> (r: Result<
    Transaction,
    USDvError,
>)
    ensures
        match burn_error(*ctx, *program_id, amount) {
            Some(e) => r == Err::<Transaction, USDvError>(e),
            None => r == Ok::<Transaction, USDvError>(burn_transaction(*ctx, amount)),
        },
{
    let state = &ctx.program_state;
    if !state.is_initialized {
        return Err(USDvError::NotInitialized);
    }
    if !(ctx.usdv_mint == state.usdv_mint) {
        return Err(USDvError::AccountValidationError);
    }
    if !check_vault_authority(state, program_id, &ctx.vault_authority) {
        return Err(USDvError::InvalidVaultAuthority);
    }
    match validate_burn_amount(amount, ctx.user_usdv_account.amount) {
        Err(ValidationError::ZeroAmount) => {
            return Err(USDvError::InvalidAmount);
        },
        Err(_) => {
            return Err(USDvError::InsufficientUSDvBalance);
        },
        Ok(()) => {},
    }
    if amount > ctx.vault_usdc_account.amount {
        return Err(USDvError::InsufficientVaultBalance);
    }
    let supply = match checked_sub(state.total_usdv_supply, amount) {
        Ok(difference) => difference,
        Err(e) => {
            return Err(e);
        },
    };
    let deposits = match checked_sub(state.total_usdc_deposits, amount) {
        Ok(difference) => difference,
        Err(e) => {
            return Err(e);
        },
    };
    Ok(
        Transaction {
            first: TokenInstruction::Burn {
                mint: state.usdv_mint,
                from: ctx.user_usdv_account.address,
                authority: Authority::Signer(ctx.user),
                amount,
            },
            second: TokenInstruction::Transfer {
                from: ctx.vault_usdc_account.address,
                to: ctx.user_usdc_account.address,
                authority: Authority::Vault {
                    address: state.vault_authority,
                    bump: state.vault_bump,
                },
                amount,
            },
            staged: ProgramState {
                is_initialized: state.is_initialized,
                admin: state.admin,
                usdc_mint: state.usdc_mint,
                usdv_mint: state.usdv_mint,
                vault_authority: state.vault_authority,
                vault_bump: state.vault_bump,
                total_usdv_supply: supply,
                total_usdc_deposits: deposits,
            },
            stage: Stage::AwaitingFirst,
        },
    )
}

/// Checks that the vault authority that was passed is the one that the state
/// names, and derives it again from the stored bump seed.
fn check_vault_authority(state: &ProgramState, program_id: &Identity, vault_authority: &Identity) -> (r:
    bool)
    ensures
        r == vault_is_authentic(*state, *program_id, *vault_authority),
{
    if !(*vault_authority == state.vault_authority) {
        return false;
    }
    verify_authority(program_id, &VAULT_AUTHORITY_SEED, state.vault_bump, &state.vault_authority)
}

/// Hands the administration on. Only the admin may call; without a new admin
/// the call does no more than confirm that the caller is the admin.
pub fn update_program_state(ctx: &mut UpdateProgramState, new_admin: Option<Identity>) -> (r: Result<
    (),
    USDvError,
>)
    ensures
        old(ctx).admin != old(ctx).program_state.admin ==> r == Err::<(), USDvError>(
            USDvError::Unauthorized,
        ) && *final(ctx) == *old(ctx),
        old(ctx).admin == old(ctx).program_state.admin ==> r is Ok && final(ctx).admin == old(
            ctx,
        ).admin && final(ctx).program_state == (ProgramState {
            admin: match new_admin {
                Some(admin) => admin,
                None => old(ctx).program_state.admin,
            },
            ..old(ctx).program_state
        }),
{
    if !(ctx.admin == ctx.program_state.admin) {
        return Err(USDvError::Unauthorized);
    }
    match new_admin {
        Some(new_admin_key) => {
            ctx.program_state.admin = new_admin_key;
        },
        None => {},
    }
    Ok(())
}

impl Transaction {
    /// What the host is to do at this stage.
    pub open spec fn spec_action(self) -> Action {
        match self.stage {
            Stage::AwaitingFirst => Action::Invoke(self.first),
            Stage::AwaitingSecond => Action::Invoke(self.second),
            Stage::Committed => Action::Commit,
            Stage::Aborted => Action::Abort(USDvError::TransactionFailed),
        }
    }

    /// The transaction after the instruction that was handed out has ended
    /// with `outcome`: a success moves it on, a failure aborts it, and a
    /// transaction that is committed or aborted stays so.
    pub open spec fn spec_advance(self, outcome: TokenOutcome) -> Transaction {
        Transaction {
            stage: match self.stage {
                Stage::AwaitingFirst => match outcome {
                    TokenOutcome::Succeeded => Stage::AwaitingSecond,
                    TokenOutcome::Failed => Stage::Aborted,
                },
                Stage::AwaitingSecond => match outcome {
                    TokenOutcome::Succeeded => Stage::Committed,
                    TokenOutcome::Failed => Stage::Aborted,
                },
                Stage::Committed => Stage::Committed,
                Stage::Aborted => Stage::Aborted,
            },
            ..self
        }
    }

    /// The ledger after the host has settled the transaction: the staged
    /// state if the transaction is committed, the ledger as it was if not.
    pub open spec fn settled(self, state: ProgramState) -> ProgramState {
        if self.stage is Committed {
            self.staged
        } else {
            state
        }
    }

    /// What the host is to do next.
    pub fn action(&self) -> (r: Action)
        ensures
            r == self.spec_action(),
    {
        match self.stage {
            Stage::AwaitingFirst => Action::Invoke(self.first),
            Stage::AwaitingSecond => Action::Invoke(self.second),
            Stage::Committed => Action::Commit,
            Stage::Aborted => Action::Abort(USDvError::TransactionFailed),
        }
    }

    /// Takes in how the instruction that was handed out has ended.
    pub fn advance(self, outcome: TokenOutcome) -> (r: Transaction)
        ensures
            r == self.spec_advance(outcome),
    {
        let stage = match self.stage {
            Stage::AwaitingFirst => match outcome {
                TokenOutcome::Succeeded => Stage::AwaitingSecond,
                TokenOutcome::Failed => Stage::Aborted,
            },
            Stage::AwaitingSecond => match outcome {
                TokenOutcome::Succeeded => Stage::Committed,
                TokenOutcome::Failed => Stage::Aborted,
            },
            Stage::Committed => Stage::Committed,
            Stage::Aborted => Stage::Aborted,
        };
        Transaction { first: self.first, second: self.second, staged: self.staged, stage }
    }

    /// Settles the transaction on the ledger: writes the staged state if and
    /// only if both instructions have succeeded, and reports a transaction
    /// that has not come that far as failed.
    pub fn commit(&self, state: &mut ProgramState) -> (r: Result<(), USDvError>)
        ensures
            *final(state) == self.settled(*old(state)),
            self.stage is Committed ==> r is Ok,
            !(self.stage is Committed) ==> r == Err::<(), USDvError>(USDvError::TransactionFailed),
    {
        match self.stage {
            Stage::Committed => {
                *state = self.staged;
                Ok(())
            },
            _ => Err(USDvError::TransactionFailed),
        }
    }
}

/// One step of a transaction: from the transaction and the outcome of the
/// instruction that was handed out, to the transaction as it stands now and
/// what the host is to do next.
pub fn step(transaction: Transaction, outcome: TokenOutcome) -> (r: (Transaction, Action))
    ensures
        r.0 == transaction.spec_advance(outcome),
        r.1 == r.0.spec_action(),
{
    let next = transaction.advance(outcome);
    let action = next.action();
    (next, action)
}

} // verus!
