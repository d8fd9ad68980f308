//! A fully collateralised token pegged one to one to a reserve asset: the
//! ledger, its transitions, and the rules that guard them.

pub mod client;
pub mod config;
pub mod constants;
pub mod errors;
pub mod identity;
pub mod instructions;
pub mod math;
pub mod pda;
pub mod peg;
pub mod record;
pub mod state;
pub mod types;
pub mod validation;

pub use client::{balance_from_response, Inquiry, USDvClient};
pub use config::USDvConfig;
pub use constants::{
    account_space, fees, DEFAULT_TIMEOUT_SECONDS, DEVNET_USDC_MINT, MAINNET_USDC_MINT,
    MAX_DEPOSIT_AMOUNT, MAX_RPC_RETRIES, MAX_TOTAL_SUPPLY, MIN_DEPOSIT_AMOUNT, PROGRAM_STATE_SEED,
    PROGRAM_VERSION, USDC_DECIMALS, USDV_DECIMALS, VAULT_AUTHORITY_SEED,
};
pub use errors::USDvError;
pub use identity::{DerivationError, Identity, ParseIdentityError};
pub use instructions::{
    burn_and_withdraw, deposit_and_mint, initialize, step, update_program_state, Action, Authority,
    BurnAndWithdraw, DepositAndMint, Initialize, Stage, TokenAccount, TokenInstruction,
    TokenOutcome, Transaction, UpdateProgramState,
};
pub use math::{checked_add, checked_mul, checked_sub};
pub use pda::{
    derive_authority, find_derived_address, get_associated_token_address, rederive_authority,
    verify_authority,
};
pub use record::{decode_account, pack, unpack};
pub use state::{CollateralizationRatio, ProgramState, ProgramStateInfo};
pub use types::{
    BurnResult, ClientConfig, DepositResult, SystemHealth, TokenBalance, TransactionInfo,
    TransactionStatus, UserAccountInfo,
};
pub use validation::{
    validate_amounts_match, validate_burn_amount, validate_burn_operation,
    validate_deposit_amount, validate_deposit_operation, validate_mint_decimals,
    validate_mint_supply_limit, validate_pubkey, ValidationError, ValidationResult,
};

use vstd::prelude::*;

verus! {

/// Version of the library.
pub const VERSION: &'static str = "0.1.0";

/// Identity of the USDv program on mainnet, in base58.
pub const MAINNET_PROGRAM_ID: &'static str = "USDvCoinProgram1111111111111111111111111111";

/// Identity of the USDv program on devnet, in base58.
pub const DEVNET_PROGRAM_ID: &'static str = "USDvCoinProgram1111111111111111111111111111";

} // verus!
