//! Program-wide constants and configuration values.

use vstd::prelude::*;

pub mod account_space;
pub mod fees;

verus! {

/// USDC token decimals.
pub const USDC_DECIMALS: u8 = 6;

/// USDv token decimals, the same as USDC's.
pub const USDV_DECIMALS: u8 = 6;

/// Maximum total supply of USDv tokens: one billion tokens of six decimals.
pub const MAX_TOTAL_SUPPLY: u64 = 1_000_000_000_000_000;

/// Minimum deposit amount: 0.01 USDC.
pub const MIN_DEPOSIT_AMOUNT: u64 = 10_000;

/// Maximum deposit amount: one million USDC.
pub const MAX_DEPOSIT_AMOUNT: u64 = 1_000_000_000_000;

/// Seed of the vault authority's derived address: the bytes of `vault_authority`.
pub const VAULT_AUTHORITY_SEED: [u8; 15] = [
    118, 97, 117, 108, 116, 95, 97, 117, 116, 104, 111, 114, 105, 116, 121,
];

/// Seed of the program state's derived address: the bytes of `program_state`.
pub const PROGRAM_STATE_SEED: [u8; 13] = [
    112, 114, 111, 103, 114, 97, 109, 95, 115, 116, 97, 116, 101,
];

/// Maximum number of retries for RPC calls.
pub const MAX_RPC_RETRIES: u32 = 3;

/// Default timeout for transactions, in seconds.
pub const DEFAULT_TIMEOUT_SECONDS: u64 = 30;

/// Program version.
pub const PROGRAM_VERSION: (u8, u8, u8) = (0, 1, 0);

/// Mainnet USDC mint address.
pub const MAINNET_USDC_MINT: &'static str = "EPjFWdd5AufqSSqeM2qN1xzybapC8G4wEGGkZwyTDt1v";

/// Devnet USDC mint address.
pub const DEVNET_USDC_MINT: &'static str = "4zMMC9srt5Ri5X14GAgXhaHii3GnPAEERYPJgZJDncDU";

} // verus!
