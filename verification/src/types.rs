//! What a client holds of balances, accounts, transactions and the system's
//! health.

use vstd::prelude::*;
use crate::identity::Identity;
use crate::state::{CollateralizationRatio, ProgramStateInfo};

verus! {

/// The balance of one token account.
#[derive(Debug, Clone, Copy, PartialEq, Eq)]
pub struct TokenBalance {
    /// Token mint address.
    pub mint: Identity,
    /// Token account address.
    pub account: Identity,
    /// Balance in base units.
    pub amount: u64,
    /// Number of decimal places.
    pub decimals: u8,
}

impl TokenBalance {
    /// A token balance of the given parts.
    pub fn new(mint: Identity, account: Identity, amount: u64, decimals: u8) -> (r: Self)
        ensures
            r == (TokenBalance { mint, account, amount, decimals }),
    {
        TokenBalance { mint, account, amount, decimals }
    }

    /// Checks whether the balance is zero.
    pub fn is_zero(&self) -> (r: bool)
        ensures
            r == (self.amount == 0),
    {
        self.amount == 0
    }

    /// Checks whether the balance covers `required`.
    pub fn is_sufficient(&self, required: u64) -> (r: bool)
        ensures
            r == (self.amount >= required),
    {
        self.amount >= required
    }
}

/// A user's two balances.
#[derive(Debug, Clone, Copy, PartialEq, Eq)]
pub struct UserAccountInfo {
    /// The user's identity.
    pub user: Identity,
    /// USDC balance.
    pub usdc_balance: TokenBalance,
    /// USDv balance.
    pub usdv_balance: TokenBalance,
}

impl UserAccountInfo {
    /// A user's account information of the given parts.
    pub fn new(user: Identity, usdc_balance: TokenBalance, usdv_balance: TokenBalance) -> (r: Self)
        ensures
            r == (UserAccountInfo { user, usdc_balance, usdv_balance }),
    {
        UserAccountInfo { user, usdc_balance, usdv_balance }
    }

    /// Checks whether the user's USDC covers a deposit of `amount`.
    pub fn can_deposit(&self, amount: u64) -> (r: bool)
        ensures
            r == (self.usdc_balance.amount >= amount),
    {
        self.usdc_balance.is_sufficient(amount)
    }

    /// Checks whether the user's USDv covers a burn of `amount`.
    pub fn can_burn(&self, amount: u64) -> (r: bool)
        ensures
            r == (self.usdv_balance.amount >= amount),
    {
        self.usdv_balance.is_sufficient(amount)
    }
}

/// The status of a transaction.
#[derive(Debug, Clone, PartialEq, Eq)]
pub enum TransactionStatus {
    /// Transaction is pending.
    Pending,
    /// Transaction confirmed.
    Confirmed,
    /// Transaction finalized.
    Finalized,
    /// Transaction failed, with the reason.
    Failed(String),
}

/// What is known of a transaction.
#[derive(Debug, Clone, PartialEq, Eq)]
pub struct TransactionInfo {
    /// Transaction signature.
    pub signature: String,
    /// Transaction status.
    pub status: TransactionStatus,
    /// Block height when confirmed.
    pub block_height: Option<u64>,
    /// Confirmation time.
    pub confirmation_time: Option<i64>,
    /// Transaction fee in lamports.
    pub fee: Option<u64>,
}

/// The result of a deposit.
#[derive(Debug, Clone, PartialEq, Eq)]
pub struct DepositResult {
    /// Transaction information.
    pub transaction: TransactionInfo,
    /// Amount of USDC deposited.
    pub usdc_deposited: u64,
    /// Amount of USDv minted.
    pub usdv_minted: u64,
    /// New user USDC balance.
    pub new_usdc_balance: u64,
    /// New user USDv balance.
    pub new_usdv_balance: u64,
}

/// The result of a burn.
#[derive(Debug, Clone, PartialEq, Eq)]
pub struct BurnResult {
    /// Transaction information.
    pub transaction: TransactionInfo,
    /// Amount of USDv burned.
    pub usdv_burned: u64,
    /// Amount of USDC withdrawn.
    pub usdc_withdrawn: u64,
    /// New user USDC balance.
    pub new_usdc_balance: u64,
    /// New user USDv balance.
    pub new_usdv_balance: u64,
}

/// The system's health at a moment.
#[derive(Debug, Clone, Copy, PartialEq, Eq)]
pub struct SystemHealth {
    /// Program state.
    pub program_state: ProgramStateInfo,
    /// Whether the system is healthy.
    pub is_healthy: bool,
    /// Total value locked, in base units of USDC.
    pub total_value_locked: u64,
    /// Collateralization ratio.
    pub collateralization_ratio: CollateralizationRatio,
    /// Moment of the reading, in seconds since the Unix epoch.
    pub last_updated: i64,
}

impl SystemHealth {
    /// The health that `program_state` shows when read at the moment
    /// `last_updated`.
    pub open spec fn spec_new(program_state: ProgramStateInfo, last_updated: i64) -> SystemHealth {
        SystemHealth {
            program_state,
            is_healthy: program_state.healthy(),
            total_value_locked: program_state.total_usdc_deposits,
            collateralization_ratio: program_state.spec_collateralization_ratio(),
            last_updated,
        }
    }

    /// The risk level in words: `CRITICAL` when the system is not healthy,
    /// `HIGH` when less than 95 in 100 is covered, `MEDIUM` when less than
    /// all is covered, and `LOW` otherwise.
    pub open spec fn spec_risk_level(self) -> Seq<char> {
        if !self.is_healthy {
            "CRITICAL"@
        } else if self.collateralization_ratio.below(95, 100) {
            "HIGH"@
        } else if self.collateralization_ratio.below(1, 1) {
            "MEDIUM"@
        } else {
            "LOW"@
        }
    }

    /// The health that `program_state` shows when read at the moment
    /// `last_updated`, which the caller reads from its clock, in seconds since
    /// the Unix epoch.
    pub fn new(program_state: ProgramStateInfo, last_updated: i64) -> (r: Self)
        ensures
            r == Self::spec_new(program_state, last_updated),
    {
        SystemHealth {
            program_state,
            is_healthy: program_state.is_healthy(),
            total_value_locked: program_state.total_usdc_deposits,
            collateralization_ratio: program_state.collateralization_ratio(),
            last_updated,
        }
    }

    /// Checks whether the system is at risk: not healthy, or covered by less
    /// than it has in circulation.
    pub fn is_at_risk(&self) -> (r: bool)
        ensures
            r == (!self.is_healthy || self.collateralization_ratio.below(1, 1)),
    {
        !self.is_healthy || self.collateralization_ratio.is_below(1, 1)
    }

    /// The risk level in words.
    pub fn risk_level(&self) -> (r: &'static str)
        ensures
            r@ == self.spec_risk_level(),
    {
        if !self.is_healthy {
            "CRITICAL"
        } else if self.collateralization_ratio.is_below(95, 100) {
            "HIGH"
        } else if self.collateralization_ratio.is_below(1, 1) {
            "MEDIUM"
        } else {
            "LOW"
        }
    }
}

/// A reading of the system's health is at risk exactly when it is not
/// healthy, and its risk level is then `CRITICAL`, and `LOW` otherwise: a
/// healthy system holds the peg, so it is never covered by less than all.
pub proof fn reading_is_low_or_critical(program_state: ProgramStateInfo, last_updated: i64)
    ensures
        ({
            let health = SystemHealth::spec_new(program_state, last_updated);
            &&& health.is_healthy ==> !health.collateralization_ratio.below(1, 1)
            &&& health.is_healthy ==> health.spec_risk_level() == "LOW"@
            &&& !health.is_healthy ==> health.spec_risk_level() == "CRITICAL"@
        }),
{
    let health = SystemHealth::spec_new(program_state, last_updated);
    if health.is_healthy {
        match health.collateralization_ratio {
            CollateralizationRatio::Infinite => {},
            CollateralizationRatio::Finite { deposits, supply } => {
                assert(deposits == supply);
                assert(!(deposits * 100 < supply * 95)) by (nonlinear_arith)
                    requires
                        deposits == supply,
                        deposits >= 0,
                ;
            },
        }
    }
}

/// How a client goes about its operations.
#[derive(Debug, Clone, Copy, PartialEq, Eq)]
pub struct ClientConfig {
    /// Maximum number of retries for failed operations.
    pub max_retries: u32,
    /// Retry delay in milliseconds.
    pub retry_delay_ms: u64,
    /// Request timeout in seconds.
    pub timeout_seconds: u64,
    /// Whether to use the confirmed commitment level.
    pub use_confirmed_commitment: bool,
    /// Whether to skip preflight checks.
    pub skip_preflight: bool,
}

impl Default for ClientConfig {
    fn default() -> (r: Self)
        ensures
            r == (ClientConfig {
                max_retries: 3,
                retry_delay_ms: 1000,
                timeout_seconds: 30,
                use_confirmed_commitment: true,
                skip_preflight: false,
            }),
    {
        ClientConfig {
            max_retries: 3,
            retry_delay_ms: 1000,
            timeout_seconds: 30,
            use_confirmed_commitment: true,
            skip_preflight: false,
        }
    }
}

} // verus!
