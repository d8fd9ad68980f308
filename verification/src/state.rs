//! The program's state: the ledger of a fully collateralised, 1:1 pegged
//! token, with the queries that read it.

use vstd::prelude::*;
use crate::constants::MAX_TOTAL_SUPPLY;
use crate::identity::Identity;

verus! {

/// The program state as a client reads it: the same record.
pub type ProgramStateInfo = ProgramState;

/// Global program state: configuration, administration and the two counters
/// of the peg.
#[derive(Debug, Clone, Copy, PartialEq, Eq)]
pub struct ProgramState {
    /// Whether the program has been initialized.
    pub is_initialized: bool,
    /// The admin, who alone may hand the administration on.
    pub admin: Identity,
    /// The USDC mint that USDv is pegged to.
    pub usdc_mint: Identity,
    /// The USDv mint, which the program controls.
    pub usdv_mint: Identity,
    /// The vault authority, an address derived for the program.
    pub vault_authority: Identity,
    /// The bump seed that proves the vault authority's derivation.
    pub vault_bump: u8,
    /// Total USDv in circulation.
    pub total_usdv_supply: u64,
    /// Total USDC deposited in the vault.
    pub total_usdc_deposits: u64,
}

/// The ratio of the USDC held to the USDv in circulation, kept exact.
#[derive(Debug, Clone, Copy, PartialEq, Eq, Structural)]
pub enum CollateralizationRatio {
    /// Nothing is in circulation: whatever is held covers it without bound.
    Infinite,
    /// `deposits` units of USDC for `supply` units of USDv, `supply` not zero.
    Finite { deposits: u64, supply: u64 },
}

impl CollateralizationRatio {
    /// Whether the ratio is exactly one: each unit in circulation is covered
    /// by one unit held.
    pub open spec fn is_one(self) -> bool {
        self matches CollateralizationRatio::Finite { deposits, supply } && deposits == supply
    }

    /// Whether the ratio is less than `numerator / denominator`. An infinite
    /// ratio is less than nothing.
    pub open spec fn below(self, numerator: u64, denominator: u64) -> bool {
        match self {
            CollateralizationRatio::Infinite => false,
            CollateralizationRatio::Finite { deposits, supply } => deposits * denominator < supply
                * numerator,
        }
    }

    /// Compares the ratio with the fraction `numerator / denominator` without
    /// rounding, by the cross products.
    pub fn is_below(&self, numerator: u64, denominator: u64) -> (r: bool)
        ensures
            r == self.below(numerator, denominator),
    {
        match self {
            CollateralizationRatio::Infinite => false,
            CollateralizationRatio::Finite { deposits, supply } => {
                assert(*deposits * denominator <= u64::MAX * u64::MAX) by (nonlinear_arith)
                    requires
                        *deposits <= u64::MAX,
                        denominator <= u64::MAX,
                ;
                assert(*supply * numerator <= u64::MAX * u64::MAX) by (nonlinear_arith)
                    requires
                        *supply <= u64::MAX,
                        numerator <= u64::MAX,
                ;
                let held: u128 = (*deposits as u128) * (denominator as u128);
                let owed: u128 = (*supply as u128) * (numerator as u128);
                held < owed
            },
        }
    }
}

impl ProgramState {
    /// The peg: as much USDv is in circulation as USDC is held.
    pub open spec fn peg(self) -> bool {
        self.total_usdv_supply == self.total_usdc_deposits
    }

    /// What holds of the state whenever it can be observed: the peg, and a
    /// supply within its ceiling.
    pub open spec fn is_sound(self) -> bool {
        &&& self.peg()
        &&& self.total_usdv_supply <= MAX_TOTAL_SUPPLY
    }

    /// Whether the program is healthy: initialized, with the peg maintained.
    pub open spec fn healthy(self) -> bool {
        self.is_initialized && self.peg()
    }

    /// The exact ratio of holdings to circulation.
    pub open spec fn spec_collateralization_ratio(self) -> CollateralizationRatio {
        if self.total_usdv_supply == 0 {
            CollateralizationRatio::Infinite
        } else {
            CollateralizationRatio::Finite {
                deposits: self.total_usdc_deposits,
                supply: self.total_usdv_supply,
            }
        }
    }

    /// What more could be minted against a vault that holds `vault_usdc_balance`.
    pub open spec fn spec_max_additional_mint(self, vault_usdc_balance: u64) -> u64 {
        if vault_usdc_balance >= self.total_usdv_supply {
            (vault_usdc_balance - self.total_usdv_supply) as u64
        } else {
            0
        }
    }

    /// Checks whether the 1:1 peg is maintained.
    pub fn is_peg_maintained(&self) -> (r: bool)
        ensures
            r == self.peg(),
    {
        self.total_usdv_supply == self.total_usdc_deposits
    }

    /// The collateralization ratio, which is one in a healthy state and
    /// infinite while nothing is in circulation.
    pub fn collateralization_ratio(&self) -> (r: CollateralizationRatio)
        ensures
            r == self.spec_collateralization_ratio(),
    {
        if self.total_usdv_supply == 0 {
            return CollateralizationRatio::Infinite;
        }
        CollateralizationRatio::Finite {
            deposits: self.total_usdc_deposits,
            supply: self.total_usdv_supply,
        }
    }

    /// Checks whether the program is healthy.
    pub fn is_healthy(&self) -> (r: bool)
        ensures
            r == self.healthy(),
    {
        self.is_initialized && self.is_peg_maintained()
    }

    /// The most USDv that could still be minted against the vault's balance:
    /// the balance less the supply, and nothing where the supply is larger.
    pub fn max_additional_mint(&self, vault_usdc_balance: u64) -> (r: u64)
        ensures
            r == self.spec_max_additional_mint(vault_usdc_balance),
    {
        if vault_usdc_balance >= self.total_usdv_supply {
            vault_usdc_balance - self.total_usdv_supply
        } else {
            0
        }
    }
}

/// While the peg holds and something is in circulation, the ratio is one.
pub proof fn pegged_ratio_is_one(state: ProgramState)
    requires
        state.peg(),
        state.total_usdv_supply > 0,
    ensures
        state.spec_collateralization_ratio().is_one(),
{
}

} // verus!
