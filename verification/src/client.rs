//! The client's own part of its operations: what it decides and computes
//! from the values that its connection to a cluster brings.

use vstd::prelude::*;
use crate::config::USDvConfig;
use crate::constants::VAULT_AUTHORITY_SEED;
use crate::errors::USDvError;
use crate::identity::Identity;
use crate::pda::{
    derive_authority, get_associated_token_address, is_derivation, spec_associated_token_address,
};
use crate::state::ProgramStateInfo;
use crate::types::{ClientConfig, SystemHealth, TokenBalance, UserAccountInfo};
use crate::validation::{
    burn_amount_verdict, deposit_amount_verdict, validate_burn_amount, validate_deposit_amount,
};

verus! {

/// What `str::parse::<u64>` of the standard library makes of a text: the
/// number that it is the decimal form of, if it is that of any.
pub uninterp spec fn spec_parse_u64(text: Seq<char>) -> Option<u64>;

/// Whether `pattern` occurs in `text` as a run of neighbouring characters.
pub open spec fn occurs_in(pattern: Seq<char>, text: Seq<char>) -> bool {
    exists|i: int|
        0 <= i && i + pattern.len() <= text.len() && #[trigger] text.subrange(
            i,
            i + pattern.len(),
        ) == pattern
}

/// Calls `str::parse::<u64>`. The contract names what that function returns.
#[verifier::external_body]
fn parse_u64(text: &str) -> (r: Option<u64>)
    ensures
        r == spec_parse_u64(text@),
{
    text.parse::<u64>().ok()
}

/// Calls `str::contains` with a text as the pattern. The contract claims what
/// the standard library documents: whether the pattern matches a part of the
/// text.
#[verifier::external_body]
fn text_contains(text: &str, pattern: &str) -> (r: bool)
    ensures
        r == occurs_in(pattern@, text@),
{
    text.contains(pattern)
}

/// The balance that a cluster's answer to a balance query stands for. An
/// answer holds the amount in decimal; a refusal that says that the account
/// could not be found means a balance of zero.
pub open spec fn spec_balance_from_response(response: Result<Seq<char>, Seq<char>>) -> Result<
    u64,
    USDvError,
> {
    match response {
        Ok(amount) => match spec_parse_u64(amount) {
            Some(balance) => Ok(balance),
            None => Err(USDvError::SerializationError),
        },
        Err(message) => if occurs_in("could not find account"@, message) {
            Ok(0)
        } else {
            Err(USDvError::SolanaClientError)
        },
    }
}

/// Reads a balance from a cluster's answer to a balance query: the amount as
/// text, or the message of the refusal.
pub fn balance_from_response(response: Result<&str, &str>) -> (r: Result<u64, USDvError>)
    ensures
        r == spec_balance_from_response(
            match response {
                Ok(amount) => Ok(amount@),
                Err(message) => Err(message@),
            },
        ),
{
    match response {
        Ok(amount) => match parse_u64(amount) {
            Some(balance) => Ok(balance),
            None => Err(USDvError::SerializationError),
        },
        Err(message) => {
            if text_contains(message, "could not find account") {
                Ok(0)
            } else {
                Err(USDvError::SolanaClientError)
            }
        },
    }
}

/// Where the client stands with a question that takes queries to answer: it
/// has the answer, or it has to ask the cluster for one more value first.
#[derive(Debug, Clone, Copy, PartialEq, Eq, Structural)]
pub enum Inquiry {
    /// The question is answered.
    Answer(bool),
    /// The user's USDC balance is needed.
    AskUsdcBalance,
    /// The user's USDv balance is needed.
    AskUsdvBalance,
    /// The system's health is needed.
    AskSystemHealth,
    /// The program state is needed.
    AskProgramState,
}

/// Where the client stands with the question whether a user can deposit
/// `amount`, knowing what it knows. An amount that no deposit may have is
/// answered without a query; the balance is asked for before the health, and
/// the health only where the balance covers the amount.
pub open spec fn spec_deposit_inquiry(
    amount: u64,
    usdc_balance: Option<u64>,
    healthy: Option<bool>,
) -> Inquiry {
    if deposit_amount_verdict(amount) is Err {
        Inquiry::Answer(false)
    } else {
        match usdc_balance {
            None => Inquiry::AskUsdcBalance,
            Some(balance) => if balance < amount {
                Inquiry::Answer(false)
            } else {
                match healthy {
                    None => Inquiry::AskSystemHealth,
                    Some(is_healthy) => Inquiry::Answer(is_healthy),
                }
            },
        }
    }
}

/// Where the client stands with the question whether a user can burn
/// `amount`, knowing what it knows. The balance is asked for first, and the
/// program state only where the balance covers an amount that is not zero.
pub open spec fn spec_burn_inquiry(
    amount: u64,
    usdv_balance: Option<u64>,
    total_usdc_deposits: Option<u64>,
) -> Inquiry {
    match usdv_balance {
        None => Inquiry::AskUsdvBalance,
        Some(balance) => if burn_amount_verdict(amount, balance) is Err {
            Inquiry::Answer(false)
        } else {
            match total_usdc_deposits {
                None => Inquiry::AskProgramState,
                Some(deposits) => Inquiry::Answer(deposits >= amount),
            }
        },
    }
}

/// Once every value is known, the inquiries answer what `can_deposit` and
/// `can_burn` answer.
pub proof fn inquiries_end_in_the_answer(amount: u64, balance: u64, healthy: bool, deposits: u64)
    ensures
        spec_deposit_inquiry(amount, Some(balance), Some(healthy)) == Inquiry::Answer(
            deposit_amount_verdict(amount) is Ok && balance >= amount && healthy,
        ),
        spec_burn_inquiry(amount, Some(balance), Some(deposits)) == Inquiry::Answer(
            burn_amount_verdict(amount, balance) is Ok && deposits >= amount,
        ),
{
}

/// A client of the USDv program: where the program lives, and how the client
/// goes about its operations.
#[derive(Debug, Clone)]
pub struct USDvClient {
    /// Configuration of the USDv program.
    pub config: USDvConfig,
    /// Configuration of the client.
    pub client_config: ClientConfig,
}

impl USDvClient {
    /// A client with the default client configuration.
    pub fn new(config: USDvConfig) -> (r: Self)
        ensures
            r.config == config,
            r.client_config == (ClientConfig {
                max_retries: 3,
                retry_delay_ms: 1000,
                timeout_seconds: 30,
                use_confirmed_commitment: true,
                skip_preflight: false,
            }),
    {
        USDvClient { config, client_config: ClientConfig::default() }
    }

    /// A client with a client configuration of its own.
    pub fn with_config(config: USDvConfig, client_config: ClientConfig) -> (r: Self)
        ensures
            r == (USDvClient { config, client_config }),
    {
        USDvClient { config, client_config }
    }

    /// The program's configuration.
    pub fn config(&self) -> (r: &USDvConfig)
        ensures
            *r == self.config,
    {
        &self.config
    }

    /// The vault authority of the configured program and its bump seed, which
    /// the accounts of `initialize` name.
    pub fn vault_authority(&self) -> (r: Result<(Identity, u8), USDvError>)
        ensures
            is_derivation(self.config.program_id, VAULT_AUTHORITY_SEED@, r),
    {
        derive_authority(&self.config.program_id, &VAULT_AUTHORITY_SEED)
    }

    /// Checks the amount of a deposit before it is sent: an amount that
    /// `validate_deposit_amount` rejects is an `InvalidAmount`.
    pub fn check_deposit(&self, amount: u64) -> (r: Result<(), USDvError>)
        ensures
            deposit_amount_verdict(amount) is Ok ==> r == Ok::<(), USDvError>(()),
            deposit_amount_verdict(amount) is Err ==> r == Err::<(), USDvError>(
                USDvError::InvalidAmount,
            ),
    {
        match validate_deposit_amount(amount) {
            Ok(()) => Ok(()),
            Err(_) => Err(USDvError::InvalidAmount),
        }
    }

    /// Checks the amount of a burn against the user's USDv balance before it
    /// is sent: an amount that `validate_burn_amount` rejects is an
    /// `InvalidAmount`.
    pub fn check_burn(&self, amount: u64, usdv_balance: u64) -> (r: Result<(), USDvError>)
        ensures
            burn_amount_verdict(amount, usdv_balance) is Ok ==> r == Ok::<(), USDvError>(()),
            burn_amount_verdict(amount, usdv_balance) is Err ==> r == Err::<(), USDvError>(
                USDvError::InvalidAmount,
            ),
    {
        match validate_burn_amount(amount, usdv_balance) {
            Ok(()) => Ok(()),
            Err(_) => Err(USDvError::InvalidAmount),
        }
    }

    /// The user's two balances with the token accounts that hold them, from
    /// the balances that the cluster has answered with. Nothing comes back
    /// where one of the token accounts has no address.
    pub fn get_user_account_info(&self, user: &Identity, usdc_balance: u64, usdv_balance: u64) -> (r:
        Option<UserAccountInfo>)
        ensures
            match r {
                Some(info) => {
                    &&& info.user == *user
                    &&& info.usdc_balance.mint == self.config.usdc_mint
                    &&& info.usdc_balance.amount == usdc_balance
                    &&& info.usdc_balance.decimals == 6
                    &&& spec_associated_token_address(*user, self.config.usdc_mint) == Some(
                        info.usdc_balance.account@,
                    )
                    &&& info.usdv_balance.mint == self.config.usdv_mint
                    &&& info.usdv_balance.amount == usdv_balance
                    &&& info.usdv_balance.decimals == 6
                    &&& spec_associated_token_address(*user, self.config.usdv_mint) == Some(
                        info.usdv_balance.account@,
                    )
                },
                None => spec_associated_token_address(*user, self.config.usdc_mint) is None
                    || spec_associated_token_address(*user, self.config.usdv_mint) is None,
            },
    {
        let usdc_account = match get_associated_token_address(user, &self.config.usdc_mint) {
            Some(address) => address,
            None => {
                return None;
            },
        };
        let usdv_account = match get_associated_token_address(user, &self.config.usdv_mint) {
            Some(address) => address,
            None => {
                return None;
            },
        };
        let usdc_token_balance = TokenBalance::new(
            self.config.usdc_mint,
            usdc_account,
            usdc_balance,
            6,
        );
        let usdv_token_balance = TokenBalance::new(
            self.config.usdv_mint,
            usdv_account,
            usdv_balance,
            6,
        );
        Some(UserAccountInfo::new(*user, usdc_token_balance, usdv_token_balance))
    }

    /// Checks whether a user can deposit `amount`: the amount is one that a
    /// deposit may have, the user's USDC covers it, and the system is
    /// healthy.
    pub fn can_deposit(&self, amount: u64, usdc_balance: u64, health: &SystemHealth) -> (r: bool)
        ensures
            r == (deposit_amount_verdict(amount) is Ok && usdc_balance >= amount
                && health.is_healthy),
    {
        if validate_deposit_amount(amount).is_err() {
            return false;
        }
        if usdc_balance < amount {
            return false;
        }
        if !health.is_healthy {
            return false;
        }
        true
    }

    /// The next step towards knowing whether a user can deposit `amount`,
    /// from the values that the cluster has answered with so far.
    pub fn deposit_inquiry(
        &self,
        amount: u64,
        usdc_balance: Option<u64>,
        health: Option<&SystemHealth>,
    ) -> (r: Inquiry)
        ensures
            r == spec_deposit_inquiry(
                amount,
                usdc_balance,
                match health {
                    Some(reading) => Some(reading.is_healthy),
                    None => None,
                },
            ),
    {
        if validate_deposit_amount(amount).is_err() {
            return Inquiry::Answer(false);
        }
        let balance = match usdc_balance {
            Some(balance) => balance,
            None => {
                return Inquiry::AskUsdcBalance;
            },
        };
        if balance < amount {
            return Inquiry::Answer(false);
        }
        match health {
            Some(reading) => Inquiry::Answer(reading.is_healthy),
            None => Inquiry::AskSystemHealth,
        }
    }

    /// The next step towards knowing whether a user can burn `amount`, from
    /// the values that the cluster has answered with so far.
    pub fn burn_inquiry(
        &self,
        amount: u64,
        usdv_balance: Option<u64>,
        program_state: Option<&ProgramStateInfo>,
    ) -> (r: Inquiry)
        ensures
            r == spec_burn_inquiry(
                amount,
                usdv_balance,
                match program_state {
                    Some(state) => Some(state.total_usdc_deposits),
                    None => None,
                },
            ),
    {
        let balance = match usdv_balance {
            Some(balance) => balance,
            None => {
                return Inquiry::AskUsdvBalance;
            },
        };
        if validate_burn_amount(amount, balance).is_err() {
            return Inquiry::Answer(false);
        }
        match program_state {
            Some(state) => Inquiry::Answer(state.total_usdc_deposits >= amount),
            None => Inquiry::AskProgramState,
        }
    }

    /// Checks whether a user can burn `amount`: the user's USDv covers it, it
    /// is not zero, and the vault holds as much USDC.
    pub fn can_burn(&self, amount: u64, usdv_balance: u64, program_state: &ProgramStateInfo) -> (r:
        bool)
        ensures
            r == (burn_amount_verdict(amount, usdv_balance) is Ok
                && program_state.total_usdc_deposits >= amount),
    {
        if usdv_balance < amount {
            return false;
        }
        if validate_burn_amount(amount, usdv_balance).is_err() {
            return false;
        }
        if program_state.total_usdc_deposits < amount {
            return false;
        }
        true
    }
}

} // verus!
