//! Error kinds reported by the program's transitions.

use vstd::prelude::*;

verus! {

/// Everything a transition can fail with. The variants carry no data, so each
/// has a stable position that serves as its numeric code.
#[derive(Debug, Clone, Copy, PartialEq, Eq, Structural)]
pub enum USDvError {
    /// Invalid USDC mint address.
    InvalidUSDCMint,
    /// Insufficient USDC balance.
    InsufficientUSDCBalance,
    /// Insufficient USDv balance to burn.
    InsufficientUSDvBalance,
    /// Invalid vault authority.
    InvalidVaultAuthority,
    /// Arithmetic overflow occurred.
    ArithmeticOverflow,
    /// Only the admin can perform this action.
    Unauthorized,
    /// Program already initialized.
    AlreadyInitialized,
    /// Program not initialized.
    NotInitialized,
    /// Invalid peg ratio: the peg must stay at 1:1.
    InvalidPegRatio,
    /// Vault balance insufficient for withdrawal.
    InsufficientVaultBalance,
    /// Invalid instruction data.
    InvalidInstructionData,
    /// Account validation failed.
    AccountValidationError,
    /// Solana client operation failed.
    SolanaClientError,
    /// Invalid public key format.
    InvalidPublicKey,
    /// Insufficient balance for operation.
    InsufficientBalance,
    /// Transaction execution failed.
    TransactionFailed,
    /// Required account not found.
    AccountNotFound,
    /// Invalid mint address provided.
    InvalidMintAddress,
    /// Invalid amount specified.
    InvalidAmount,
    /// Data serialization failed.
    SerializationError,
    /// Network operation failed.
    NetworkError,
    /// Configuration error occurred.
    ConfigurationError,
    /// Operation timed out.
    TimeoutError,
    /// Rate limit exceeded.
    RateLimitExceeded,
    /// Internal system error.
    InternalError,
    /// A counter would have gone below zero.
    ArithmeticUnderflow,
    /// No bump seed yields a usable authority address.
    NoValidDerivation,
    /// The supply after minting would pass its ceiling.
    SupplyLimitExceeded,
}

impl USDvError {
    /// The numeric code of the error: its position in the list, from zero.
    pub open spec fn spec_code(self) -> u32 {
        match self {
            USDvError::InvalidUSDCMint => 0,
            USDvError::InsufficientUSDCBalance => 1,
            USDvError::InsufficientUSDvBalance => 2,
            USDvError::InvalidVaultAuthority => 3,
            USDvError::ArithmeticOverflow => 4,
            USDvError::Unauthorized => 5,
            USDvError::AlreadyInitialized => 6,
            USDvError::NotInitialized => 7,
            USDvError::InvalidPegRatio => 8,
            USDvError::InsufficientVaultBalance => 9,
            USDvError::InvalidInstructionData => 10,
            USDvError::AccountValidationError => 11,
            USDvError::SolanaClientError => 12,
            USDvError::InvalidPublicKey => 13,
            USDvError::InsufficientBalance => 14,
            USDvError::TransactionFailed => 15,
            USDvError::AccountNotFound => 16,
            USDvError::InvalidMintAddress => 17,
            USDvError::InvalidAmount => 18,
            USDvError::SerializationError => 19,
            USDvError::NetworkError => 20,
            USDvError::ConfigurationError => 21,
            USDvError::TimeoutError => 22,
            USDvError::RateLimitExceeded => 23,
            USDvError::InternalError => 24,
            USDvError::ArithmeticUnderflow => 25,
            USDvError::NoValidDerivation => 26,
            USDvError::SupplyLimitExceeded => 27,
        }
    }

    /// The numeric code under which the error travels as a custom program
    /// error.
    pub fn code(self) -> (r: u32)
        ensures
            r == self.spec_code(),
    {
        match self {
            USDvError::InvalidUSDCMint => 0,
            USDvError::InsufficientUSDCBalance => 1,
            USDvError::InsufficientUSDvBalance => 2,
            USDvError::InvalidVaultAuthority => 3,
            USDvError::ArithmeticOverflow => 4,
            USDvError::Unauthorized => 5,
            USDvError::AlreadyInitialized => 6,
            USDvError::NotInitialized => 7,
            USDvError::InvalidPegRatio => 8,
            USDvError::InsufficientVaultBalance => 9,
            USDvError::InvalidInstructionData => 10,
            USDvError::AccountValidationError => 11,
            USDvError::SolanaClientError => 12,
            USDvError::InvalidPublicKey => 13,
            USDvError::InsufficientBalance => 14,
            USDvError::TransactionFailed => 15,
            USDvError::AccountNotFound => 16,
            USDvError::InvalidMintAddress => 17,
            USDvError::InvalidAmount => 18,
            USDvError::SerializationError => 19,
            USDvError::NetworkError => 20,
            USDvError::ConfigurationError => 21,
            USDvError::TimeoutError => 22,
            USDvError::RateLimitExceeded => 23,
            USDvError::InternalError => 24,
            USDvError::ArithmeticUnderflow => 25,
            USDvError::NoValidDerivation => 26,
            USDvError::SupplyLimitExceeded => 27,
        }
    }
}

} // verus!
