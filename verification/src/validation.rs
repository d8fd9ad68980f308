//! Input validation: stateless checks on amounts, balances and supply.

use vstd::prelude::*;
use crate::constants::{MAX_DEPOSIT_AMOUNT, MAX_TOTAL_SUPPLY, MIN_DEPOSIT_AMOUNT};
use crate::identity::Identity;

verus! {

/// Why an input was rejected.
#[derive(Debug, PartialEq)]
pub enum ValidationError {
    /// The amount is not the one that was expected.
    InvalidAmount { amount: u64, min: u64, max: u64 },
    /// The public key may not be used here.
    InvalidPublicKey(String),
    /// The amount is below the floor.
    AmountTooSmall { amount: u64, min: u64 },
    /// The amount is above the ceiling.
    AmountTooLarge { amount: u64, max: u64 },
    /// The amount is zero.
    ZeroAmount,
    /// The supply after minting would pass the ceiling.
    SupplyLimitExceeded { requested: u64, max: u64 },
    /// The mint does not have six decimals.
    InvalidDecimals(u8),
    /// The balance does not cover the amount.
    InsufficientBalance { required: u64, available: u64 },
}

/// Result type of the validators.
pub type ValidationResult<T> = Result<T, ValidationError>;

/// The verdict on a deposit amount: zero is rejected first, then an amount
/// below the floor, then one above the ceiling.
pub open spec fn deposit_amount_verdict(amount: u64) -> ValidationResult<()> {
    if amount == 0 {
        Err(ValidationError::ZeroAmount)
    } else if amount < MIN_DEPOSIT_AMOUNT {
        Err(ValidationError::AmountTooSmall { amount, min: MIN_DEPOSIT_AMOUNT })
    } else if amount > MAX_DEPOSIT_AMOUNT {
        Err(ValidationError::AmountTooLarge { amount, max: MAX_DEPOSIT_AMOUNT })
    } else {
        Ok(())
    }
}

/// The verdict on a burn amount: zero is rejected first, then an amount that
/// the balance does not cover.
pub open spec fn burn_amount_verdict(amount: u64, user_balance: u64) -> ValidationResult<()> {
    if amount == 0 {
        Err(ValidationError::ZeroAmount)
    } else if amount > user_balance {
        Err(ValidationError::InsufficientBalance { required: amount, available: user_balance })
    } else {
        Ok(())
    }
}

/// The supply after minting, held at the largest 64-bit value when the sum
/// passes it.
pub open spec fn saturating_supply(mint_amount: u64, current_supply: u64) -> u64 {
    if current_supply + mint_amount > u64::MAX {
        u64::MAX
    } else {
        (current_supply + mint_amount) as u64
    }
}

/// The verdict on minting `mint_amount` on top of `current_supply`.
pub open spec fn mint_supply_verdict(mint_amount: u64, current_supply: u64) -> ValidationResult<()> {
    if saturating_supply(mint_amount, current_supply) > MAX_TOTAL_SUPPLY {
        Err(
            ValidationError::SupplyLimitExceeded {
                requested: saturating_supply(mint_amount, current_supply),
                max: MAX_TOTAL_SUPPLY,
            },
        )
    } else {
        Ok(())
    }
}

/// The verdict on a whole deposit: the amount's shape, then the user's USDC
/// balance, then the supply ceiling. The first rule broken gives the error.
pub open spec fn deposit_operation_verdict(
    amount: u64,
    user_usdc_balance: u64,
    current_supply: u64,
) -> ValidationResult<()> {
    if deposit_amount_verdict(amount) is Err {
        deposit_amount_verdict(amount)
    } else if amount > user_usdc_balance {
        Err(ValidationError::InsufficientBalance { required: amount, available: user_usdc_balance })
    } else {
        mint_supply_verdict(amount, current_supply)
    }
}

/// The verdict on a whole burn: the amount against the user's USDv balance,
/// then against the vault's USDC balance.
pub open spec fn burn_operation_verdict(
    amount: u64,
    user_usdv_balance: u64,
    vault_usdc_balance: u64,
) -> ValidationResult<()> {
    if burn_amount_verdict(amount, user_usdv_balance) is Err {
        burn_amount_verdict(amount, user_usdv_balance)
    } else if amount > vault_usdc_balance {
        Err(
            ValidationError::InsufficientBalance {
                required: amount,
                available: vault_usdc_balance,
            },
        )
    } else {
        Ok(())
    }
}

/// A deposit amount is accepted exactly when it lies between the floor and
/// the ceiling, both included; below the floor it is too small, unless it is
/// zero, and above the ceiling it is too large.
pub proof fn deposit_amount_bounds(amount: u64)
    ensures
        deposit_amount_verdict(amount) is Ok <==> MIN_DEPOSIT_AMOUNT <= amount
            <= MAX_DEPOSIT_AMOUNT,
        0 < amount < MIN_DEPOSIT_AMOUNT ==> deposit_amount_verdict(amount) == Err::<
            (),
            ValidationError,
        >(ValidationError::AmountTooSmall { amount, min: MIN_DEPOSIT_AMOUNT }),
        amount > MAX_DEPOSIT_AMOUNT ==> deposit_amount_verdict(amount) == Err::<
            (),
            ValidationError,
        >(ValidationError::AmountTooLarge { amount, max: MAX_DEPOSIT_AMOUNT }),
{
}

/// The zero check precedes every other: a deposit or a burn of nothing is
/// refused as `ZeroAmount`, whatever the balances and the supply are.
pub proof fn zero_amount_comes_first(balance: u64, other: u64)
    ensures
        deposit_operation_verdict(0, balance, other) == Err::<(), ValidationError>(
            ValidationError::ZeroAmount,
        ),
        burn_operation_verdict(0, balance, other) == Err::<(), ValidationError>(
            ValidationError::ZeroAmount,
        ),
{
}

/// A deposit operation that is accepted has an amount that is accepted, that
/// the balance covers, and that the supply has room for.
pub proof fn deposit_operation_accepts(amount: u64, user_usdc_balance: u64, current_supply: u64)
    ensures
        deposit_operation_verdict(amount, user_usdc_balance, current_supply) is Ok <==> {
            &&& MIN_DEPOSIT_AMOUNT <= amount <= MAX_DEPOSIT_AMOUNT
            &&& amount <= user_usdc_balance
            &&& current_supply + amount <= MAX_TOTAL_SUPPLY
        },
{
}

/// Validates a deposit amount, in base units.
pub fn validate_deposit_amount(amount: u64) -> (r: ValidationResult<()>)
    ensures
        r == deposit_amount_verdict(amount),
{
    if amount == 0 {
        return Err(ValidationError::ZeroAmount);
    }
    if amount < MIN_DEPOSIT_AMOUNT {
        return Err(ValidationError::AmountTooSmall { amount, min: MIN_DEPOSIT_AMOUNT });
    }
    if amount > MAX_DEPOSIT_AMOUNT {
        return Err(ValidationError::AmountTooLarge { amount, max: MAX_DEPOSIT_AMOUNT });
    }
    Ok(())
}

/// Validates a burn amount against the user's balance.
pub fn validate_burn_amount(amount: u64, user_balance: u64) -> (r: ValidationResult<()>)
    ensures
        r == burn_amount_verdict(amount, user_balance),
{
    if amount == 0 {
        return Err(ValidationError::ZeroAmount);
    }
    if amount > user_balance {
        return Err(
            ValidationError::InsufficientBalance { required: amount, available: user_balance },
        );
    }
    Ok(())
}

/// Validates that minting `mint_amount` keeps the supply within the ceiling.
pub fn validate_mint_supply_limit(mint_amount: u64, current_supply: u64) -> (r: ValidationResult<()>)
    ensures
        r == mint_supply_verdict(mint_amount, current_supply),
{
    let new_supply: u64 = if mint_amount > u64::MAX - current_supply {
        u64::MAX
    } else {
        current_supply + mint_amount
    };
    if new_supply > MAX_TOTAL_SUPPLY {
        return Err(
            ValidationError::SupplyLimitExceeded { requested: new_supply, max: MAX_TOTAL_SUPPLY },
        );
    }
    Ok(())
}

/// Validates a public key: the system program's identity is not accepted.
pub fn validate_pubkey(pubkey: &Identity) -> (r: ValidationResult<()>)
    ensures
        !pubkey.is_zero() ==> r == Ok::<(), ValidationError>(()),
        pubkey.is_zero() ==> (r matches Err(ValidationError::InvalidPublicKey(message))
            && message@ == "System program ID not allowed"@),
{
    let system = Identity::system_program();
    proof {
        if pubkey.is_zero() {
            assert(pubkey.bytes =~= system.bytes);
        }
    }
    if *pubkey == system {
        return Err(ValidationError::InvalidPublicKey("System program ID not allowed".to_owned()));
    }
    Ok(())
}

/// Validates that a mint has the six decimals of USDC and USDv.
pub fn validate_mint_decimals(decimals: u8) -> (r: ValidationResult<()>)
    ensures
        decimals == 6 ==> r == Ok::<(), ValidationError>(()),
        decimals != 6 ==> r == Err::<(), ValidationError>(ValidationError::InvalidDecimals(decimals)),
{
    if decimals != 6 {
        return Err(ValidationError::InvalidDecimals(decimals));
    }
    Ok(())
}

/// Validates that two amounts are the same, as the 1:1 peg asks. The context
/// names the place of the check and takes no part in the verdict.
pub fn validate_amounts_match(amount1: u64, amount2: u64, _context: &str) -> (r: ValidationResult<()>)
    ensures
        amount1 == amount2 ==> r == Ok::<(), ValidationError>(()),
        amount1 != amount2 ==> r == Err::<(), ValidationError>(
            ValidationError::InvalidAmount { amount: amount2, min: amount1, max: amount1 },
        ),
{
    if amount1 != amount2 {
        return Err(ValidationError::InvalidAmount { amount: amount2, min: amount1, max: amount1 });
    }
    Ok(())
}

/// Validates a whole deposit operation.
pub fn validate_deposit_operation(
    amount: u64,
    user_usdc_balance: u64,
    current_supply: u64,
) -> (r: ValidationResult<()>)
    ensures
        r == deposit_operation_verdict(amount, user_usdc_balance, current_supply),
{
    match validate_deposit_amount(amount) {
        Err(e) => {
            return Err(e);
        },
        Ok(()) => {},
    }
    if amount > user_usdc_balance {
        return Err(
            ValidationError::InsufficientBalance { required: amount, available: user_usdc_balance },
        );
    }
    validate_mint_supply_limit(amount, current_supply)
}

/// Validates a whole burn operation.
pub fn validate_burn_operation(
    amount: u64,
    user_usdv_balance: u64,
    vault_usdc_balance: u64,
) -> (r: ValidationResult<()>)
    ensures
        r == burn_operation_verdict(amount, user_usdv_balance, vault_usdc_balance),
{
    match validate_burn_amount(amount, user_usdv_balance) {
        Err(e) => {
            return Err(e);
        },
        Ok(()) => {},
    }
    if amount > vault_usdc_balance {
        return Err(
            ValidationError::InsufficientBalance {
                required: amount,
                available: vault_usdc_balance,
            },
        );
    }
    Ok(())
}

} // verus!
