use usdv::{checked_add, checked_mul, checked_sub, USDvError};

#[test]
fn checked_add_gives_the_sum_or_overflow() {
    assert_eq!(checked_add(1000, 2000), Ok(3000));
    assert_eq!(checked_add(0, 0), Ok(0));
    assert_eq!(checked_add(u64::MAX, 0), Ok(u64::MAX));
    assert_eq!(checked_add(u64::MAX - 1, 1), Ok(u64::MAX));
    assert_eq!(checked_add(u64::MAX, 1), Err(USDvError::ArithmeticOverflow));
    assert_eq!(checked_add(1, u64::MAX), Err(USDvError::ArithmeticOverflow));
    assert_eq!(checked_add(u64::MAX, u64::MAX), Err(USDvError::ArithmeticOverflow));
}

#[test]
fn checked_sub_gives_the_difference_or_underflow() {
    assert_eq!(checked_sub(2000, 500), Ok(1500));
    assert_eq!(checked_sub(7, 7), Ok(0));
    assert_eq!(checked_sub(u64::MAX, u64::MAX), Ok(0));
    assert_eq!(checked_sub(0, 1), Err(USDvError::ArithmeticUnderflow));
    assert_eq!(checked_sub(6, 7), Err(USDvError::ArithmeticUnderflow));
}

#[test]
fn checked_mul_gives_the_product_or_overflow() {
    assert_eq!(checked_mul(1000, 1000), Ok(1_000_000));
    assert_eq!(checked_mul(0, u64::MAX), Ok(0));
    assert_eq!(checked_mul(u64::MAX, 1), Ok(u64::MAX));
    assert_eq!(checked_mul(1 << 32, 1 << 31), Ok(1 << 63));
    assert_eq!(checked_mul(1 << 32, 1 << 32), Err(USDvError::ArithmeticOverflow));
    assert_eq!(checked_mul(u64::MAX, 2), Err(USDvError::ArithmeticOverflow));
}

#[test]
fn error_codes_follow_the_order_of_the_list() {
    assert_eq!(USDvError::InvalidUSDCMint.code(), 0);
    assert_eq!(USDvError::InvalidUSDCMint.code(), USDvError::InvalidUSDCMint as u32);
    assert_eq!(USDvError::ArithmeticOverflow.code(), USDvError::ArithmeticOverflow as u32);
    assert_eq!(USDvError::InternalError.code(), 24);
    assert_eq!(USDvError::InternalError.code(), USDvError::InternalError as u32);
    assert_eq!(USDvError::SupplyLimitExceeded.code(), USDvError::SupplyLimitExceeded as u32);
}

#[test]
fn test_error_conversion() {
    let error = USDvError::InvalidUSDCMint;
    let program_error = solana_sdk::program_error::ProgramError::Custom(error.code());

    match program_error {
        solana_sdk::program_error::ProgramError::Custom(code) => {
            assert_eq!(code, USDvError::InvalidUSDCMint as u32);
        }
        _ => panic!("Expected Custom error"),
    }
}
