use std::str::FromStr;

use solana_sdk::pubkey::Pubkey;
use usdv::{
    account_space, fees, Identity, DEVNET_USDC_MINT, MAINNET_USDC_MINT, MAX_DEPOSIT_AMOUNT,
    MAX_TOTAL_SUPPLY, MIN_DEPOSIT_AMOUNT, PROGRAM_STATE_SEED, USDC_DECIMALS, USDV_DECIMALS,
    VAULT_AUTHORITY_SEED,
};

#[test]
fn test_constants_validity() {
    // Test decimal consistency
    assert_eq!(USDC_DECIMALS, USDV_DECIMALS);

    // Test amount limits
    assert!(MIN_DEPOSIT_AMOUNT < MAX_DEPOSIT_AMOUNT);
    assert!(MAX_TOTAL_SUPPLY > MAX_DEPOSIT_AMOUNT);

    // Test account space
    assert!(account_space::PROGRAM_STATE > 0);
    assert!(account_space::PROGRAM_STATE < 10240); // Solana account size limit
}

#[test]
fn test_mint_addresses() {
    // Test that mint addresses are valid pubkeys
    let mainnet_mint = Pubkey::from_str(MAINNET_USDC_MINT);
    assert!(mainnet_mint.is_ok());

    let devnet_mint = Pubkey::from_str(DEVNET_USDC_MINT);
    assert!(devnet_mint.is_ok());

    // They should be different
    assert_ne!(mainnet_mint.unwrap(), devnet_mint.unwrap());
}

#[test]
fn test_fee_calculations() {
    assert!(fees::FEE_BASIS_POINTS <= fees::MAX_FEE_BASIS_POINTS);
    assert!(fees::MAX_FEE_BASIS_POINTS <= 10000); // 100% max
}

#[test]
fn amount_limits_have_their_exact_values() {
    assert_eq!(MAX_TOTAL_SUPPLY, 1_000_000_000 * 10_u64.pow(6));
    assert_eq!(MAX_DEPOSIT_AMOUNT, 1_000_000 * 10_u64.pow(6));
    assert_eq!(MIN_DEPOSIT_AMOUNT, 10_000);
    assert_eq!(account_space::PROGRAM_STATE, 154);
}

#[test]
fn seeds_spell_their_names() {
    assert_eq!(&VAULT_AUTHORITY_SEED[..], b"vault_authority");
    assert_eq!(&PROGRAM_STATE_SEED[..], b"program_state");
}

#[test]
fn mint_addresses_parse_through_the_library_too() {
    let mainnet = Identity::from_str(MAINNET_USDC_MINT).unwrap();
    let devnet = Identity::from_str(DEVNET_USDC_MINT).unwrap();
    assert_eq!(mainnet.to_bytes(), Pubkey::from_str(MAINNET_USDC_MINT).unwrap().to_bytes());
    assert_eq!(devnet.to_bytes(), Pubkey::from_str(DEVNET_USDC_MINT).unwrap().to_bytes());
    assert_ne!(mainnet, devnet);
}
