use std::str::FromStr;

use solana_sdk::pubkey::Pubkey;
use usdv::{Identity, DEVNET_PROGRAM_ID, MAINNET_PROGRAM_ID, VERSION};

#[test]
fn test_version_exists() {
    assert!(!VERSION.is_empty());
    println!("USDv Client Library version: {}", VERSION);
}

#[test]
fn test_program_ids_valid() {
    let mainnet_id = Pubkey::from_str(MAINNET_PROGRAM_ID);
    assert!(mainnet_id.is_ok());

    let devnet_id = Pubkey::from_str(DEVNET_PROGRAM_ID);
    assert!(devnet_id.is_ok());

    println!("Mainnet Program ID: {}", MAINNET_PROGRAM_ID);
    println!("Devnet Program ID: {}", DEVNET_PROGRAM_ID);
}

#[test]
fn program_ids_parse_to_the_same_bytes_as_the_chain_library_gives() {
    let expected = Pubkey::from_str(MAINNET_PROGRAM_ID).unwrap().to_bytes();
    assert_eq!(Identity::from_str(MAINNET_PROGRAM_ID).unwrap().to_bytes(), expected);
    assert_eq!(Identity::from_str(DEVNET_PROGRAM_ID).unwrap().to_bytes(), expected);
}
