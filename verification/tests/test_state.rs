use solana_sdk::pubkey::Pubkey;
use usdv::{CollateralizationRatio, Identity, ProgramState};

fn unique() -> Identity {
    Identity::new_from_array(Pubkey::new_unique().to_bytes())
}

fn as_float(ratio: CollateralizationRatio) -> Option<f64> {
    match ratio {
        CollateralizationRatio::Infinite => Some(f64::INFINITY),
        CollateralizationRatio::Finite { deposits, supply } => Some(deposits as f64 / supply as f64),
    }
}

#[test]
fn test_program_state_peg_maintenance() {
    let mut state = ProgramState {
        is_initialized: true,
        admin: unique(),
        usdc_mint: unique(),
        usdv_mint: unique(),
        vault_authority: unique(),
        vault_bump: 255,
        total_usdv_supply: 1000,
        total_usdc_deposits: 1000,
    };

    // Test 1:1 peg maintenance
    assert!(state.is_peg_maintained());
    assert_eq!(as_float(state.collateralization_ratio()), Some(1.0));

    // Test broken peg
    state.total_usdc_deposits = 900;
    assert!(!state.is_peg_maintained());
    assert_eq!(as_float(state.collateralization_ratio()), Some(0.9));

    // Test over-collateralized
    state.total_usdc_deposits = 1100;
    assert!(!state.is_peg_maintained());
    assert_eq!(as_float(state.collateralization_ratio()), Some(1.1));
}

#[test]
fn test_max_additional_mint() {
    let state = ProgramState {
        is_initialized: true,
        admin: unique(),
        usdc_mint: unique(),
        usdv_mint: unique(),
        vault_authority: unique(),
        vault_bump: 255,
        total_usdv_supply: 500,
        total_usdc_deposits: 500,
    };

    assert_eq!(state.max_additional_mint(1000), 500);
    assert_eq!(state.max_additional_mint(500), 0);
    assert_eq!(state.max_additional_mint(300), 0);
}

#[test]
fn ratio_is_infinite_while_nothing_circulates() {
    let state = ProgramState {
        is_initialized: true,
        admin: unique(),
        usdc_mint: unique(),
        usdv_mint: unique(),
        vault_authority: unique(),
        vault_bump: 254,
        total_usdv_supply: 0,
        total_usdc_deposits: 0,
    };
    assert!(state.is_peg_maintained());
    assert_eq!(state.collateralization_ratio(), CollateralizationRatio::Infinite);
    assert_eq!(as_float(state.collateralization_ratio()), Some(f64::INFINITY));
    assert_eq!(state.max_additional_mint(0), 0);
    assert_eq!(state.max_additional_mint(u64::MAX), u64::MAX);
}

#[test]
fn ratio_keeps_both_counters_exactly() {
    let state = ProgramState {
        is_initialized: true,
        admin: unique(),
        usdc_mint: unique(),
        usdv_mint: unique(),
        vault_authority: unique(),
        vault_bump: 1,
        total_usdv_supply: 3,
        total_usdc_deposits: u64::MAX,
    };
    assert_eq!(
        state.collateralization_ratio(),
        CollateralizationRatio::Finite { deposits: u64::MAX, supply: 3 }
    );
}
