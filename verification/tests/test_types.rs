use solana_sdk::pubkey::Pubkey;
use usdv::{
    BurnResult, ClientConfig, CollateralizationRatio, DepositResult, Identity, ProgramState,
    ProgramStateInfo, SystemHealth, TokenBalance, TransactionInfo, TransactionStatus,
    UserAccountInfo,
};

fn unique() -> Identity {
    Identity::new_from_array(Pubkey::new_unique().to_bytes())
}

fn state(initialized: bool, supply: u64, deposits: u64) -> ProgramStateInfo {
    ProgramState {
        is_initialized: initialized,
        admin: unique(),
        usdc_mint: unique(),
        usdv_mint: unique(),
        vault_authority: unique(),
        vault_bump: 253,
        total_usdv_supply: supply,
        total_usdc_deposits: deposits,
    }
}

#[test]
fn state_is_healthy_when_initialized_and_pegged() {
    assert!(state(true, 5, 5).is_healthy());
    assert!(state(true, 0, 0).is_healthy());
    assert!(!state(false, 5, 5).is_healthy());
    assert!(!state(true, 5, 6).is_healthy());
    assert!(!state(true, 6, 5).is_healthy());
}

#[test]
fn health_reading_copies_the_state() {
    let ledger = state(true, 2_000_000, 2_000_000);
    let health = SystemHealth::new(ledger, 1_700_000_000);
    assert_eq!(health.program_state, ledger);
    assert!(health.is_healthy);
    assert_eq!(health.total_value_locked, 2_000_000);
    assert_eq!(
        health.collateralization_ratio,
        CollateralizationRatio::Finite { deposits: 2_000_000, supply: 2_000_000 }
    );
    assert_eq!(health.last_updated, 1_700_000_000);
    assert!(!health.is_at_risk());
    assert_eq!(health.risk_level(), "LOW");
}

#[test]
fn health_reading_of_now_differs_only_in_its_moment() {
    let ledger = state(true, 7, 7);
    let now = chrono::Utc::now().timestamp();
    let health = SystemHealth::new(ledger, now);
    assert_eq!(health.last_updated, now);
    assert_eq!(health, SystemHealth { last_updated: now, ..SystemHealth::new(ledger, 0) });
    // A moment before the epoch is a moment like any other.
    let early = SystemHealth::new(ledger, -1);
    assert_eq!(early.last_updated, -1);
    assert!(early.is_healthy);
    assert_eq!(SystemHealth::new(ledger, i64::MIN).last_updated, i64::MIN);
    assert_eq!(SystemHealth::new(ledger, i64::MAX).last_updated, i64::MAX);
}

#[test]
fn risk_levels() {
    let empty = SystemHealth::new(state(true, 0, 0), 0);
    assert_eq!(empty.collateralization_ratio, CollateralizationRatio::Infinite);
    assert_eq!(empty.risk_level(), "LOW");
    assert!(!empty.is_at_risk());

    let broken = SystemHealth::new(state(true, 1000, 900), 0);
    assert!(!broken.is_healthy);
    assert_eq!(broken.risk_level(), "CRITICAL");
    assert!(broken.is_at_risk());

    let uninitialized = SystemHealth::new(state(false, 0, 0), 0);
    assert_eq!(uninitialized.risk_level(), "CRITICAL");
    assert!(uninitialized.is_at_risk());

    // Readings put together by hand.
    let mut reading = SystemHealth::new(state(true, 1000, 1000), 0);
    reading.collateralization_ratio = CollateralizationRatio::Finite { deposits: 949, supply: 1000 };
    assert_eq!(reading.risk_level(), "HIGH");
    assert!(reading.is_at_risk());
    reading.collateralization_ratio = CollateralizationRatio::Finite { deposits: 950, supply: 1000 };
    assert_eq!(reading.risk_level(), "MEDIUM");
    assert!(reading.is_at_risk());
    reading.collateralization_ratio = CollateralizationRatio::Finite { deposits: 999, supply: 1000 };
    assert_eq!(reading.risk_level(), "MEDIUM");
    reading.collateralization_ratio = CollateralizationRatio::Finite { deposits: 1000, supply: 1000 };
    assert_eq!(reading.risk_level(), "LOW");
    assert!(!reading.is_at_risk());
    reading.collateralization_ratio = CollateralizationRatio::Finite { deposits: u64::MAX, supply: 1 };
    assert_eq!(reading.risk_level(), "LOW");
    reading.collateralization_ratio = CollateralizationRatio::Finite { deposits: 0, supply: u64::MAX };
    assert_eq!(reading.risk_level(), "HIGH");
    reading.collateralization_ratio =
        CollateralizationRatio::Finite { deposits: u64::MAX - 1, supply: u64::MAX };
    assert_eq!(reading.risk_level(), "MEDIUM");
}

#[test]
fn ratio_is_compared_by_cross_products() {
    let ratio = CollateralizationRatio::Finite { deposits: 19, supply: 20 };
    assert!(!ratio.is_below(95, 100));
    assert!(ratio.is_below(96, 100));
    assert!(ratio.is_below(1, 1));
    assert!(!ratio.is_below(0, 1));
    assert!(!CollateralizationRatio::Infinite.is_below(u64::MAX, 1));
    let large = CollateralizationRatio::Finite { deposits: u64::MAX, supply: u64::MAX };
    assert!(!large.is_below(u64::MAX, u64::MAX));
    assert!(large.is_below(u64::MAX, u64::MAX - 1));
}

#[test]
fn token_balance_questions() {
    let balance = TokenBalance::new(unique(), unique(), 1_500_000, 6);
    assert_eq!(balance.amount, 1_500_000);
    assert_eq!(balance.decimals, 6);
    assert!(!balance.is_zero());
    assert!(balance.is_sufficient(1_500_000));
    assert!(!balance.is_sufficient(1_500_001));
    let nothing = TokenBalance::new(balance.mint, balance.account, 0, 6);
    assert!(nothing.is_zero());
    assert!(nothing.is_sufficient(0));
    assert!(!nothing.is_sufficient(1));
    let info = UserAccountInfo::new(unique(), balance, nothing);
    assert_eq!(info.usdc_balance, balance);
    assert_eq!(info.usdv_balance, nothing);
    assert!(info.can_deposit(1_500_000));
    assert!(!info.can_burn(1));
    assert!(info.can_burn(0));
}

#[test]
fn default_client_config() {
    let config = ClientConfig::default();
    assert_eq!(config.max_retries, 3);
    assert_eq!(config.retry_delay_ms, 1000);
    assert_eq!(config.timeout_seconds, 30);
    assert!(config.use_confirmed_commitment);
    assert!(!config.skip_preflight);
}

#[test]
fn results_hold_what_they_are_given() {
    let transaction = TransactionInfo {
        signature: "5h6x".to_string(),
        status: TransactionStatus::Failed("insufficient funds".to_string()),
        block_height: Some(12),
        confirmation_time: None,
        fee: Some(5000),
    };
    let deposit = DepositResult {
        transaction: transaction.clone(),
        usdc_deposited: 10,
        usdv_minted: 10,
        new_usdc_balance: 90,
        new_usdv_balance: 10,
    };
    let burn = BurnResult {
        transaction: transaction.clone(),
        usdv_burned: 4,
        usdc_withdrawn: 4,
        new_usdc_balance: 94,
        new_usdv_balance: 6,
    };
    assert_eq!(deposit.clone().transaction, transaction);
    assert_eq!(burn.clone(), burn);
    assert_ne!(transaction.status, TransactionStatus::Pending);
    assert_ne!(TransactionStatus::Confirmed, TransactionStatus::Finalized);
}
