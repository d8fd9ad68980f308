use solana_sdk::pubkey::Pubkey;
use usdv::{account_space, decode_account, pack, unpack, Identity, ProgramState, USDvError};

type Fields = (bool, [u8; 32], [u8; 32], [u8; 32], [u8; 32], u8, u64, u64);

fn unique() -> Identity {
    Identity::new_from_array(Pubkey::new_unique().to_bytes())
}

fn sample(initialized: bool, bump: u8, supply: u64, deposits: u64) -> ProgramState {
    ProgramState {
        is_initialized: initialized,
        admin: unique(),
        usdc_mint: unique(),
        usdv_mint: unique(),
        vault_authority: unique(),
        vault_bump: bump,
        total_usdv_supply: supply,
        total_usdc_deposits: deposits,
    }
}

fn fields(state: &ProgramState) -> Fields {
    (
        state.is_initialized,
        state.admin.to_bytes(),
        state.usdc_mint.to_bytes(),
        state.usdv_mint.to_bytes(),
        state.vault_authority.to_bytes(),
        state.vault_bump,
        state.total_usdv_supply,
        state.total_usdc_deposits,
    )
}

#[test]
fn record_has_its_exact_bytes() {
    let state = ProgramState {
        is_initialized: true,
        admin: Identity::new_from_array([1u8; 32]),
        usdc_mint: Identity::new_from_array([2u8; 32]),
        usdv_mint: Identity::new_from_array([3u8; 32]),
        vault_authority: Identity::new_from_array([4u8; 32]),
        vault_bump: 254,
        total_usdv_supply: 0x0102030405060708,
        total_usdc_deposits: 1_000_000,
    };
    let mut expected: Vec<u8> = vec![1];
    expected.extend_from_slice(&[1u8; 32]);
    expected.extend_from_slice(&[2u8; 32]);
    expected.extend_from_slice(&[3u8; 32]);
    expected.extend_from_slice(&[4u8; 32]);
    expected.push(254);
    expected.extend_from_slice(&[8, 7, 6, 5, 4, 3, 2, 1]);
    expected.extend_from_slice(&[0x40, 0x42, 0x0f, 0, 0, 0, 0, 0]);
    assert_eq!(pack(&state), expected);
    assert_eq!(expected.len(), 146);
    assert_eq!(expected.len() + 8, account_space::PROGRAM_STATE);
    assert_eq!(unpack(&expected), Ok(state));
}

#[test]
fn record_is_the_one_that_borsh_writes_and_reads() {
    let states = [
        sample(true, 255, 1_000_000, 1_000_000),
        sample(false, 0, 0, 0),
        sample(true, 7, u64::MAX, u64::MAX - 1),
        sample(true, 200, 1, 1 << 40),
    ];
    for state in states.iter() {
        let written = borsh::to_vec(&fields(state)).unwrap();
        assert_eq!(pack(state), written);
        let read: Fields = borsh::from_slice(&pack(state)).unwrap();
        assert_eq!(read, fields(state));
        assert_eq!(unpack(&written), Ok(*state));
    }
}

#[test]
fn what_is_written_is_read_back() {
    let state = sample(true, 254, 600_000, 600_000);
    assert_eq!(unpack(&pack(&state)), Ok(state));
    let mut other = state;
    other.total_usdc_deposits += 1;
    assert_ne!(pack(&other), pack(&state));
    assert_eq!(unpack(&pack(&other)), Ok(other));
}

#[test]
fn bytes_that_are_no_record_are_refused() {
    let state = sample(true, 254, 600_000, 600_000);
    let record = pack(&state);

    assert_eq!(unpack(&[]), Err(USDvError::SerializationError));
    assert_eq!(unpack(&record[..145]), Err(USDvError::SerializationError));
    let mut longer = record.clone();
    longer.push(0);
    assert_eq!(unpack(&longer), Err(USDvError::SerializationError));
    assert!(borsh::from_slice::<Fields>(&longer).is_err());

    let mut flagged = record.clone();
    flagged[0] = 2;
    assert_eq!(unpack(&flagged), Err(USDvError::SerializationError));
    assert!(borsh::from_slice::<Fields>(&flagged).is_err());
    flagged[0] = 255;
    assert_eq!(unpack(&flagged), Err(USDvError::SerializationError));
    flagged[0] = 0;
    let mut cleared = state;
    cleared.is_initialized = false;
    assert_eq!(unpack(&flagged), Ok(cleared));
}

#[test]
fn account_data_is_read_past_its_discriminator() {
    let state = sample(true, 251, 42, 42);
    let mut data: Vec<u8> = vec![77, 209, 137, 229, 149, 67, 167, 230];
    data.extend_from_slice(&pack(&state));
    assert_eq!(data.len(), account_space::PROGRAM_STATE);
    assert_eq!(decode_account(&data), Ok(state));

    // Too short for a discriminator.
    assert_eq!(decode_account(&[]), Err(USDvError::SerializationError));
    assert_eq!(decode_account(&data[..7]), Err(USDvError::SerializationError));
    // A discriminator and nothing, or too little, or too much, after it.
    assert_eq!(decode_account(&data[..8]), Err(USDvError::SerializationError));
    assert_eq!(decode_account(&data[..153]), Err(USDvError::SerializationError));
    data.push(0);
    assert_eq!(decode_account(&data), Err(USDvError::SerializationError));
    // The record itself is not account data.
    assert_eq!(decode_account(&pack(&state)), Err(USDvError::SerializationError));
}
