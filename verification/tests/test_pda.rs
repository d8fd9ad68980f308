use std::str::FromStr;

use solana_sdk::pubkey::Pubkey;
use usdv::{
    derive_authority, find_derived_address, rederive_authority, verify_authority,
    DerivationError, Identity, ParseIdentityError, USDvError,
};

const PROGRAM_ID: &str = "USDvCoinProgram1111111111111111111111111111";

#[test]
fn test_pda_derivations() {
    let program_id = Identity::from_str(PROGRAM_ID).unwrap();

    let (vault_authority, vault_bump) = derive_authority(&program_id, b"vault_authority").unwrap();

    let (vault_authority_2, vault_bump_2) =
        derive_authority(&program_id, b"vault_authority").unwrap();

    assert_eq!(vault_authority, vault_authority_2);
    assert_eq!(vault_bump, vault_bump_2);

    println!("PDA derivation test passed!");
}

#[test]
fn derivation_agrees_with_the_chain_library() {
    let program = Pubkey::from_str(PROGRAM_ID).unwrap();
    let (expected, expected_bump) = Pubkey::find_program_address(&[b"vault_authority"], &program);
    let program_id = Identity::new_from_array(program.to_bytes());
    let (authority, bump) = derive_authority(&program_id, b"vault_authority").unwrap();
    assert_eq!(authority.to_bytes(), expected.to_bytes());
    assert_eq!(bump, expected_bump);
    assert_ne!(authority, program_id);
    assert_ne!(authority, Identity::new_from_array([0u8; 32]));
}

#[test]
fn derivation_depends_on_seed_and_program() {
    let program_id = Identity::from_str(PROGRAM_ID).unwrap();
    let other_program = Identity::new_from_array([7u8; 32]);
    let (vault, _) = derive_authority(&program_id, b"vault_authority").unwrap();
    let (state, _) = derive_authority(&program_id, b"program_state").unwrap();
    let (foreign, _) = derive_authority(&other_program, b"vault_authority").unwrap();
    assert_ne!(vault, state);
    assert_ne!(vault, foreign);
}

#[test]
fn derived_authority_is_confirmed_by_its_bump_seed_only() {
    let program_id = Identity::from_str(PROGRAM_ID).unwrap();
    let (authority, bump) = derive_authority(&program_id, b"vault_authority").unwrap();
    assert!(verify_authority(&program_id, b"vault_authority", bump, &authority));
    assert!(!verify_authority(&program_id, b"vault_authority", bump, &program_id));
    assert!(!verify_authority(&program_id, b"vault_authoritx", bump, &authority));
    assert!(!verify_authority(&Identity::new_from_array([9u8; 32]), b"vault_authority", bump, &authority));
    if bump > 0 {
        assert!(!verify_authority(&program_id, b"vault_authority", bump - 1, &authority));
    }
}

#[test]
fn seed_that_is_too_long_derives_nothing() {
    let program_id = Identity::from_str(PROGRAM_ID).unwrap();
    let seed = [1u8; 33];
    assert_eq!(derive_authority(&program_id, &seed), Err(USDvError::NoValidDerivation));
    assert!(!verify_authority(&program_id, &seed, 255, &program_id));
    assert!(derive_authority(&program_id, &[1u8; 32]).is_ok());
    assert!(derive_authority(&program_id, &[]).is_ok());
}

#[test]
fn text_form_is_parsed_or_rejected_with_its_reason() {
    assert_eq!(
        Identity::from_str("11111111111111111111111111111111"),
        Ok(Identity::new_from_array([0u8; 32]))
    );
    assert_eq!(Identity::system_program(), Identity::new_from_array([0u8; 32]));
    // Forty-four characters that stand for thirty-three bytes.
    assert_eq!(
        Identity::from_str("USDvCoinProgram11111111111111111111111111111"),
        Err(ParseIdentityError::WrongSize)
    );
    assert_eq!(Identity::from_str(""), Err(ParseIdentityError::WrongSize));
    assert_eq!(
        Identity::from_str("0OIl111111111111111111111111111111111111111"),
        Err(ParseIdentityError::Invalid)
    );
    let wrapped_sol = Identity::from_str("So11111111111111111111111111111111111111112").unwrap();
    assert_eq!(
        wrapped_sol.to_bytes(),
        Pubkey::from_str("So11111111111111111111111111111111111111112").unwrap().to_bytes()
    );
}

#[test]
fn bump_seed_is_the_first_from_the_top_that_derives() {
    for seed in [&b"vault_authority"[..], &b"program_state"[..], &b""[..], &[255u8; 32][..]] {
        for program in [[7u8; 32], [0u8; 32], Pubkey::new_unique().to_bytes()] {
            let program_id = Identity::new_from_array(program);
            let (authority, bump) = derive_authority(&program_id, seed).unwrap();
            assert_eq!(rederive_authority(&program_id, seed, bump), Ok(authority));
            let mut larger = 255u8;
            while larger > bump {
                assert_eq!(
                    rederive_authority(&program_id, seed, larger),
                    Err(DerivationError::InvalidSeeds)
                );
                larger -= 1;
            }
        }
    }
}

#[test]
fn rederivation_agrees_with_the_chain_library() {
    let program = Pubkey::from_str(PROGRAM_ID).unwrap();
    let program_id = Identity::new_from_array(program.to_bytes());
    for bump in 0..=255u8 {
        let expected = Pubkey::create_program_address(&[b"vault_authority", &[bump]], &program);
        let derived = rederive_authority(&program_id, b"vault_authority", bump);
        match expected {
            Ok(key) => assert_eq!(derived, Ok(Identity::new_from_array(key.to_bytes()))),
            Err(_) => assert_eq!(derived, Err(DerivationError::InvalidSeeds)),
        }
    }
    assert_eq!(
        rederive_authority(&program_id, &[0u8; 33], 255),
        Err(DerivationError::MaxSeedLengthExceeded)
    );
}

#[test]
fn test_program_initialization() {
    let program_id = Identity::from_str(PROGRAM_ID).unwrap();

    // Derive vault authority PDA
    let (vault_authority, vault_bump) = derive_authority(&program_id, b"vault_authority").unwrap();

    println!("Program ID: {}", PROGRAM_ID);
    println!("Vault Authority: {:?}", vault_authority);
    println!("Vault Bump: {}", vault_bump);

    assert!(vault_bump <= 255);
    assert!(vault_authority != Identity::new_from_array([0u8; 32]));
}

#[test]
fn search_agrees_with_the_chain_library() {
    let programs = [
        Pubkey::from_str(PROGRAM_ID).unwrap(),
        Pubkey::new_from_array([0u8; 32]),
        Pubkey::new_unique(),
        Pubkey::new_unique(),
    ];
    let lists: [Vec<Vec<u8>>; 5] = [
        vec![],
        vec![b"vault_authority".to_vec()],
        vec![b"a".to_vec(), vec![], b"c".to_vec()],
        vec![vec![9u8; 32], vec![8u8; 32], vec![7u8; 32]],
        vec![vec![1u8]; 15],
    ];
    for program in programs.iter() {
        let program_id = Identity::new_from_array(program.to_bytes());
        for seeds in lists.iter() {
            let slices: Vec<&[u8]> = seeds.iter().map(|seed| seed.as_slice()).collect();
            let (expected, expected_bump) = Pubkey::find_program_address(&slices, program);
            assert_eq!(
                find_derived_address(seeds, &program_id),
                Some((Identity::new_from_array(expected.to_bytes()), expected_bump))
            );
        }
    }
}

#[test]
fn search_settles_on_nothing_where_nothing_can_be_derived() {
    let program_id = Identity::from_str(PROGRAM_ID).unwrap();
    // A seed of more than thirty-two bytes.
    assert_eq!(find_derived_address(&vec![vec![0u8; 33]], &program_id), None);
    // Sixteen seeds leave no room for the bump seed.
    assert_eq!(find_derived_address(&vec![vec![1u8]; 16], &program_id), None);
    assert!(find_derived_address(&vec![vec![1u8]; 15], &program_id).is_some());
    assert_eq!(derive_authority(&program_id, &[0u8; 33]), Err(USDvError::NoValidDerivation));
    for bump in [255u8, 128, 1, 0] {
        assert_eq!(
            rederive_authority(&program_id, &[0u8; 33], bump),
            Err(DerivationError::MaxSeedLengthExceeded)
        );
    }
}
