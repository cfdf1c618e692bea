use anchor_lang::prelude::Pubkey;
use nft_staking::authority::{
    collection_seeds, config_seeds, is_canonical, is_derived, resolve, rewards_seeds,
    signer_seeds, stake_seeds, user_seeds, verify, verify_canonical, verify_collection_info,
    verify_config, verify_reward_mint, verify_stake_account, verify_user_account,
};
use nft_staking::identity::Identity;
use nft_staking::state::{Account, CollectionInfo, StakeConfig, UserAccount};

fn staking_program() -> Identity {
    Identity::new([7u8; 32])
}

fn program_key() -> Pubkey {
    Pubkey::new_from_array([7u8; 32])
}

fn config_record(bump: u8, rewards_bump: u8) -> StakeConfig {
    StakeConfig { points_per_stake: 5, max_stake: 3, freeze_period: 100, rewards_bump, bump }
}

#[test]
fn identity_equality_compares_every_byte() {
    let a = Identity::new([3u8; 32]);
    let mut bytes = [3u8; 32];
    assert!(a == Identity::new(bytes));
    bytes[31] = 4;
    assert!(a != Identity::new(bytes));
    bytes[31] = 3;
    bytes[0] = 0;
    assert!(a != Identity::new(bytes));
}

#[test]
fn identity_to_vec_gives_its_bytes() {
    let mut bytes = [0u8; 32];
    for (i, b) in bytes.iter_mut().enumerate() {
        *b = i as u8;
    }
    assert_eq!(Identity::new(bytes).to_vec(), bytes.to_vec());
}

#[test]
fn seeds_start_with_their_tag() {
    let holder = Identity::new([1u8; 32]);
    let asset = Identity::new([2u8; 32]);
    let config = Identity::new([3u8; 32]);
    let collection = Identity::new([4u8; 32]);
    assert_eq!(config_seeds(), vec![b"config".to_vec()]);
    assert_eq!(user_seeds(&holder), vec![b"user".to_vec(), vec![1u8; 32]]);
    assert_eq!(
        stake_seeds(&config, &asset),
        vec![b"stake".to_vec(), vec![3u8; 32], vec![2u8; 32]]
    );
    assert_eq!(
        collection_seeds(&collection),
        vec![b"collection_info".to_vec(), vec![4u8; 32]]
    );
    assert_eq!(rewards_seeds(&config), vec![b"rewards".to_vec(), vec![3u8; 32]]);
}

#[test]
fn signer_seeds_end_with_the_bump() {
    assert_eq!(
        signer_seeds(config_seeds(), 254),
        vec![b"config".to_vec(), vec![254u8]]
    );
    assert_eq!(signer_seeds(Vec::new(), 0), vec![vec![0u8]]);
}

#[test]
fn derive_finds_what_the_runtime_finds() {
    let (expected, expected_bump) = Pubkey::find_program_address(&[b"config"], &program_key());
    let (found, bump) = nft_staking::authority::derive(&config_seeds(), &staking_program()).unwrap();
    assert_eq!(found.bytes, expected.to_bytes());
    assert_eq!(bump, expected_bump);
    assert!(found != staking_program());

    let holder = Identity::new([1u8; 32]);
    let (expected, expected_bump) =
        Pubkey::find_program_address(&[b"user", &[1u8; 32]], &program_key());
    let (found, bump) = nft_staking::authority::derive(&user_seeds(&holder), &staking_program()).unwrap();
    assert_eq!(found.bytes, expected.to_bytes());
    assert_eq!(bump, expected_bump);
}

#[test]
fn derive_depends_on_seeds_and_program() {
    let a = nft_staking::authority::derive(&user_seeds(&Identity::new([1u8; 32])), &staking_program()).unwrap();
    let b = nft_staking::authority::derive(&user_seeds(&Identity::new([2u8; 32])), &staking_program()).unwrap();
    let c = nft_staking::authority::derive(&user_seeds(&Identity::new([1u8; 32])), &Identity::new([8u8; 32])).unwrap();
    assert!(a.0 != b.0);
    assert!(a.0 != c.0);
}

#[test]
fn derive_refuses_a_seed_that_is_too_long() {
    let seeds = vec![vec![0u8; 33]];
    assert_eq!(nft_staking::authority::derive(&seeds, &staking_program()), None);
    assert_eq!(resolve(seeds, 255, &staking_program()), None);
}

#[test]
fn derive_refuses_too_many_seeds() {
    let seeds: Vec<Vec<u8>> = (0..16).map(|i| vec![i as u8]).collect();
    assert_eq!(nft_staking::authority::derive(&seeds, &staking_program()), None);
    assert_eq!(resolve(seeds, 255, &staking_program()), None);
}

#[test]
fn resolve_makes_what_the_runtime_makes() {
    let (_, bump) = Pubkey::find_program_address(&[b"config"], &program_key());
    let expected = Pubkey::create_program_address(&[b"config", &[bump]], &program_key()).unwrap();
    let made = resolve(config_seeds(), bump, &staking_program()).unwrap();
    assert_eq!(made.bytes, expected.to_bytes());
}

#[test]
fn a_derived_identity_verifies_with_its_bump() {
    let asset = Identity::new([2u8; 32]);
    let config = Identity::new([3u8; 32]);
    let seeds = stake_seeds(&config, &asset);
    let (found, bump) = nft_staking::authority::derive(&seeds, &staking_program()).unwrap();
    assert_eq!(resolve(stake_seeds(&config, &asset), bump, &staking_program()), Some(found));
    assert!(verify(stake_seeds(&config, &asset), bump, &staking_program(), &found));
    assert!(verify_canonical(&seeds, bump, &staking_program(), &found));
    assert!(verify_stake_account(&staking_program(), &config, &asset, &found, bump));
}

#[test]
fn a_wrong_bump_or_identity_does_not_verify() {
    let seeds = config_seeds();
    let (found, bump) = nft_staking::authority::derive(&seeds, &staking_program()).unwrap();
    let other = Identity::new([9u8; 32]);
    assert!(!verify(config_seeds(), bump, &staking_program(), &other));
    assert!(!verify(config_seeds(), bump.wrapping_sub(1), &staking_program(), &found));
    assert!(!verify(config_seeds(), bump, &other, &found));
    assert!(!verify_canonical(&seeds, bump, &staking_program(), &other));
    assert!(!verify_canonical(&seeds, bump.wrapping_sub(1), &staking_program(), &found));
}

#[test]
fn a_bump_that_is_not_the_first_is_not_canonical() {
    let seeds = config_seeds();
    let (_, bump) = nft_staking::authority::derive(&seeds, &staking_program()).unwrap();
    let mut lower = bump;
    let mut made = None;
    while lower > 0 && made.is_none() {
        lower -= 1;
        made = resolve(config_seeds(), lower, &staking_program());
    }
    let made = made.unwrap();
    assert!(verify(config_seeds(), lower, &staking_program(), &made));
    assert!(!verify_canonical(&seeds, lower, &staking_program(), &made));
}

#[test]
fn is_derived_compares_with_what_was_made() {
    let a = Identity::new([1u8; 32]);
    let b = Identity::new([2u8; 32]);
    assert!(is_derived(&Some(a), &a));
    assert!(!is_derived(&Some(a), &b));
    assert!(!is_derived(&None, &a));
}

#[test]
fn is_canonical_compares_identity_and_bump() {
    let a = Identity::new([1u8; 32]);
    let b = Identity::new([2u8; 32]);
    assert!(is_canonical(&Some((a, 250)), &a, 250));
    assert!(!is_canonical(&Some((a, 250)), &a, 249));
    assert!(!is_canonical(&Some((a, 250)), &b, 250));
    assert!(!is_canonical(&None, &a, 250));
}

#[test]
fn records_verify_at_their_derived_identities() {
    let holder = Identity::new([1u8; 32]);
    let collection = Identity::new([4u8; 32]);
    let (config_key, config_bump) = nft_staking::authority::derive(&config_seeds(), &staking_program()).unwrap();
    let (mint_key, rewards_bump) = nft_staking::authority::derive(&rewards_seeds(&config_key), &staking_program()).unwrap();
    let (ledger_key, ledger_bump) = nft_staking::authority::derive(&user_seeds(&holder), &staking_program()).unwrap();
    let (info_key, info_bump) = nft_staking::authority::derive(&collection_seeds(&collection), &staking_program()).unwrap();

    let config = Account { key: config_key, record: config_record(config_bump, rewards_bump) };
    assert!(verify_config(&staking_program(), &config));
    assert!(verify_reward_mint(&staking_program(), &config, &mint_key));
    assert!(!verify_reward_mint(&staking_program(), &config, &ledger_key));
    let moved = Account { key: ledger_key, record: config.record };
    assert!(!verify_config(&staking_program(), &moved));

    let ledger = Account {
        key: ledger_key,
        record: UserAccount { points: 0, amount_staked: 0, bump: ledger_bump },
    };
    assert!(verify_user_account(&staking_program(), &holder, &ledger));
    assert!(!verify_user_account(&staking_program(), &collection, &ledger));

    let info = Account { key: info_key, record: CollectionInfo { bump: info_bump } };
    assert!(verify_collection_info(&staking_program(), &collection, &info));
    assert!(!verify_collection_info(&staking_program(), &holder, &info));
}
