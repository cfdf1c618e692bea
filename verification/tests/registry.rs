use anchor_lang::prelude::Pubkey;
use mpl_core::accounts::BaseAssetV1;
use mpl_core::types::Key;
use nft_staking::authority::{collection_seeds, signer_seeds};
use nft_staking::errors::StakeError;
use nft_staking::identity::Identity;
use nft_staking::registry::{
    check_asset_account, check_collection_account, check_membership, check_ownership,
    decode_asset, registry_program, BaseAsset, FreezeRequest, RegistryAccount, UpdateAuthority,
    CORE_PROGRAM_ID,
};

fn encoded_asset(owner: [u8; 32], authority: mpl_core::types::UpdateAuthority) -> Vec<u8> {
    let asset = BaseAssetV1 {
        key: Key::AssetV1,
        owner: Pubkey::new_from_array(owner),
        update_authority: authority,
        name: String::from("Asset"),
        uri: String::from("https://example.com/asset.json"),
        seq: None,
    };
    anchor_lang::prelude::borsh::to_vec(&asset).unwrap()
}

#[test]
fn registry_program_is_the_registry_of_the_crate() {
    assert_eq!(CORE_PROGRAM_ID, mpl_core::ID.to_bytes());
    assert_eq!(registry_program().bytes, mpl_core::ID.to_bytes());
}

#[test]
fn decode_asset_reads_owner_and_collection() {
    let data = encoded_asset(
        [1u8; 32],
        mpl_core::types::UpdateAuthority::Collection(Pubkey::new_from_array([4u8; 32])),
    );
    assert_eq!(
        decode_asset(&data),
        Some(BaseAsset {
            owner: Identity::new([1u8; 32]),
            update_authority: UpdateAuthority::Collection(Identity::new([4u8; 32])),
        })
    );
}

#[test]
fn decode_asset_tells_the_authorities_apart() {
    let data = encoded_asset(
        [1u8; 32],
        mpl_core::types::UpdateAuthority::Address(Pubkey::new_from_array([5u8; 32])),
    );
    assert_eq!(
        decode_asset(&data).unwrap().update_authority,
        UpdateAuthority::Address(Identity::new([5u8; 32]))
    );
    let data = encoded_asset([1u8; 32], mpl_core::types::UpdateAuthority::None);
    assert_eq!(decode_asset(&data).unwrap().update_authority, UpdateAuthority::Nobody);
}

#[test]
fn decode_asset_reads_bytes_written_by_hand() {
    let mut data: Vec<u8> = vec![1];
    data.extend_from_slice(&[9u8; 32]);
    data.push(2);
    data.extend_from_slice(&[8u8; 32]);
    data.extend_from_slice(&2u32.to_le_bytes());
    data.extend_from_slice(b"ab");
    data.extend_from_slice(&0u32.to_le_bytes());
    data.push(0);
    data.extend_from_slice(&[0xff; 7]);
    assert_eq!(
        decode_asset(&data),
        Some(BaseAsset {
            owner: Identity::new([9u8; 32]),
            update_authority: UpdateAuthority::Collection(Identity::new([8u8; 32])),
        })
    );
}

#[test]
fn decode_asset_refuses_what_is_no_asset() {
    assert_eq!(decode_asset(&Vec::new()), None);
    assert_eq!(decode_asset(&vec![1u8; 20]), None);
    assert_eq!(decode_asset(&vec![200u8; 100]), None);
    let mut data = encoded_asset([1u8; 32], mpl_core::types::UpdateAuthority::None);
    data.truncate(40);
    assert_eq!(decode_asset(&data), None);
}

#[test]
fn asset_account_must_belong_to_the_registry() {
    let foreign = RegistryAccount {
        key: Identity::new([2u8; 32]),
        owner: Identity::new([0u8; 32]),
        data: vec![1, 2, 3],
    };
    assert_eq!(check_asset_account(&foreign), Err(StakeError::InvalidAsset));
    assert_eq!(check_collection_account(&foreign), Err(StakeError::InvalidCollection));
}

#[test]
fn asset_account_must_not_be_empty() {
    let empty = RegistryAccount {
        key: Identity::new([2u8; 32]),
        owner: registry_program(),
        data: Vec::new(),
    };
    assert_eq!(check_asset_account(&empty), Err(StakeError::AssetNotInitialized));
    assert_eq!(check_collection_account(&empty), Err(StakeError::CollectionNotInitialized));
    let foreign_and_empty = RegistryAccount { owner: Identity::new([0u8; 32]), ..empty };
    assert_eq!(check_asset_account(&foreign_and_empty), Err(StakeError::InvalidAsset));
    assert_eq!(check_collection_account(&foreign_and_empty), Err(StakeError::InvalidCollection));
}

#[test]
fn registry_accounts_pass() {
    let account = RegistryAccount {
        key: Identity::new([2u8; 32]),
        owner: registry_program(),
        data: vec![0],
    };
    assert_eq!(check_asset_account(&account), Ok(()));
    assert_eq!(check_collection_account(&account), Ok(()));
}

#[test]
fn ownership_goes_by_the_asset_record() {
    let holder = Identity::new([1u8; 32]);
    let asset = BaseAsset { owner: holder, update_authority: UpdateAuthority::Nobody };
    assert_eq!(check_ownership(&Some(asset), &holder), Ok(()));
    assert_eq!(
        check_ownership(&Some(asset), &Identity::new([2u8; 32])),
        Err(StakeError::NotOwner)
    );
    assert_eq!(check_ownership(&None, &holder), Err(StakeError::InvalidAsset));
}

#[test]
fn membership_goes_by_the_update_authority() {
    let holder = Identity::new([1u8; 32]);
    let collection = Identity::new([4u8; 32]);
    let member = BaseAsset { owner: holder, update_authority: UpdateAuthority::Collection(collection) };
    assert_eq!(check_membership(&Some(member), &collection), Ok(()));
    assert_eq!(check_membership(&Some(member), &holder), Err(StakeError::InvalidCollection));
    let addressed = BaseAsset { owner: holder, update_authority: UpdateAuthority::Address(collection) };
    assert_eq!(check_membership(&Some(addressed), &collection), Err(StakeError::InvalidCollection));
    let free = BaseAsset { owner: holder, update_authority: UpdateAuthority::Nobody };
    assert_eq!(check_membership(&Some(free), &collection), Err(StakeError::InvalidCollection));
    assert_eq!(check_membership(&None, &collection), Err(StakeError::InvalidAsset));
}

#[test]
fn freeze_request_signs_for_the_collection_record() {
    let collection = Identity::new([4u8; 32]);
    let request = FreezeRequest {
        asset: Identity::new([2u8; 32]),
        collection,
        payer: Identity::new([1u8; 32]),
        authority: Identity::new([6u8; 32]),
        frozen: false,
        authority_bump: Some(253),
    };
    assert_eq!(
        request.signer_seeds(),
        Some(signer_seeds(collection_seeds(&collection), 253))
    );
    assert_eq!(
        request.signer_seeds(),
        Some(vec![b"collection_info".to_vec(), vec![4u8; 32], vec![253u8]])
    );
    let by_holder = FreezeRequest { authority_bump: None, frozen: true, ..request };
    assert_eq!(by_holder.signer_seeds(), None);
}
