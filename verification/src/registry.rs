//! The asset registry as the transitions see it: the records it keeps of an
//! asset and of a collection, what an asset record says of its owner and its
//! collection, and the request to freeze or unfreeze an asset.

use vstd::prelude::*;
use mpl_core::accounts::BaseAssetV1;
use crate::authority::collection_seeds;
use crate::authority::seed_bytes;
use crate::authority::signer_seeds;
use crate::authority::spec_collection_seeds;
use crate::authority::with_bump;
use crate::errors::Checked;
use crate::errors::StakeError;
use crate::identity::Identity;

verus! {

/// The error of `BaseAssetV1::from_bytes`. Nothing is said of what it
/// holds.
#[verifier::external_type_specification]
#[verifier::external_body]
pub struct ExIoError(std::io::Error);

/// The identity of the asset registry program.
pub const CORE_PROGRAM_ID: [u8; 32] = [
    175, 84, 171, 16, 189, 151, 165, 66, 160, 158, 247, 179, 152, 137, 221, 12,
    211, 148, 164, 204, 233, 223, 166, 205, 201, 126, 190, 45, 35, 91, 167, 72,
];

/// A record of another program, as it is presented to a transition: where it
/// is kept, which program it belongs to, and its bytes.
#[derive(Clone, Debug, PartialEq, Eq)]
pub struct RegistryAccount {
    pub key: Identity,
    pub owner: Identity,
    pub data: Vec<u8>,
}

/// Who may update an asset.
#[derive(Clone, Copy, Debug, PartialEq, Eq)]
pub enum UpdateAuthority {
    /// Nobody may update the asset.
    Nobody,
    /// This identity may update the asset.
    Address(Identity),
    /// The asset is a member of this collection.
    Collection(Identity),
}

/// What an asset record says of the asset's owner and update authority.
#[derive(Clone, Copy, Debug, PartialEq, Eq)]
pub struct BaseAsset {
    pub owner: Identity,
    pub update_authority: UpdateAuthority,
}

/// The request to the asset registry to set the freeze flag of an asset.
#[derive(Clone, Copy, Debug, PartialEq, Eq)]
pub struct FreezeRequest {
    pub asset: Identity,
    pub collection: Identity,
    /// Who pays for the change.
    pub payer: Identity,
    /// In whose name the flag is set.
    pub authority: Identity,
    /// The flag's new value: `true` stops transfers of the asset.
    pub frozen: bool,
    /// `None` where the authority has signed for itself; else the bump with
    /// which the program signs for the collection's authority record.
    pub authority_bump: Option<u8>,
}

/// The owner and update authority that `BaseAssetV1::from_bytes` reads from
/// `data`, or `None` where it reports an error.
pub uninterp spec fn decoded_asset(data: Seq<u8>) -> Option<BaseAsset>;

/// Calls `BaseAssetV1::from_bytes` on the bytes of an asset record and keeps
/// the owner and the update authority. Trusted: the outcome is a function of
/// the bytes alone, named `decoded_asset`; an error of the call is `None`
/// there.
#[verifier::external_body]
fn read_asset(data: &Vec<u8>) -> (read: Result<BaseAsset, std::io::Error>)
    ensures
        match read {
            Ok(asset) => decoded_asset(data@) == Some(asset),
            Err(_) => decoded_asset(data@) is None,
        },
{
    let asset = BaseAssetV1::from_bytes(data.as_slice())?;
    let update_authority = match asset.update_authority {
        mpl_core::types::UpdateAuthority::None => UpdateAuthority::Nobody,
        mpl_core::types::UpdateAuthority::Address(address) => UpdateAuthority::Address(
            Identity { bytes: address.to_bytes() },
        ),
        mpl_core::types::UpdateAuthority::Collection(collection) => UpdateAuthority::Collection(
            Identity { bytes: collection.to_bytes() },
        ),
    };
    Ok(BaseAsset { owner: Identity { bytes: asset.owner.to_bytes() }, update_authority })
}

/// The asset registry program.
pub open spec fn spec_registry_program() -> Identity {
    Identity { bytes: CORE_PROGRAM_ID }
}

/// The asset registry program.
pub fn registry_program() -> (program: Identity)
    ensures
        program == spec_registry_program(),
{
    Identity { bytes: CORE_PROGRAM_ID }
}

/// What the asset record says, or `None` where it cannot be read.
pub fn decode_asset(data: &Vec<u8>) -> (asset: Option<BaseAsset>)
    ensures
        asset == decoded_asset(data@),
{
    match read_asset(data) {
        Ok(asset) => Some(asset),
        Err(_) => None,
    }
}

/// An asset record belongs to the registry and is not empty.
pub open spec fn asset_account_check(asset: RegistryAccount) -> Checked {
    if asset.owner != spec_registry_program() {
        Err(StakeError::InvalidAsset)
    } else if asset.data@.len() == 0 {
        Err(StakeError::AssetNotInitialized)
    } else {
        Ok(())
    }
}

/// A collection record belongs to the registry and is not empty.
pub open spec fn collection_account_check(collection: RegistryAccount) -> Checked {
    if collection.owner != spec_registry_program() {
        Err(StakeError::InvalidCollection)
    } else if collection.data@.len() == 0 {
        Err(StakeError::CollectionNotInitialized)
    } else {
        Ok(())
    }
}

/// The asset record can be read, and names `holder` as the asset's owner.
pub open spec fn ownership_check(asset: Option<BaseAsset>, holder: Identity) -> Checked {
    match asset {
        None => Err(StakeError::InvalidAsset),
        Some(read) => if read.owner != holder {
            Err(StakeError::NotOwner)
        } else {
            Ok(())
        },
    }
}

/// The asset record can be read, and names `collection` as the collection
/// that the asset is a member of.
pub open spec fn membership_check(asset: Option<BaseAsset>, collection: Identity) -> Checked {
    match asset {
        None => Err(StakeError::InvalidAsset),
        Some(read) => if read.update_authority != UpdateAuthority::Collection(collection) {
            Err(StakeError::InvalidCollection)
        } else {
            Ok(())
        },
    }
}

/// Checks that an asset record belongs to the registry and is not empty.
pub fn check_asset_account(asset: &RegistryAccount) -> (checked: Checked)
    ensures
        checked == asset_account_check(*asset),
{
    if asset.owner != registry_program() {
        Err(StakeError::InvalidAsset)
    } else if asset.data.len() == 0 {
        Err(StakeError::AssetNotInitialized)
    } else {
        Ok(())
    }
}

/// Checks that a collection record belongs to the registry and is not empty.
pub fn check_collection_account(collection: &RegistryAccount) -> (checked: Checked)
    ensures
        checked == collection_account_check(*collection),
{
    if collection.owner != registry_program() {
        Err(StakeError::InvalidCollection)
    } else if collection.data.len() == 0 {
        Err(StakeError::CollectionNotInitialized)
    } else {
        Ok(())
    }
}

/// Checks that the asset record was read and names `holder` as the owner.
pub fn check_ownership(asset: &Option<BaseAsset>, holder: &Identity) -> (checked: Checked)
    ensures
        checked == ownership_check(*asset, *holder),
{
    match asset {
        None => Err(StakeError::InvalidAsset),
        Some(read) => if read.owner != *holder {
            Err(StakeError::NotOwner)
        } else {
            Ok(())
        },
    }
}

/// Checks that the asset record was read and names `collection` as the
/// asset's collection.
pub fn check_membership(asset: &Option<BaseAsset>, collection: &Identity) -> (checked: Checked)
    ensures
        checked == membership_check(*asset, *collection),
{
    match asset {
        None => Err(StakeError::InvalidAsset),
        Some(read) => match read.update_authority {
            UpdateAuthority::Collection(named) => if named != *collection {
                Err(StakeError::InvalidCollection)
            } else {
                Ok(())
            },
            _ => Err(StakeError::InvalidCollection),
        },
    }
}

impl FreezeRequest {
    /// The seeds with which the program signs the request, where it signs.
    pub open spec fn spec_signer_seeds(self) -> Option<Seq<Seq<u8>>> {
        match self.authority_bump {
            Some(bump) => Some(with_bump(spec_collection_seeds(self.collection), bump)),
            None => None,
        }
    }

    /// The seeds with which the program signs the request, or `None` where
    /// the authority has signed for itself.
    pub fn signer_seeds(&self) -> (seeds: Option<Vec<Vec<u8>>>)
        ensures
            match seeds {
                Some(signing) => self.spec_signer_seeds() == Some(seed_bytes(signing@)),
                None => self.spec_signer_seeds() is None,
            },
    {
        match self.authority_bump {
            Some(bump) => Some(signer_seeds(collection_seeds(&self.collection), bump)),
            None => None,
        }
    }
}

} // verus!
