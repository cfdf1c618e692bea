//! Derived authorities: the identities that the program controls without a
//! private key.
//!
//! Such an identity is fixed by a list of seeds (a tag, then the identities
//! it belongs to) and the program's own identity. A record kept at a derived
//! identity stores the bump that was found with it, and is accepted only
//! where the seeds and that bump lead back to the identity it is presented
//! at.

use vstd::prelude::*;
use vstd::string::*;
use anchor_lang::prelude::Pubkey;
use anchor_lang::solana_program::pubkey::PubkeyError;
use crate::identity::Identity;
use crate::state::Account;
use crate::state::CollectionInfo;
use crate::state::StakeConfig;
use crate::state::UserAccount;

verus! {

/// The error of `Pubkey::create_program_address`. Nothing is said of what
/// it holds.
#[verifier::external_type_specification]
#[verifier::external_body]
pub struct ExPubkeyError(PubkeyError);

/// The identity that `Pubkey::create_program_address` makes of `seeds` for
/// `program`, or `None` where it reports an error.
pub uninterp spec fn program_address(seeds: Seq<Seq<u8>>, program: Identity) -> Option<Identity>;

/// The identity and bump that `Pubkey::try_find_program_address` finds for
/// `seeds` and `program`, or `None` where it finds none.
pub uninterp spec fn canonical_address(
    seeds: Seq<Seq<u8>>,
    program: Identity,
) -> Option<(Identity, u8)>;

/// The seeds as the byte strings they hold.
pub open spec fn seed_bytes(seeds: Seq<Vec<u8>>) -> Seq<Seq<u8>> {
    Seq::new(seeds.len(), |i: int| seeds[i]@)
}

/// The seeds followed by the bump as a seed of one byte.
pub open spec fn with_bump(seeds: Seq<Seq<u8>>, bump: u8) -> Seq<Seq<u8>> {
    seeds.push(seq![bump])
}

/// Whether `presented` is the identity that `seeds` and `bump` make for
/// `program`.
pub open spec fn derives(
    seeds: Seq<Seq<u8>>,
    bump: u8,
    program: Identity,
    presented: Identity,
) -> bool {
    program_address(with_bump(seeds, bump), program) == Some(presented)
}

/// Whether `presented` and `bump` are the identity and bump that are found
/// for `seeds` and `program`.
pub open spec fn derives_canonically(
    seeds: Seq<Seq<u8>>,
    bump: u8,
    program: Identity,
    presented: Identity,
) -> bool {
    canonical_address(seeds, program) == Some((presented, bump))
}

/// Seeds of the configuration, which is also the authority of the reward mint.
pub open spec fn spec_config_seeds() -> Seq<Seq<u8>> {
    seq!["config".spec_bytes()]
}

/// Seeds of the ledger of `holder`.
pub open spec fn spec_user_seeds(holder: Identity) -> Seq<Seq<u8>> {
    seq!["user".spec_bytes(), holder@]
}

/// Seeds of the stake record of `asset` under the configuration at `config`.
pub open spec fn spec_stake_seeds(config: Identity, asset: Identity) -> Seq<Seq<u8>> {
    seq!["stake".spec_bytes(), config@, asset@]
}

/// Seeds of the authority record of `collection`.
pub open spec fn spec_collection_seeds(collection: Identity) -> Seq<Seq<u8>> {
    seq!["collection_info".spec_bytes(), collection@]
}

/// Seeds of the reward mint under the configuration at `config`.
pub open spec fn spec_rewards_seeds(config: Identity) -> Seq<Seq<u8>> {
    seq!["rewards".spec_bytes(), config@]
}

/// Calls `Pubkey::create_program_address` on the seeds and the program's
/// identity. Trusted: the outcome is a function of the seeds' bytes and the
/// program's identity alone, named `program_address`; an error of the call is
/// `None` there.
#[verifier::external_body]
fn create_program_address(
    seeds: &Vec<Vec<u8>>,
    program: &Identity,
) -> (made: Result<Identity, PubkeyError>)
    ensures
        match made {
            Ok(address) => program_address(seed_bytes(seeds@), *program) == Some(address),
            Err(_) => program_address(seed_bytes(seeds@), *program) is None,
        },
{
    let parts: Vec<&[u8]> = seeds.iter().map(Vec::as_slice).collect();
    let program_id = Pubkey::new_from_array(program.bytes);
    match Pubkey::create_program_address(&parts, &program_id) {
        Ok(address) => Ok(Identity { bytes: address.to_bytes() }),
        Err(error) => Err(error),
    }
}

/// Calls `Pubkey::try_find_program_address` on the seeds and the program's
/// identity. Trusted: the outcome is a function of the seeds' bytes and the
/// program's identity alone, named `canonical_address`; and an identity that
/// is found is the one that `Pubkey::create_program_address` makes of the
/// seeds followed by the bump found with it.
#[verifier::external_body]
fn try_find_program_address(
    seeds: &Vec<Vec<u8>>,
    program: &Identity,
) -> (found: Option<(Identity, u8)>)
    ensures
        found == canonical_address(seed_bytes(seeds@), *program),
        found matches Some((address, bump)) ==> derives(
            seed_bytes(seeds@),
            bump,
            *program,
            address,
        ),
{
    let parts: Vec<&[u8]> = seeds.iter().map(Vec::as_slice).collect();
    let program_id = Pubkey::new_from_array(program.bytes);
    match Pubkey::try_find_program_address(&parts, &program_id) {
        Some((address, bump)) => Some((Identity { bytes: address.to_bytes() }, bump)),
        None => None,
    }
}

/// The seeds of the configuration.
pub fn config_seeds() -> (seeds: Vec<Vec<u8>>)
    ensures
        seed_bytes(seeds@) == spec_config_seeds(),
{
    let mut seeds: Vec<Vec<u8>> = Vec::new();
    seeds.push("config".as_bytes_vec());
    assert(seed_bytes(seeds@) =~= spec_config_seeds());
    seeds
}

/// The seeds of the ledger of `holder`.
pub fn user_seeds(holder: &Identity) -> (seeds: Vec<Vec<u8>>)
    ensures
        seed_bytes(seeds@) == spec_user_seeds(*holder),
{
    let mut seeds: Vec<Vec<u8>> = Vec::new();
    seeds.push("user".as_bytes_vec());
    seeds.push(holder.to_vec());
    assert(seed_bytes(seeds@) =~= spec_user_seeds(*holder));
    seeds
}

/// The seeds of the stake record of `asset` under the configuration at
/// `config`.
pub fn stake_seeds(config: &Identity, asset: &Identity) -> (seeds: Vec<Vec<u8>>)
    ensures
        seed_bytes(seeds@) == spec_stake_seeds(*config, *asset),
{
    let mut seeds: Vec<Vec<u8>> = Vec::new();
    seeds.push("stake".as_bytes_vec());
    seeds.push(config.to_vec());
    seeds.push(asset.to_vec());
    assert(seed_bytes(seeds@) =~= spec_stake_seeds(*config, *asset));
    seeds
}

/// The seeds of the authority record of `collection`.
pub fn collection_seeds(collection: &Identity) -> (seeds: Vec<Vec<u8>>)
    ensures
        seed_bytes(seeds@) == spec_collection_seeds(*collection),
{
    let mut seeds: Vec<Vec<u8>> = Vec::new();
    seeds.push("collection_info".as_bytes_vec());
    seeds.push(collection.to_vec());
    assert(seed_bytes(seeds@) =~= spec_collection_seeds(*collection));
    seeds
}

/// The seeds of the reward mint under the configuration at `config`.
pub fn rewards_seeds(config: &Identity) -> (seeds: Vec<Vec<u8>>)
    ensures
        seed_bytes(seeds@) == spec_rewards_seeds(*config),
{
    let mut seeds: Vec<Vec<u8>> = Vec::new();
    seeds.push("rewards".as_bytes_vec());
    seeds.push(config.to_vec());
    assert(seed_bytes(seeds@) =~= spec_rewards_seeds(*config));
    seeds
}

/// The seeds with which the program signs for a derived identity: the
/// identity's seeds, then its bump.
pub fn signer_seeds(seeds: Vec<Vec<u8>>, bump: u8) -> (signing: Vec<Vec<u8>>)
    ensures
        seed_bytes(signing@) == with_bump(seed_bytes(seeds@), bump),
{
    let mut signing = seeds;
    let mut last: Vec<u8> = Vec::new();
    last.push(bump);
    signing.push(last);
    assert(seed_bytes(signing@) =~= with_bump(seed_bytes(seeds@), bump));
    signing
}

/// Finds the identity that the program controls for `seeds`, and its bump.
/// `None` where there is none, as with too many or too long seeds. An
/// identity that is found is accepted by `verify` with the same seeds and
/// the bump found.
pub fn derive(seeds: &Vec<Vec<u8>>, program: &Identity) -> (found: Option<(Identity, u8)>)
    ensures
        found == canonical_address(seed_bytes(seeds@), *program),
        found matches Some((address, bump)) ==> derives(
            seed_bytes(seeds@),
            bump,
            *program,
            address,
        ),
{
    try_find_program_address(seeds, program)
}

/// The identity that `seeds` and `bump` make for `program`, or `None` where
/// they make none.
pub fn resolve(seeds: Vec<Vec<u8>>, bump: u8, program: &Identity) -> (made: Option<Identity>)
    ensures
        made == program_address(with_bump(seed_bytes(seeds@), bump), *program),
{
    let signing = signer_seeds(seeds, bump);
    match create_program_address(&signing, program) {
        Ok(address) => Some(address),
        Err(_) => None,
    }
}

/// Whether `presented` is the identity `made`.
pub fn is_derived(made: &Option<Identity>, presented: &Identity) -> (accepted: bool)
    ensures
        accepted == (*made == Some(*presented)),
{
    match made {
        Some(address) => *address == *presented,
        None => false,
    }
}

/// Whether `presented` and `bump` are the identity and bump `found`.
pub fn is_canonical(
    found: &Option<(Identity, u8)>,
    presented: &Identity,
    bump: u8,
) -> (accepted: bool)
    ensures
        accepted == (*found == Some((*presented, bump))),
{
    match found {
        Some((address, canonical)) => *address == *presented && *canonical == bump,
        None => false,
    }
}

/// Whether `presented` is the identity that `seeds` and `bump` make for
/// `program`.
pub fn verify(
    seeds: Vec<Vec<u8>>,
    bump: u8,
    program: &Identity,
    presented: &Identity,
) -> (accepted: bool)
    ensures
        accepted == derives(seed_bytes(seeds@), bump, *program, *presented),
{
    let made = resolve(seeds, bump, program);
    is_derived(&made, presented)
}

/// Whether `presented` and `bump` are the identity and bump found for `seeds`
/// and `program`.
pub fn verify_canonical(
    seeds: &Vec<Vec<u8>>,
    bump: u8,
    program: &Identity,
    presented: &Identity,
) -> (accepted: bool)
    ensures
        accepted == derives_canonically(seed_bytes(seeds@), bump, *program, *presented),
{
    let found = derive(seeds, program);
    is_canonical(&found, presented, bump)
}

/// Whether the configuration is kept at the identity derived for it.
pub open spec fn config_derives(program: Identity, config: Account<StakeConfig>) -> bool {
    derives(spec_config_seeds(), config.record.bump, program, config.key)
}

/// Whether the ledger is kept at the identity derived for `holder`.
pub open spec fn user_account_derives(
    program: Identity,
    holder: Identity,
    ledger: Account<UserAccount>,
) -> bool {
    derives(spec_user_seeds(holder), ledger.record.bump, program, ledger.key)
}

/// Whether `key` is, with `bump`, the identity derived for the stake record
/// of `asset`.
pub open spec fn stake_account_derives(
    program: Identity,
    config: Identity,
    asset: Identity,
    key: Identity,
    bump: u8,
) -> bool {
    derives(spec_stake_seeds(config, asset), bump, program, key)
}

/// Whether the authority record is kept at the identity derived for
/// `collection`.
pub open spec fn collection_info_derives(
    program: Identity,
    collection: Identity,
    info: Account<CollectionInfo>,
) -> bool {
    derives(spec_collection_seeds(collection), info.record.bump, program, info.key)
}

/// Whether `mint` is the identity derived for the reward mint of the
/// configuration.
pub open spec fn reward_mint_derives(
    program: Identity,
    config: Account<StakeConfig>,
    mint: Identity,
) -> bool {
    derives(spec_rewards_seeds(config.key), config.record.rewards_bump, program, mint)
}

/// Checks the configuration's identity.
pub fn verify_config(program: &Identity, config: &Account<StakeConfig>) -> (accepted: bool)
    ensures
        accepted == config_derives(*program, *config),
{
    verify(config_seeds(), config.record.bump, program, &config.key)
}

/// Checks the identity of the ledger of `holder`.
pub fn verify_user_account(
    program: &Identity,
    holder: &Identity,
    ledger: &Account<UserAccount>,
) -> (accepted: bool)
    ensures
        accepted == user_account_derives(*program, *holder, *ledger),
{
    verify(user_seeds(holder), ledger.record.bump, program, &ledger.key)
}

/// Checks the identity of the stake record of `asset` against a stored bump.
pub fn verify_stake_account(
    program: &Identity,
    config: &Identity,
    asset: &Identity,
    key: &Identity,
    bump: u8,
) -> (accepted: bool)
    ensures
        accepted == stake_account_derives(*program, *config, *asset, *key, bump),
{
    verify(stake_seeds(config, asset), bump, program, key)
}

/// Checks the identity of the authority record of `collection`.
pub fn verify_collection_info(
    program: &Identity,
    collection: &Identity,
    info: &Account<CollectionInfo>,
) -> (accepted: bool)
    ensures
        accepted == collection_info_derives(*program, *collection, *info),
{
    verify(collection_seeds(collection), info.record.bump, program, &info.key)
}

/// Checks the identity of the reward mint.
pub fn verify_reward_mint(
    program: &Identity,
    config: &Account<StakeConfig>,
    mint: &Identity,
) -> (accepted: bool)
    ensures
        accepted == reward_mint_derives(*program, *config, *mint),
{
    verify(rewards_seeds(&config.key), config.record.rewards_bump, program, mint)
}

} // verus!
