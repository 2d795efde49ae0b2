use vstd::prelude::*;
use crate::address::Address;
use crate::errors::ProcessError;
use crate::ledger::{AccountView, registry_seeds, registry_seeds_vec, stake_seeds, stake_seeds_vec};
use crate::services::{derived_view, find_program_address, program_address};
use crate::state::{Stake, StakeDetails, decode_stake_details};

verus! {

/// The id of the token ledger program.
pub const TOKEN_PROGRAM_ID: [u8; 32] = [
    6, 221, 246, 225, 215, 101, 161, 147, 217, 203, 225, 70, 206, 235, 121, 172, 28, 180, 133,
    237, 95, 91, 55, 145, 58, 140, 245, 133, 126, 255, 0, 169,
];

/// The id of the program under which canonical token accounts are derived.
pub const ASSOCIATED_TOKEN_PROGRAM_ID: [u8; 32] = [
    140, 151, 37, 143, 78, 36, 137, 241, 187, 61, 16, 41, 20, 142, 13, 131, 11, 90, 19, 153,
    218, 255, 16, 132, 4, 142, 123, 216, 219, 233, 248, 89,
];

/// The canonical token account of `wallet` for `mint` under `token_program`:
/// derived from (wallet, token program, mint) under the associated token
/// program.
pub open spec fn associated_token_address(wallet: Seq<u8>, mint: Seq<u8>, token_program: Seq<u8>) -> Option<
    Seq<u8>,
> {
    match program_address(seq![wallet, token_program, mint], ASSOCIATED_TOKEN_PROGRAM_ID@) {
        Some((k, _)) => Some(k),
        None => None,
    }
}

/// The supplied token account must be the canonical one.
pub open spec fn token_account_check(
    wallet: Address,
    mint: Address,
    token_program: Address,
    supplied: Address,
) -> Result<(), ProcessError> {
    match associated_token_address(wallet@, mint@, token_program@) {
        None => Err(ProcessError::InvalidSeeds),
        Some(k) => if k != supplied@ {
            Err(ProcessError::InvalidAccountData)
        } else {
            Ok(())
        },
    }
}

/// The supplied token program must be the token ledger program.
pub open spec fn token_program_check(token_program: Address) -> Result<(), ProcessError> {
    if token_program@ != TOKEN_PROGRAM_ID@ {
        Err(ProcessError::IncorrectProgramId)
    } else {
        Ok(())
    }
}

/// The registry record that `registry` holds, provided its address is the
/// one derived from the creator and collection that the record names, with
/// the bump that the record stores.
pub open spec fn registry_check(program_id: Address, registry: AccountView) -> Result<
    StakeDetails,
    ProcessError,
> {
    match decode_stake_details(registry.data@) {
        None => Err(ProcessError::BorshIoError),
        Some(d) => match program_address(
            registry_seeds(d.creator@, d.collection_mint@),
            program_id@,
        ) {
            None => Err(ProcessError::InvalidSeeds),
            Some((k, bump)) => if k != registry.key@ || bump != d.bump_seed {
                Err(ProcessError::InvalidAccountData)
            } else {
                Ok(d)
            },
        },
    }
}

/// The bump of the stake record of (registry, asset, owner), provided the
/// supplied record address is the derived one.
pub open spec fn stake_address_check(
    program_id: Address,
    registry: Address,
    nft_mint: Address,
    owner: Address,
    record: Address,
) -> Result<u8, ProcessError> {
    match program_address(stake_seeds(registry@, nft_mint@, owner@), program_id@) {
        None => Err(ProcessError::InvalidSeeds),
        Some((k, bump)) => if k != record@ {
            Err(ProcessError::InvalidAccountData)
        } else {
            Ok(bump)
        },
    }
}

/// The reward destination must be the owner's canonical account for the
/// reward mint and the one that the stake record caches.
pub open spec fn reward_destination_check(
    owner: Address,
    destination: Address,
    reward_mint: Address,
    token_program: Address,
    record: Stake,
) -> Result<(), ProcessError> {
    match token_account_check(owner, reward_mint, token_program, destination) {
        Err(e) => Err(e),
        Ok(_) => if record.reward_mint_ata@ != destination@ {
            Err(ProcessError::InvalidAccountData)
        } else {
            Ok(())
        },
    }
}

/// Derives the canonical token account of `wallet` for `mint`.
pub fn derive_associated_token_address(wallet: &Address, mint: &Address, token_program: &Address) -> (r:
    Option<Address>)
    ensures
        match r {
            Some(a) => associated_token_address(wallet@, mint@, token_program@) == Some(a@),
            None => associated_token_address(wallet@, mint@, token_program@) is None,
        },
{
    let mut seeds: Vec<Vec<u8>> = Vec::new();
    seeds.push(wallet.to_vec());
    seeds.push(token_program.to_vec());
    seeds.push(mint.to_vec());
    assert(seeds.deep_view() =~~= seq![wallet@, token_program@, mint@]);
    let program = Address { bytes: ASSOCIATED_TOKEN_PROGRAM_ID };
    let found = find_program_address(&seeds, &program);
    assert(derived_view(found) == program_address(seq![wallet@, token_program@, mint@], ASSOCIATED_TOKEN_PROGRAM_ID@));
    match found {
        Some((k, _)) => Some(k),
        None => None,
    }
}

pub fn check_token_account(
    wallet: &Address,
    mint: &Address,
    token_program: &Address,
    supplied: &Address,
) -> (r: Result<(), ProcessError>)
    ensures
        r == token_account_check(*wallet, *mint, *token_program, *supplied),
{
    match derive_associated_token_address(wallet, mint, token_program) {
        None => Err(ProcessError::InvalidSeeds),
        Some(k) => if !k.same(supplied) {
            Err(ProcessError::InvalidAccountData)
        } else {
            Ok(())
        },
    }
}

/// Accepts only the token ledger program.
pub fn check_token_program(token_program: &Address) -> (r: Result<(), ProcessError>)
    ensures
        r == token_program_check(*token_program),
{
    let expected = Address { bytes: TOKEN_PROGRAM_ID };
    if !token_program.same(&expected) {
        Err(ProcessError::IncorrectProgramId)
    } else {
        Ok(())
    }
}

pub fn load_registry(program_id: &Address, registry: &AccountView) -> (r: Result<
    StakeDetails,
    ProcessError,
>)
    ensures
        r == registry_check(*program_id, *registry),
{
    let d = match StakeDetails::decode(registry.data.as_slice()) {
        None => return Err(ProcessError::BorshIoError),
        Some(d) => d,
    };
    let seeds = registry_seeds_vec(&d.creator, &d.collection_mint);
    match find_program_address(&seeds, program_id) {
        None => Err(ProcessError::InvalidSeeds),
        Some((k, bump)) => {
            if !k.same(&registry.key) || bump != d.bump_seed {
                Err(ProcessError::InvalidAccountData)
            } else {
                Ok(d)
            }
        },
    }
}

pub fn check_stake_address(
    program_id: &Address,
    registry: &Address,
    nft_mint: &Address,
    owner: &Address,
    record: &Address,
) -> (r: Result<u8, ProcessError>)
    ensures
        r == stake_address_check(*program_id, *registry, *nft_mint, *owner, *record),
{
    let seeds = stake_seeds_vec(registry, nft_mint, owner);
    match find_program_address(&seeds, program_id) {
        None => Err(ProcessError::InvalidSeeds),
        Some((k, bump)) => {
            if !k.same(record) {
                Err(ProcessError::InvalidAccountData)
            } else {
                Ok(bump)
            }
        },
    }
}

pub fn check_reward_destination(
    owner: &Address,
    destination: &Address,
    reward_mint: &Address,
    token_program: &Address,
    record: &Stake,
) -> (r: Result<(), ProcessError>)
    ensures
        r == reward_destination_check(*owner, *destination, *reward_mint, *token_program, *record),
{
    match check_token_account(owner, reward_mint, token_program, destination) {
        Err(e) => Err(e),
        Ok(_) => if !record.reward_mint_ata.same(destination) {
            Err(ProcessError::InvalidAccountData)
        } else {
            Ok(())
        },
    }
}

/// The actions of a decided call, or its rejection.
pub open spec fn plan_view(r: Result<Vec<crate::ledger::LedgerAction>, ProcessError>) -> Result<
    Seq<crate::ledger::LedgerAction>,
    ProcessError,
> {
    match r {
        Ok(v) => Ok(v@),
        Err(e) => Err(e),
    }
}

} // verus!
