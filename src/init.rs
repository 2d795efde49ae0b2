use vstd::prelude::*;
use crate::address::Address;
use crate::checks::plan_view;
use crate::errors::ProcessError;
use crate::ledger::{AccountView, LedgerAction, Signer, registry_seeds, registry_seeds_vec};
use crate::services::{find_program_address, program_address};
use crate::state::StakeDetails;

verus! {

/// Registering a collection. Accounts: caller, reward mint, collection mint,
/// registry, token program, system program.
///
/// The caller must sign and be writable, the reward mint and the registry
/// writable; the registry must sit at the address derived from (caller,
/// collection) and be empty. The plan allocates and writes the registry and
/// hands the reward mint's authority to it.
pub open spec fn init_outcome(program_id: Address, accounts: Seq<AccountView>, rent: u64) -> Result<
    Seq<LedgerAction>,
    ProcessError,
> {
    if accounts.len() < 6 {
        Err(ProcessError::NotEnoughAccountKeys)
    } else {
        let user = accounts[0];
        let reward_mint = accounts[1];
        let collection = accounts[2];
        let registry = accounts[3];
        let token_program = accounts[4];
        if !user.is_signer || !user.is_writable {
            Err(ProcessError::InvalidAccountData)
        } else if !reward_mint.is_writable {
            Err(ProcessError::InvalidAccountData)
        } else if !registry.is_writable {
            Err(ProcessError::InvalidAccountData)
        } else {
            match program_address(registry_seeds(user.key@, collection.key@), program_id@) {
                None => Err(ProcessError::InvalidSeeds),
                Some((k, bump)) => if k != registry.key@ {
                    Err(ProcessError::InvalidAccountData)
                } else if registry.data@.len() != 0 {
                    Err(ProcessError::AccountAlreadyInitialized)
                } else {
                    Ok(init_plan(program_id, user.key, reward_mint.key, collection.key, registry.key, token_program.key, bump, rent))
                },
            }
        }
    }
}

pub open spec fn init_plan(
    program_id: Address,
    user: Address,
    reward_mint: Address,
    collection: Address,
    registry: Address,
    token_program: Address,
    bump: u8,
    rent: u64,
) -> Seq<LedgerAction> {
    seq![
        LedgerAction::CreateAccount {
            payer: user,
            address: registry,
            lamports: rent,
            space: 97,
            owner: program_id,
            signer: Signer::Registry { creator: user, collection_mint: collection, bump },
        },
        LedgerAction::WriteRegistry {
            address: registry,
            record: StakeDetails {
                creator: user,
                reward_token_mint: reward_mint,
                collection_mint: collection,
                bump_seed: bump,
            },
        },
        LedgerAction::SetMintAuthority {
            token_program,
            mint: reward_mint,
            new_authority: registry,
            current_authority: user,
        },
    ]
}

/// Registers a collection: decides the call and returns its plan.
/// `rent` is the deposit that keeps a registry record alive.
pub fn init_staking(program_id: &Address, accounts: &[AccountView], rent: u64) -> (r: Result<
    Vec<LedgerAction>,
    ProcessError,
>)
    ensures
        plan_view(r) == init_outcome(*program_id, accounts@, rent),
{
    if accounts.len() < 6 {
        return Err(ProcessError::NotEnoughAccountKeys);
    }
    let user = &accounts[0];
    let reward_mint = &accounts[1];
    let collection = &accounts[2];
    let registry = &accounts[3];
    let token_program = &accounts[4];
    if !user.is_signer || !user.is_writable {
        return Err(ProcessError::InvalidAccountData);
    }
    if !reward_mint.is_writable {
        return Err(ProcessError::InvalidAccountData);
    }
    if !registry.is_writable {
        return Err(ProcessError::InvalidAccountData);
    }
    let seeds = registry_seeds_vec(&user.key, &collection.key);
    let (k, bump) = match find_program_address(&seeds, program_id) {
        None => return Err(ProcessError::InvalidSeeds),
        Some(found) => found,
    };
    if !k.same(&registry.key) {
        return Err(ProcessError::InvalidAccountData);
    }
    if registry.data.len() != 0 {
        return Err(ProcessError::AccountAlreadyInitialized);
    }
    let plan = vec![
        LedgerAction::CreateAccount {
            payer: user.key,
            address: registry.key,
            lamports: rent,
            space: StakeDetails::LEN as u64,
            owner: *program_id,
            signer: Signer::Registry { creator: user.key, collection_mint: collection.key, bump },
        },
        LedgerAction::WriteRegistry {
            address: registry.key,
            record: StakeDetails {
                creator: user.key,
                reward_token_mint: reward_mint.key,
                collection_mint: collection.key,
                bump_seed: bump,
            },
        },
        LedgerAction::SetMintAuthority {
            token_program: token_program.key,
            mint: reward_mint.key,
            new_authority: registry.key,
            current_authority: user.key,
        },
    ];
    assert(plan@ =~= init_plan(*program_id, user.key, reward_mint.key, collection.key, registry.key, token_program.key, bump, rent));
    Ok(plan)
}

} // verus!
