use vstd::prelude::*;
use crate::address::Address;
use crate::bytes::u64_from_le;
use crate::checks::{
    check_stake_address, check_token_account, check_token_program, load_registry, plan_view,
    registry_check, stake_address_check, token_account_check, token_program_check,
};
use crate::errors::{NftStakingError, ProcessError};
use crate::ledger::{AccountView, LedgerAction, Signer};
use crate::services::{
    AssetMetadata, metadata_record, read_metadata, token_account_amount, token_account_unpacks,
};
use crate::state::{Stake, StakeDetails};

verus! {

/// Staking an asset. Accounts: caller, asset mint, asset metadata, caller's
/// holding account, caller's reward account, registry, stake record, escrow,
/// token program, associated token program, system program.
///
/// Rejected unless: the caller signs and is writable, the holding account,
/// the record and the escrow are writable, the token program is the token
/// ledger's, the registry is the program's and sits at its derived address;
/// the metadata describes this mint and a verified membership of the
/// registry's collection; the holding account holds at least one unit; the
/// record sits at the address derived from (registry, asset, caller) and is
/// empty; the escrow is the record's canonical token account for the asset.
pub open spec fn stake_outcome(
    program_id: Address,
    accounts: Seq<AccountView>,
    now: i64,
    rent: u64,
) -> Result<Seq<LedgerAction>, ProcessError> {
    if accounts.len() < 11 {
        Err(ProcessError::NotEnoughAccountKeys)
    } else {
        let user = accounts[0];
        let nft_mint = accounts[1];
        let metadata = accounts[2];
        let user_token = accounts[3];
        let user_reward = accounts[4];
        let registry = accounts[5];
        let record = accounts[6];
        let escrow = accounts[7];
        let token_program = accounts[8];
        if !user.is_signer || !user.is_writable {
            Err(ProcessError::InvalidAccountData)
        } else if !user_token.is_writable {
            Err(ProcessError::InvalidAccountData)
        } else if registry.owner@ != program_id@ {
            Err(ProcessError::InvalidAccountData)
        } else if !record.is_writable {
            Err(ProcessError::InvalidAccountData)
        } else if !escrow.is_writable {
            Err(ProcessError::InvalidAccountData)
        } else if token_program_check(token_program.key) is Err {
            Err(token_program_check(token_program.key)->Err_0)
        } else {
            match registry_check(program_id, registry) {
                Err(e) => Err(e),
                Ok(d) => match metadata_record(metadata.data@) {
                    None => Err(ProcessError::BorshIoError),
                    Some(m) => if asset_check(m, nft_mint.key@, d.collection_mint@) is Err {
                        Err(asset_check(m, nft_mint.key@, d.collection_mint@)->Err_0)
                    } else if !token_account_unpacks(user_token.data@) {
                        Err(ProcessError::InvalidAccountData)
                    } else if holding_check(u64_from_le(user_token.data@.subrange(64, 72))) is Err {
                        Err(holding_check(u64_from_le(user_token.data@.subrange(64, 72)))->Err_0)
                    } else {
                        match stake_address_check(
                            program_id,
                            registry.key,
                            nft_mint.key,
                            user.key,
                            record.key,
                        ) {
                            Err(e) => Err(e),
                            Ok(bump) => if record.data@.len() != 0 {
                                Err(ProcessError::AccountAlreadyInitialized)
                            } else {
                                match token_account_check(
                                    record.key,
                                    nft_mint.key,
                                    token_program.key,
                                    escrow.key,
                                ) {
                                    Err(e) => Err(e),
                                    Ok(_) => Ok(
                                        stake_plan(
                                            program_id,
                                            user.key,
                                            nft_mint.key,
                                            user_token.key,
                                            user_reward.key,
                                            registry.key,
                                            record.key,
                                            escrow.key,
                                            token_program.key,
                                            d,
                                            bump,
                                            now,
                                            rent,
                                        ),
                                    ),
                                }
                            },
                        }
                    },
                },
            }
        }
    }
}

/// What the metadata registry says of an asset must make it a verified
/// member of the registry's collection: it names a collection, describes
/// this mint, the collection is the registry's, and membership is verified.
pub open spec fn asset_check(
    metadata: (Seq<u8>, Option<(Seq<u8>, bool)>),
    nft_mint: Seq<u8>,
    collection_mint: Seq<u8>,
) -> Result<(), ProcessError> {
    match metadata.1 {
        None => Err(ProcessError::Custom(NftStakingError::NoCollectionSet)),
        Some((collection, verified)) => if metadata.0 != nft_mint {
            Err(ProcessError::Custom(NftStakingError::InvalidMetadataAccount))
        } else if collection != collection_mint {
            Err(ProcessError::Custom(NftStakingError::CollectionMintMismatch))
        } else if !verified {
            Err(ProcessError::Custom(NftStakingError::NftNotVerified))
        } else {
            Ok(())
        },
    }
}

/// The caller's holding account must hold at least one unit.
pub open spec fn holding_check(amount: u64) -> Result<(), ProcessError> {
    if amount == 0 {
        Err(ProcessError::Custom(NftStakingError::NftEmpty))
    } else {
        Ok(())
    }
}

/// Checks an asset's metadata against the asset mint and the registry.
pub fn check_asset(asset: &AssetMetadata, nft_mint: &Address, details: &StakeDetails) -> (r: Result<
    (),
    ProcessError,
>)
    ensures
        r == asset_check(asset@, nft_mint@, details.collection_mint@),
{
    match asset.collection {
        None => Err(ProcessError::Custom(NftStakingError::NoCollectionSet)),
        Some(membership) => {
            if !asset.mint.same(nft_mint) {
                Err(ProcessError::Custom(NftStakingError::InvalidMetadataAccount))
            } else if !membership.key.same(&details.collection_mint) {
                Err(ProcessError::Custom(NftStakingError::CollectionMintMismatch))
            } else if !membership.verified {
                Err(ProcessError::Custom(NftStakingError::NftNotVerified))
            } else {
                Ok(())
            }
        },
    }
}

/// Checks the balance of the caller's holding account.
pub fn check_holding(amount: u64) -> (r: Result<(), ProcessError>)
    ensures
        r == holding_check(amount),
{
    if amount == 0 {
        Err(ProcessError::Custom(NftStakingError::NftEmpty))
    } else {
        Ok(())
    }
}

/// Allocate the record, create the escrow, move one unit of the asset into
/// it, and write the record with the checkpoint at `now`.
pub open spec fn stake_plan(
    program_id: Address,
    user: Address,
    nft_mint: Address,
    user_token: Address,
    user_reward: Address,
    registry: Address,
    record: Address,
    escrow: Address,
    token_program: Address,
    details: StakeDetails,
    bump: u8,
    now: i64,
    rent: u64,
) -> Seq<LedgerAction> {
    seq![
        LedgerAction::CreateAccount {
            payer: user,
            address: record,
            lamports: rent,
            space: 136,
            owner: program_id,
            signer: Signer::StakeRecord { registry, nft_mint, owner: user, bump },
        },
        LedgerAction::CreateTokenAccount {
            payer: user,
            address: escrow,
            wallet: record,
            mint: nft_mint,
            token_program,
        },
        LedgerAction::Transfer {
            token_program,
            source: user_token,
            destination: escrow,
            authority: user,
            amount: 1,
            signer: Signer::Caller,
        },
        LedgerAction::WriteStake {
            address: record,
            record: Stake {
                stake_details_key: registry,
                nft_mint,
                reward_mint: details.reward_token_mint,
                reward_mint_ata: user_reward,
                staked_at: now,
            },
        },
    ]
}

/// Stakes an asset: decides the call and returns its plan. `now` is the
/// ledger time and `rent` the deposit that keeps a stake record alive.
pub fn stake(program_id: &Address, accounts: &[AccountView], now: i64, rent: u64) -> (r: Result<
    Vec<LedgerAction>,
    ProcessError,
>)
    ensures
        plan_view(r) == stake_outcome(*program_id, accounts@, now, rent),
{
    if accounts.len() < 11 {
        return Err(ProcessError::NotEnoughAccountKeys);
    }
    let user = &accounts[0];
    let nft_mint = &accounts[1];
    let metadata = &accounts[2];
    let user_token = &accounts[3];
    let user_reward = &accounts[4];
    let registry = &accounts[5];
    let record = &accounts[6];
    let escrow = &accounts[7];
    let token_program = &accounts[8];
    if !user.is_signer || !user.is_writable {
        return Err(ProcessError::InvalidAccountData);
    }
    if !user_token.is_writable {
        return Err(ProcessError::InvalidAccountData);
    }
    if !registry.owner.same(program_id) {
        return Err(ProcessError::InvalidAccountData);
    }
    if !record.is_writable {
        return Err(ProcessError::InvalidAccountData);
    }
    if !escrow.is_writable {
        return Err(ProcessError::InvalidAccountData);
    }
    match check_token_program(&token_program.key) {
        Err(e) => return Err(e),
        Ok(_) => {},
    }
    let details = match load_registry(program_id, registry) {
        Err(e) => return Err(e),
        Ok(d) => d,
    };
    let asset = match read_metadata(metadata.data.as_slice()) {
        None => return Err(ProcessError::BorshIoError),
        Some(m) => m,
    };
    match check_asset(&asset, &nft_mint.key, &details) {
        Err(e) => return Err(e),
        Ok(_) => {},
    }
    let held = match token_account_amount(user_token.data.as_slice()) {
        None => return Err(ProcessError::InvalidAccountData),
        Some(a) => a,
    };
    match check_holding(held) {
        Err(e) => return Err(e),
        Ok(_) => {},
    }
    let bump = match check_stake_address(
        program_id,
        &registry.key,
        &nft_mint.key,
        &user.key,
        &record.key,
    ) {
        Err(e) => return Err(e),
        Ok(b) => b,
    };
    if record.data.len() != 0 {
        return Err(ProcessError::AccountAlreadyInitialized);
    }
    match check_token_account(&record.key, &nft_mint.key, &token_program.key, &escrow.key) {
        Err(e) => return Err(e),
        Ok(_) => {},
    }
    let plan = vec![
        LedgerAction::CreateAccount {
            payer: user.key,
            address: record.key,
            lamports: rent,
            space: Stake::LEN as u64,
            owner: *program_id,
            signer: Signer::StakeRecord {
                registry: registry.key,
                nft_mint: nft_mint.key,
                owner: user.key,
                bump,
            },
        },
        LedgerAction::CreateTokenAccount {
            payer: user.key,
            address: escrow.key,
            wallet: record.key,
            mint: nft_mint.key,
            token_program: token_program.key,
        },
        LedgerAction::Transfer {
            token_program: token_program.key,
            source: user_token.key,
            destination: escrow.key,
            authority: user.key,
            amount: 1,
            signer: Signer::Caller,
        },
        LedgerAction::WriteStake {
            address: record.key,
            record: Stake {
                stake_details_key: registry.key,
                nft_mint: nft_mint.key,
                reward_mint: details.reward_token_mint,
                reward_mint_ata: user_reward.key,
                staked_at: now,
            },
        },
    ];
    assert(plan@ =~= stake_plan(
        *program_id,
        user.key,
        nft_mint.key,
        user_token.key,
        user_reward.key,
        registry.key,
        record.key,
        escrow.key,
        token_program.key,
        details,
        bump,
        now,
        rent,
    ));
    Ok(plan)
}

} // verus!
