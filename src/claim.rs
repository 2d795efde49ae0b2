use vstd::prelude::*;
use crate::address::Address;
use crate::checks::{
    check_reward_destination, check_stake_address, load_registry, plan_view, registry_check,
    reward_destination_check, stake_address_check, token_program_check, check_token_program,
};
use crate::errors::{NftStakingError, ProcessError};
use crate::ledger::{AccountView, LedgerAction, Signer};
use crate::reward::{reward_amount, reward_for};
use crate::services::{mint_decimals, mint_unpacks};
use crate::state::{Stake, StakeDetails, decode_stake};

verus! {

/// Claiming rewards. Accounts: caller, stake record, caller's reward
/// account, reward mint, registry, asset mint, token program.
///
/// Rejected unless: the caller signs; the record is writable and the
/// program's; the reward account and the mint are writable; the registry is
/// the program's; the record sits at the address derived from (registry,
/// asset, caller) and holds a stake record; the token program is the token
/// ledger's; the reward account is the
/// caller's canonical one for the mint and the one the record caches; the
/// mint is initialized; the registry sits at its derived address. The plan
/// mints the reward accrued since the checkpoint and moves the checkpoint
/// to `now`.
pub open spec fn claim_outcome(program_id: Address, accounts: Seq<AccountView>, now: i64) -> Result<
    Seq<LedgerAction>,
    ProcessError,
> {
    if accounts.len() < 7 {
        Err(ProcessError::NotEnoughAccountKeys)
    } else {
        let user = accounts[0];
        let record = accounts[1];
        let user_reward = accounts[2];
        let reward_mint = accounts[3];
        let registry = accounts[4];
        let nft_mint = accounts[5];
        let token_program = accounts[6];
        if !user.is_signer {
            Err(ProcessError::MissingRequiredSignature)
        } else if !record.is_writable || record.owner@ != program_id@ {
            Err(ProcessError::InvalidAccountData)
        } else if !user_reward.is_writable || !reward_mint.is_writable {
            Err(ProcessError::InvalidAccountData)
        } else if registry.owner@ != program_id@ {
            Err(ProcessError::InvalidAccountOwner)
        } else if token_program_check(token_program.key) is Err {
            Err(token_program_check(token_program.key)->Err_0)
        } else {
            match stake_address_check(program_id, registry.key, nft_mint.key, user.key, record.key) {
                Err(e) => Err(e),
                Ok(_) => if record.data@.len() == 0 {
                    Err(ProcessError::Custom(NftStakingError::AccountNotInitialized))
                } else {
                    match decode_stake(record.data@) {
                        None => Err(ProcessError::BorshIoError),
                        Some(s) => if reward_destination_check(
                            user.key,
                            user_reward.key,
                            reward_mint.key,
                            token_program.key,
                            s,
                        ) is Err {
                            Err(
                                reward_destination_check(
                                    user.key,
                                    user_reward.key,
                                    reward_mint.key,
                                    token_program.key,
                                    s,
                                )->Err_0,
                            )
                        } else if !mint_unpacks(reward_mint.data@) {
                            Err(ProcessError::InvalidAccountData)
                        } else {
                            match registry_check(program_id, registry) {
                                Err(e) => Err(e),
                                Ok(d) => Ok(
                                    claim_plan(
                                        record.key,
                                        user_reward.key,
                                        reward_mint.key,
                                        registry.key,
                                        token_program.key,
                                        reward_mint.data@[44],
                                        s,
                                        d,
                                        now,
                                    ),
                                ),
                            }
                        },
                    }
                },
            }
        }
    }
}

/// The signer that mints rewards: the registry, by its seeds and bump.
pub open spec fn registry_signer(d: StakeDetails) -> Signer {
    Signer::Registry { creator: d.creator, collection_mint: d.collection_mint, bump: d.bump_seed }
}

/// The mint of the reward accrued since the checkpoint.
pub open spec fn reward_mint_action(
    user_reward: Address,
    reward_mint: Address,
    registry: Address,
    token_program: Address,
    decimals: u8,
    s: Stake,
    d: StakeDetails,
    now: i64,
) -> LedgerAction {
    LedgerAction::MintTo {
        token_program,
        mint: reward_mint,
        destination: user_reward,
        authority: registry,
        amount: reward_amount(s.staked_at, now),
        decimals,
        signer: registry_signer(d),
    }
}

pub open spec fn claim_plan(
    record: Address,
    user_reward: Address,
    reward_mint: Address,
    registry: Address,
    token_program: Address,
    decimals: u8,
    s: Stake,
    d: StakeDetails,
    now: i64,
) -> Seq<LedgerAction> {
    seq![
        reward_mint_action(user_reward, reward_mint, registry, token_program, decimals, s, d, now),
        LedgerAction::WriteStake { address: record, record: Stake { staked_at: now, ..s } },
    ]
}

pub fn make_reward_mint(
    user_reward: &Address,
    reward_mint: &Address,
    registry: &Address,
    token_program: &Address,
    decimals: u8,
    s: &Stake,
    d: &StakeDetails,
    now: i64,
) -> (r: LedgerAction)
    ensures
        r == reward_mint_action(
            *user_reward,
            *reward_mint,
            *registry,
            *token_program,
            decimals,
            *s,
            *d,
            now,
        ),
{
    LedgerAction::MintTo {
        token_program: *token_program,
        mint: *reward_mint,
        destination: *user_reward,
        authority: *registry,
        amount: reward_for(s.staked_at, now),
        decimals,
        signer: Signer::Registry {
            creator: d.creator,
            collection_mint: d.collection_mint,
            bump: d.bump_seed,
        },
    }
}

/// Claims the accrued reward: decides the call and returns its plan. `now`
/// is the ledger time.
pub fn claim_rewards(program_id: &Address, accounts: &[AccountView], now: i64) -> (r: Result<
    Vec<LedgerAction>,
    ProcessError,
>)
    ensures
        plan_view(r) == claim_outcome(*program_id, accounts@, now),
{
    if accounts.len() < 7 {
        return Err(ProcessError::NotEnoughAccountKeys);
    }
    let user = &accounts[0];
    let record = &accounts[1];
    let user_reward = &accounts[2];
    let reward_mint = &accounts[3];
    let registry = &accounts[4];
    let nft_mint = &accounts[5];
    let token_program = &accounts[6];
    if !user.is_signer {
        return Err(ProcessError::MissingRequiredSignature);
    }
    if !record.is_writable || !record.owner.same(program_id) {
        return Err(ProcessError::InvalidAccountData);
    }
    if !user_reward.is_writable || !reward_mint.is_writable {
        return Err(ProcessError::InvalidAccountData);
    }
    if !registry.owner.same(program_id) {
        return Err(ProcessError::InvalidAccountOwner);
    }
    match check_token_program(&token_program.key) {
        Err(e) => return Err(e),
        Ok(_) => {},
    }
    match check_stake_address(program_id, &registry.key, &nft_mint.key, &user.key, &record.key) {
        Err(e) => return Err(e),
        Ok(_) => {},
    }
    if record.data.len() == 0 {
        return Err(ProcessError::Custom(NftStakingError::AccountNotInitialized));
    }
    let s = match Stake::decode(record.data.as_slice()) {
        None => return Err(ProcessError::BorshIoError),
        Some(s) => s,
    };
    match check_reward_destination(&user.key, &user_reward.key, &reward_mint.key, &token_program.key, &s) {
        Err(e) => return Err(e),
        Ok(_) => {},
    }
    let decimals = match mint_decimals(reward_mint.data.as_slice()) {
        None => return Err(ProcessError::InvalidAccountData),
        Some(dec) => dec,
    };
    let d = match load_registry(program_id, registry) {
        Err(e) => return Err(e),
        Ok(d) => d,
    };
    let mint = make_reward_mint(
        &user_reward.key,
        &reward_mint.key,
        &registry.key,
        &token_program.key,
        decimals,
        &s,
        &d,
        now,
    );
    let plan = vec![
        mint,
        LedgerAction::WriteStake { address: record.key, record: Stake { staked_at: now, ..s } },
    ];
    assert(plan@ =~= claim_plan(
        record.key,
        user_reward.key,
        reward_mint.key,
        registry.key,
        token_program.key,
        decimals,
        s,
        d,
        now,
    ));
    Ok(plan)
}

} // verus!
