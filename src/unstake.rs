use vstd::prelude::*;
use crate::address::Address;
use crate::bytes::u64_from_le;
use crate::checks::{
    check_reward_destination, check_stake_address, load_registry, plan_view, registry_check,
    reward_destination_check, stake_address_check, token_program_check, check_token_program,
    token_account_check, check_token_account,
};
use crate::claim::{make_reward_mint, reward_mint_action};
use crate::errors::{NftStakingError, ProcessError};
use crate::ledger::{AccountView, LedgerAction, Signer};
use crate::services::{
    mint_decimals, mint_unpacks,
    token_account_amount, token_account_unpacks,
};
use crate::state::{Stake, StakeDetails, decode_stake};

verus! {

/// Unstaking an asset. Accounts: caller, caller's holding account, caller's
/// reward account, registry, stake record, escrow, asset mint, reward mint,
/// token program.
///
/// Rejected unless: the caller signs and is writable; the holding and reward
/// accounts, the record, the escrow and the reward mint are writable; the
/// registry and the record are the program's; the token program is the
/// token ledger's; the record sits at the address
/// derived from (registry, asset, caller) and holds a stake record; the
/// escrow is the record's canonical token account for the asset and holds at
/// least one unit; the registry sits at its derived address; the reward
/// account is the caller's canonical one and the one the record caches; the
/// mint is initialized. The plan returns the escrowed units, mints the final
/// reward, closes the escrow and then the record, both deposits going to
/// the caller.
pub open spec fn unstake_outcome(program_id: Address, accounts: Seq<AccountView>, now: i64) -> Result<
    Seq<LedgerAction>,
    ProcessError,
> {
    if accounts.len() < 9 {
        Err(ProcessError::NotEnoughAccountKeys)
    } else {
        let user = accounts[0];
        let user_token = accounts[1];
        let user_reward = accounts[2];
        let registry = accounts[3];
        let record = accounts[4];
        let escrow = accounts[5];
        let nft_mint = accounts[6];
        let reward_mint = accounts[7];
        let token_program = accounts[8];
        if !user.is_signer || !user.is_writable {
            Err(ProcessError::MissingRequiredSignature)
        } else if !user_token.is_writable || !user_reward.is_writable {
            Err(ProcessError::InvalidAccountData)
        } else if registry.owner@ != program_id@ {
            Err(ProcessError::InvalidAccountData)
        } else if !record.is_writable || record.owner@ != program_id@ {
            Err(ProcessError::InvalidAccountData)
        } else if !escrow.is_writable || !reward_mint.is_writable {
            Err(ProcessError::InvalidAccountData)
        } else if token_program_check(token_program.key) is Err {
            Err(token_program_check(token_program.key)->Err_0)
        } else {
            match stake_address_check(program_id, registry.key, nft_mint.key, user.key, record.key) {
                Err(e) => Err(e),
                Ok(bump) => if record.data@.len() == 0 {
                    Err(ProcessError::Custom(NftStakingError::AccountNotInitialized))
                } else if token_account_check(record.key, nft_mint.key, token_program.key, escrow.key)
                    is Err {
                    Err(token_account_check(record.key, nft_mint.key, token_program.key, escrow.key)->Err_0)
                } else if !token_account_unpacks(escrow.data@) {
                    Err(ProcessError::InvalidAccountData)
                } else if escrow_check(u64_from_le(escrow.data@.subrange(64, 72))) is Err {
                    Err(escrow_check(u64_from_le(escrow.data@.subrange(64, 72)))->Err_0)
                } else {
                    match decode_stake(record.data@) {
                        None => Err(ProcessError::BorshIoError),
                        Some(s) => match registry_check(program_id, registry) {
                            Err(e) => Err(e),
                            Ok(d) => if reward_destination_check(
                                user.key,
                                user_reward.key,
                                reward_mint.key,
                                token_program.key,
                                s,
                            ) is Err {
                                Err(
                                    reward_destination_check(
                                        user.key,
                                        user_reward.key,
                                        reward_mint.key,
                                        token_program.key,
                                        s,
                                    )->Err_0,
                                )
                            } else if !mint_unpacks(reward_mint.data@) {
                                Err(ProcessError::InvalidAccountData)
                            } else {
                                Ok(
                                    unstake_plan(
                                        user.key,
                                        user_token.key,
                                        user_reward.key,
                                        registry.key,
                                        record.key,
                                        escrow.key,
                                        nft_mint.key,
                                        reward_mint.key,
                                        token_program.key,
                                        u64_from_le(escrow.data@.subrange(64, 72)),
                                        reward_mint.data@[44],
                                        bump,
                                        s,
                                        d,
                                        now,
                                    ),
                                )
                            },
                        },
                    }
                },
            }
        }
    }
}

pub open spec fn unstake_plan(
    user: Address,
    user_token: Address,
    user_reward: Address,
    registry: Address,
    record: Address,
    escrow: Address,
    nft_mint: Address,
    reward_mint: Address,
    token_program: Address,
    escrowed: u64,
    decimals: u8,
    bump: u8,
    s: Stake,
    d: StakeDetails,
    now: i64,
) -> Seq<LedgerAction> {
    let record_signer = Signer::StakeRecord { registry, nft_mint, owner: user, bump };
    seq![
        LedgerAction::Transfer {
            token_program,
            source: escrow,
            destination: user_token,
            authority: record,
            amount: escrowed,
            signer: record_signer,
        },
        reward_mint_action(user_reward, reward_mint, registry, token_program, decimals, s, d, now),
        LedgerAction::CloseTokenAccount {
            token_program,
            account: escrow,
            destination: user,
            authority: record,
            signer: record_signer,
        },
        LedgerAction::CloseRecord { record, recipient: user },
    ]
}

/// Unstakes an asset: decides the call and returns its plan. `now` is the
/// ledger time.
pub fn unstake(program_id: &Address, accounts: &[AccountView], now: i64) -> (r: Result<
    Vec<LedgerAction>,
    ProcessError,
>)
    ensures
        plan_view(r) == unstake_outcome(*program_id, accounts@, now),
{
    if accounts.len() < 9 {
        return Err(ProcessError::NotEnoughAccountKeys);
    }
    let user = &accounts[0];
    let user_token = &accounts[1];
    let user_reward = &accounts[2];
    let registry = &accounts[3];
    let record = &accounts[4];
    let escrow = &accounts[5];
    let nft_mint = &accounts[6];
    let reward_mint = &accounts[7];
    let token_program = &accounts[8];
    if !user.is_signer || !user.is_writable {
        return Err(ProcessError::MissingRequiredSignature);
    }
    if !user_token.is_writable || !user_reward.is_writable {
        return Err(ProcessError::InvalidAccountData);
    }
    if !registry.owner.same(program_id) {
        return Err(ProcessError::InvalidAccountData);
    }
    if !record.is_writable || !record.owner.same(program_id) {
        return Err(ProcessError::InvalidAccountData);
    }
    if !escrow.is_writable || !reward_mint.is_writable {
        return Err(ProcessError::InvalidAccountData);
    }
    match check_token_program(&token_program.key) {
        Err(e) => return Err(e),
        Ok(_) => {},
    }
    let bump = match check_stake_address(
        program_id,
        &registry.key,
        &nft_mint.key,
        &user.key,
        &record.key,
    ) {
        Err(e) => return Err(e),
        Ok(b) => b,
    };
    if record.data.len() == 0 {
        return Err(ProcessError::Custom(NftStakingError::AccountNotInitialized));
    }
    match check_token_account(&record.key, &nft_mint.key, &token_program.key, &escrow.key) {
        Err(e) => return Err(e),
        Ok(_) => {},
    }
    let escrowed = match token_account_amount(escrow.data.as_slice()) {
        None => return Err(ProcessError::InvalidAccountData),
        Some(a) => a,
    };
    match check_escrow(escrowed) {
        Err(e) => return Err(e),
        Ok(_) => {},
    }
    let s = match Stake::decode(record.data.as_slice()) {
        None => return Err(ProcessError::BorshIoError),
        Some(s) => s,
    };
    let d = match load_registry(program_id, registry) {
        Err(e) => return Err(e),
        Ok(d) => d,
    };
    match check_reward_destination(&user.key, &user_reward.key, &reward_mint.key, &token_program.key, &s) {
        Err(e) => return Err(e),
        Ok(_) => {},
    }
    let decimals = match mint_decimals(reward_mint.data.as_slice()) {
        None => return Err(ProcessError::InvalidAccountData),
        Some(dec) => dec,
    };
    let record_signer = Signer::StakeRecord {
        registry: registry.key,
        nft_mint: nft_mint.key,
        owner: user.key,
        bump,
    };
    let mint = make_reward_mint(
        &user_reward.key,
        &reward_mint.key,
        &registry.key,
        &token_program.key,
        decimals,
        &s,
        &d,
        now,
    );
    let plan = vec![
        LedgerAction::Transfer {
            token_program: token_program.key,
            source: escrow.key,
            destination: user_token.key,
            authority: record.key,
            amount: escrowed,
            signer: record_signer,
        },
        mint,
        LedgerAction::CloseTokenAccount {
            token_program: token_program.key,
            account: escrow.key,
            destination: user.key,
            authority: record.key,
            signer: record_signer,
        },
        LedgerAction::CloseRecord { record: record.key, recipient: user.key },
    ];
    assert(plan@ =~= unstake_plan(
        user.key,
        user_token.key,
        user_reward.key,
        registry.key,
        record.key,
        escrow.key,
        nft_mint.key,
        reward_mint.key,
        token_program.key,
        escrowed,
        decimals,
        bump,
        s,
        d,
        now,
    ));
    Ok(plan)
}

/// The escrow must hold at least one unit.
pub open spec fn escrow_check(amount: u64) -> Result<(), ProcessError> {
    if amount == 0 {
        Err(ProcessError::Custom(NftStakingError::NoNFTFound))
    } else {
        Ok(())
    }
}

/// Checks the balance of the escrow.
pub fn check_escrow(amount: u64) -> (r: Result<(), ProcessError>)
    ensures
        r == escrow_check(amount),
{
    if amount == 0 {
        Err(ProcessError::Custom(NftStakingError::NoNFTFound))
    } else {
        Ok(())
    }
}

/// The balances after a stake record is destroyed: the recipient's balance
/// grows by the record's, and the record's drops to zero.
pub open spec fn closure_outcome(recipient_lamports: u64, record_lamports: u64) -> Result<
    (u64, u64),
    ProcessError,
> {
    if recipient_lamports + record_lamports > u64::MAX {
        Err(ProcessError::Custom(NftStakingError::StakeAccountCloseError))
    } else {
        Ok(((recipient_lamports + record_lamports) as u64, 0u64))
    }
}

/// Settles the deposit of a destroyed stake record: returns the new balances
/// of the recipient and of the record, or the overflow error.
pub fn close_stake_record(recipient_lamports: u64, record_lamports: u64) -> (r: Result<
    (u64, u64),
    ProcessError,
>)
    ensures
        r == closure_outcome(recipient_lamports, record_lamports),
{
    match recipient_lamports.checked_add(record_lamports) {
        None => Err(ProcessError::Custom(NftStakingError::StakeAccountCloseError)),
        Some(total) => Ok((total, 0)),
    }
}

} // verus!
