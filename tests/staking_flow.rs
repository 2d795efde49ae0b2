use nft_staking::{
    check_asset, AssetMetadata, CollectionMembership,
    claim_rewards, close_stake_record, init_staking, process_instruction, stake, unstake,
    AccountView, Address, LedgerAction, NftStakingError, ProcessError, Signer, Stake,
    StakeDetails, StakingInstruction, Sysvars,
};
use solana_program::pubkey::Pubkey;

fn addr(n: u8) -> Address {
    Address::new([n; 32])
}

fn pk(a: &Address) -> Pubkey {
    Pubkey::new_from_array(a.bytes)
}

fn from_pk(p: &Pubkey) -> Address {
    Address::new(p.to_bytes())
}

fn program() -> Address {
    addr(9)
}
fn creator() -> Address {
    addr(1)
}
fn collection() -> Address {
    addr(2)
}
fn reward_mint() -> Address {
    addr(3)
}
fn owner() -> Address {
    addr(4)
}
fn asset() -> Address {
    addr(5)
}
fn token_program() -> Address {
    from_pk(&spl_token::id())
}

fn account(key: Address, owner: Address, data: Vec<u8>, signer: bool, writable: bool) -> AccountView {
    AccountView { key, owner, lamports: 1_000_000, data, is_signer: signer, is_writable: writable }
}

fn token_account_bytes(mint: &Address, holder: &Address, amount: u64) -> Vec<u8> {
    let mut d = vec![0u8; 165];
    d[0..32].copy_from_slice(&mint.bytes);
    d[32..64].copy_from_slice(&holder.bytes);
    d[64..72].copy_from_slice(&amount.to_le_bytes());
    d[108] = 1;
    d
}

fn mint_bytes(decimals: u8) -> Vec<u8> {
    let mut d = vec![0u8; 82];
    d[44] = decimals;
    d[45] = 1;
    d
}

fn metadata_bytes(mint: &Address, membership: Option<(Address, bool)>) -> Vec<u8> {
    let mut d = vec![4u8];
    d.extend_from_slice(&[7u8; 32]);
    d.extend_from_slice(&mint.bytes);
    for text in ["Asset", "AST", "https://example.org/a.json"] {
        d.extend_from_slice(&(text.len() as u32).to_le_bytes());
        d.extend_from_slice(text.as_bytes());
    }
    d.extend_from_slice(&0u16.to_le_bytes());
    d.push(0); // creators
    d.push(0); // primary sale happened
    d.push(1); // mutable
    d.push(0); // edition nonce
    d.push(0); // token standard
    match membership {
        Some((key, verified)) => {
            d.push(1);
            d.push(verified as u8);
            d.extend_from_slice(&key.bytes);
        }
        None => d.push(0),
    }
    d.push(0); // uses
    d.push(0); // collection details
    d.push(0); // programmable config
    d
}

fn registry() -> (Address, u8) {
    let (k, b) = Pubkey::find_program_address(
        &[b"stake_details", &creator().bytes, &collection().bytes],
        &pk(&program()),
    );
    (from_pk(&k), b)
}

fn details() -> StakeDetails {
    StakeDetails {
        creator: creator(),
        reward_token_mint: reward_mint(),
        collection_mint: collection(),
        bump_seed: registry().1,
    }
}

fn record() -> (Address, u8) {
    let (k, b) = Pubkey::find_program_address(
        &[b"stake", &registry().0.bytes, &asset().bytes, &owner().bytes],
        &pk(&program()),
    );
    (from_pk(&k), b)
}

fn ata(wallet: &Address, mint: &Address) -> Address {
    from_pk(&spl_associated_token_account::get_associated_token_address_with_program_id(
        &pk(wallet),
        &pk(mint),
        &spl_token::id(),
    ))
}

fn escrow() -> Address {
    ata(&record().0, &asset())
}

fn user_reward() -> Address {
    ata(&owner(), &reward_mint())
}

fn user_holding() -> Address {
    addr(6)
}

fn init_accounts() -> Vec<AccountView> {
    vec![
        account(creator(), addr(0), vec![], true, true),
        account(reward_mint(), token_program(), mint_bytes(6), false, true),
        account(collection(), token_program(), vec![], false, false),
        account(registry().0, addr(0), vec![], false, true),
        account(token_program(), addr(0), vec![], false, false),
        account(addr(0), addr(0), vec![], false, false),
    ]
}

fn stake_accounts() -> Vec<AccountView> {
    vec![
        account(owner(), addr(0), vec![], true, true),
        account(asset(), token_program(), vec![], false, false),
        account(addr(8), addr(10), metadata_bytes(&asset(), Some((collection(), true))), false, false),
        account(user_holding(), token_program(), token_account_bytes(&asset(), &owner(), 1), false, true),
        account(user_reward(), token_program(), vec![], false, true),
        account(registry().0, program(), details().encode(), false, false),
        account(record().0, addr(0), vec![], false, true),
        account(escrow(), addr(0), vec![], false, true),
        account(token_program(), addr(0), vec![], false, false),
        account(addr(11), addr(0), vec![], false, false),
        account(addr(0), addr(0), vec![], false, false),
    ]
}

fn stake_record(staked_at: i64) -> Stake {
    Stake {
        stake_details_key: registry().0,
        nft_mint: asset(),
        reward_mint: reward_mint(),
        reward_mint_ata: user_reward(),
        staked_at,
    }
}

fn claim_accounts(staked_at: i64) -> Vec<AccountView> {
    vec![
        account(owner(), addr(0), vec![], true, true),
        account(record().0, program(), stake_record(staked_at).encode(), false, true),
        account(user_reward(), token_program(), vec![], false, true),
        account(reward_mint(), token_program(), mint_bytes(6), false, true),
        account(registry().0, program(), details().encode(), false, false),
        account(asset(), token_program(), vec![], false, false),
        account(token_program(), addr(0), vec![], false, false),
    ]
}

fn unstake_accounts(staked_at: i64, escrowed: u64) -> Vec<AccountView> {
    vec![
        account(owner(), addr(0), vec![], true, true),
        account(user_holding(), token_program(), token_account_bytes(&asset(), &owner(), 0), false, true),
        account(user_reward(), token_program(), vec![], false, true),
        account(registry().0, program(), details().encode(), false, false),
        account(record().0, program(), stake_record(staked_at).encode(), false, true),
        account(escrow(), token_program(), token_account_bytes(&asset(), &record().0, escrowed), false, true),
        account(asset(), token_program(), vec![], false, false),
        account(reward_mint(), token_program(), mint_bytes(6), false, true),
        account(token_program(), addr(0), vec![], false, false),
    ]
}

fn registry_signer() -> Signer {
    Signer::Registry { creator: creator(), collection_mint: collection(), bump: registry().1 }
}

fn record_signer() -> Signer {
    Signer::StakeRecord { registry: registry().0, nft_mint: asset(), owner: owner(), bump: record().1 }
}

#[test]
fn initialize_creates_registry_at_derived_address() {
    let plan = init_staking(&program(), &init_accounts(), 2_000).unwrap();
    assert_eq!(
        plan,
        vec![
            LedgerAction::CreateAccount {
                payer: creator(),
                address: registry().0,
                lamports: 2_000,
                space: 97,
                owner: program(),
                signer: registry_signer(),
            },
            LedgerAction::WriteRegistry { address: registry().0, record: details() },
            LedgerAction::SetMintAuthority {
                token_program: token_program(),
                mint: reward_mint(),
                new_authority: registry().0,
                current_authority: creator(),
            },
        ]
    );
}

#[test]
fn initialize_twice_fails() {
    let mut accounts = init_accounts();
    init_staking(&program(), &accounts, 2_000).unwrap();
    accounts[3].data = details().encode();
    assert_eq!(init_staking(&program(), &accounts, 2_000), Err(ProcessError::AccountAlreadyInitialized));
}

#[test]
fn initialize_rejects_substituted_registry() {
    let mut accounts = init_accounts();
    accounts[3].key = addr(12);
    assert_eq!(init_staking(&program(), &accounts, 2_000), Err(ProcessError::InvalidAccountData));
}

#[test]
fn initialize_requires_signing_caller() {
    let mut accounts = init_accounts();
    accounts[0].is_signer = false;
    assert_eq!(init_staking(&program(), &accounts, 2_000), Err(ProcessError::InvalidAccountData));
}

#[test]
fn initialize_needs_all_accounts() {
    let accounts = init_accounts();
    assert_eq!(init_staking(&program(), &accounts[..5], 2_000), Err(ProcessError::NotEnoughAccountKeys));
}

#[test]
fn stake_moves_asset_into_escrow() {
    let plan = stake(&program(), &stake_accounts(), 1000, 3_000).unwrap();
    assert_eq!(
        plan,
        vec![
            LedgerAction::CreateAccount {
                payer: owner(),
                address: record().0,
                lamports: 3_000,
                space: 136,
                owner: program(),
                signer: record_signer(),
            },
            LedgerAction::CreateTokenAccount {
                payer: owner(),
                address: escrow(),
                wallet: record().0,
                mint: asset(),
                token_program: token_program(),
            },
            LedgerAction::Transfer {
                token_program: token_program(),
                source: user_holding(),
                destination: escrow(),
                authority: owner(),
                amount: 1,
                signer: Signer::Caller,
            },
            LedgerAction::WriteStake { address: record().0, record: stake_record(1000) },
        ]
    );
}

#[test]
fn stake_rejects_missing_collection() {
    let mut accounts = stake_accounts();
    accounts[2].data = metadata_bytes(&asset(), None);
    assert_eq!(stake(&program(), &accounts, 1000, 3_000), Err(ProcessError::Custom(NftStakingError::NoCollectionSet)));
}

#[test]
fn stake_rejects_metadata_of_other_mint() {
    let mut accounts = stake_accounts();
    accounts[2].data = metadata_bytes(&addr(13), Some((collection(), true)));
    assert_eq!(stake(&program(), &accounts, 1000, 3_000), Err(ProcessError::Custom(NftStakingError::InvalidMetadataAccount)));
}

#[test]
fn stake_rejects_other_collection() {
    let mut accounts = stake_accounts();
    accounts[2].data = metadata_bytes(&asset(), Some((addr(14), true)));
    assert_eq!(stake(&program(), &accounts, 1000, 3_000), Err(ProcessError::Custom(NftStakingError::CollectionMintMismatch)));
}

#[test]
fn stake_rejects_unverified_collection() {
    let mut accounts = stake_accounts();
    accounts[2].data = metadata_bytes(&asset(), Some((collection(), false)));
    assert_eq!(stake(&program(), &accounts, 1000, 3_000), Err(ProcessError::Custom(NftStakingError::NftNotVerified)));
}

#[test]
fn stake_rejects_empty_holding() {
    let mut accounts = stake_accounts();
    accounts[3].data = token_account_bytes(&asset(), &owner(), 0);
    assert_eq!(stake(&program(), &accounts, 1000, 3_000), Err(ProcessError::Custom(NftStakingError::NftEmpty)));
}

#[test]
fn stake_rejects_undecodable_metadata() {
    let mut accounts = stake_accounts();
    accounts[2].data = vec![];
    assert_eq!(stake(&program(), &accounts, 1000, 3_000), Err(ProcessError::BorshIoError));
}

#[test]
fn stake_rejects_substituted_accounts() {
    for index in [5usize, 6, 7] {
        let mut accounts = stake_accounts();
        accounts[index].key = addr(15);
        assert!(stake(&program(), &accounts, 1000, 3_000).is_err(), "account {}", index);
    }
}

#[test]
fn stake_rejects_occupied_record() {
    let mut accounts = stake_accounts();
    accounts[6].data = stake_record(1).encode();
    assert_eq!(stake(&program(), &accounts, 1000, 3_000), Err(ProcessError::AccountAlreadyInitialized));
}

#[test]
fn stake_succeeds_again_after_record_closed() {
    let mut accounts = stake_accounts();
    accounts[6].lamports = 0;
    accounts[6].data = vec![];
    let plan = stake(&program(), &accounts, 2000, 3_000).unwrap();
    assert_eq!(plan[3], LedgerAction::WriteStake { address: record().0, record: stake_record(2000) });
}

#[test]
fn claim_mints_elapsed_reward_and_resets_checkpoint() {
    let plan = claim_rewards(&program(), &claim_accounts(1000), 1005).unwrap();
    assert_eq!(
        plan,
        vec![
            LedgerAction::MintTo {
                token_program: token_program(),
                mint: reward_mint(),
                destination: user_reward(),
                authority: registry().0,
                amount: 5000,
                decimals: 6,
                signer: registry_signer(),
            },
            LedgerAction::WriteStake { address: record().0, record: stake_record(1005) },
        ]
    );
}

#[test]
fn second_claim_without_elapsed_time_mints_nothing() {
    let mut accounts = claim_accounts(1000);
    let plan = claim_rewards(&program(), &accounts, 1005).unwrap();
    if let LedgerAction::WriteStake { record, .. } = plan[1] {
        accounts[1].data = record.encode();
    }
    let again = claim_rewards(&program(), &accounts, 1005).unwrap();
    assert!(matches!(again[0], LedgerAction::MintTo { amount: 0, .. }));
}

#[test]
fn claim_rejects_uninitialized_record() {
    let mut accounts = claim_accounts(1000);
    accounts[1].data = vec![];
    assert_eq!(claim_rewards(&program(), &accounts, 1005), Err(ProcessError::Custom(NftStakingError::AccountNotInitialized)));
}

#[test]
fn claim_rejects_foreign_registry_owner() {
    let mut accounts = claim_accounts(1000);
    accounts[4].owner = addr(16);
    assert_eq!(claim_rewards(&program(), &accounts, 1005), Err(ProcessError::InvalidAccountOwner));
}

#[test]
fn claim_requires_signature() {
    let mut accounts = claim_accounts(1000);
    accounts[0].is_signer = false;
    assert_eq!(claim_rewards(&program(), &accounts, 1005), Err(ProcessError::MissingRequiredSignature));
}

#[test]
fn claim_rejects_redirected_reward_account() {
    let mut accounts = claim_accounts(1000);
    accounts[2].key = addr(17);
    assert_eq!(claim_rewards(&program(), &accounts, 1005), Err(ProcessError::InvalidAccountData));
}

#[test]
fn claim_rejects_substituted_record() {
    let mut accounts = claim_accounts(1000);
    accounts[1].key = addr(18);
    assert_eq!(claim_rewards(&program(), &accounts, 1005), Err(ProcessError::InvalidAccountData));
}

#[test]
fn claim_rejects_truncated_record() {
    let mut accounts = claim_accounts(1000);
    accounts[1].data.pop();
    assert_eq!(claim_rewards(&program(), &accounts, 1005), Err(ProcessError::BorshIoError));
}

#[test]
fn unstake_returns_asset_and_mints_final_reward() {
    let plan = unstake(&program(), &unstake_accounts(1005, 1), 1010).unwrap();
    assert_eq!(
        plan,
        vec![
            LedgerAction::Transfer {
                token_program: token_program(),
                source: escrow(),
                destination: user_holding(),
                authority: record().0,
                amount: 1,
                signer: record_signer(),
            },
            LedgerAction::MintTo {
                token_program: token_program(),
                mint: reward_mint(),
                destination: user_reward(),
                authority: registry().0,
                amount: 5000,
                decimals: 6,
                signer: registry_signer(),
            },
            LedgerAction::CloseTokenAccount {
                token_program: token_program(),
                account: escrow(),
                destination: owner(),
                authority: record().0,
                signer: record_signer(),
            },
            LedgerAction::CloseRecord { record: record().0, recipient: owner() },
        ]
    );
}

#[test]
fn unstake_rejects_empty_escrow() {
    assert_eq!(
        unstake(&program(), &unstake_accounts(1005, 0), 1010),
        Err(ProcessError::Custom(NftStakingError::NoNFTFound))
    );
}

#[test]
fn unstake_rejects_substituted_escrow() {
    let mut accounts = unstake_accounts(1005, 1);
    accounts[5].key = addr(19);
    assert_eq!(unstake(&program(), &accounts, 1010), Err(ProcessError::InvalidAccountData));
}

#[test]
fn unstake_rejects_substituted_registry() {
    let mut accounts = unstake_accounts(1005, 1);
    accounts[3].key = addr(20);
    assert!(unstake(&program(), &accounts, 1010).is_err());
}

#[test]
fn custody_round_trip_returns_the_unit() {
    let staked = stake(&program(), &stake_accounts(), 1000, 3_000).unwrap();
    let unstaked = unstake(&program(), &unstake_accounts(1000, 1), 1010).unwrap();
    let mut balance: i64 = 0;
    for action in staked.iter().chain(unstaked.iter()) {
        if let LedgerAction::Transfer { source, destination, amount, .. } = action {
            if *source == user_holding() {
                balance -= *amount as i64;
            }
            if *destination == user_holding() {
                balance += *amount as i64;
            }
        }
    }
    assert_eq!(balance, 0);
}

#[test]
fn closing_record_credits_deposit() {
    assert_eq!(close_stake_record(500, 1_200), Ok((1_700, 0)));
}

#[test]
fn closing_record_overflow_is_reported() {
    assert_eq!(
        close_stake_record(u64::MAX, 1),
        Err(ProcessError::Custom(NftStakingError::StakeAccountCloseError))
    );
}

#[test]
fn scenario_initialize_stake_claim_unstake() {
    let init = init_staking(&program(), &init_accounts(), 2_000).unwrap();
    assert!(matches!(init[1], LedgerAction::WriteRegistry { address, .. } if address == registry().0));
    let staked = stake(&program(), &stake_accounts(), 1000, 3_000).unwrap();
    assert_eq!(staked[3], LedgerAction::WriteStake { address: record().0, record: stake_record(1000) });
    let claimed = claim_rewards(&program(), &claim_accounts(1000), 1005).unwrap();
    assert!(matches!(claimed[0], LedgerAction::MintTo { amount: 5000, .. }));
    assert_eq!(claimed[1], LedgerAction::WriteStake { address: record().0, record: stake_record(1005) });
    let unstaked = unstake(&program(), &unstake_accounts(1005, 1), 1010).unwrap();
    assert!(matches!(unstaked[1], LedgerAction::MintTo { amount: 5000, .. }));
    assert!(matches!(unstaked[0], LedgerAction::Transfer { destination, amount: 1, .. } if destination == user_holding()));
    assert_eq!(unstaked[3], LedgerAction::CloseRecord { record: record().0, recipient: owner() });
    assert_eq!(close_stake_record(10_000, 3_000), Ok((13_000, 0)));
}

#[test]
fn dispatcher_routes_by_opcode() {
    let sysvars = Sysvars { unix_timestamp: 1005, registry_rent: 2_000, stake_rent: 3_000 };
    assert_eq!(
        process_instruction(&program(), &init_accounts(), &[0], &sysvars),
        init_staking(&program(), &init_accounts(), 2_000)
    );
    assert_eq!(
        process_instruction(&program(), &stake_accounts(), &[1, 7], &sysvars),
        stake(&program(), &stake_accounts(), 1005, 3_000)
    );
    assert_eq!(
        process_instruction(&program(), &claim_accounts(1000), &[2], &sysvars),
        claim_rewards(&program(), &claim_accounts(1000), 1005)
    );
    assert_eq!(
        process_instruction(&program(), &claim_accounts(1000), &[3], &sysvars),
        Err(ProcessError::InvalidInstructionData)
    );
}

#[test]
fn unpack_reads_opcode() {
    assert_eq!(StakingInstruction::unpack(&[0]), Ok(StakingInstruction::Initialize));
    assert_eq!(StakingInstruction::unpack(&[1, 9, 9]), Ok(StakingInstruction::Stake));
    assert_eq!(StakingInstruction::unpack(&[2]), Ok(StakingInstruction::ClaimRewards));
    assert_eq!(StakingInstruction::unpack(&[3]), Err(ProcessError::InvalidInstructionData));
    assert_eq!(StakingInstruction::unpack(&[]), Err(ProcessError::InvalidInstructionData));
}

#[test]
fn fixed_program_ids_match_the_token_crates() {
    assert_eq!(nft_staking::TOKEN_PROGRAM_ID, spl_token::id().to_bytes());
    assert_eq!(nft_staking::ASSOCIATED_TOKEN_PROGRAM_ID, spl_associated_token_account::id().to_bytes());
}

#[test]
fn canonical_token_account_matches_token_crate() {
    let derived = nft_staking::derive_associated_token_address(&owner(), &reward_mint(), &token_program());
    assert_eq!(derived, Some(user_reward()));
}

#[test]
fn stake_rejects_foreign_token_program() {
    let mut accounts = stake_accounts();
    accounts[8].key = addr(21);
    assert_eq!(stake(&program(), &accounts, 1000, 3_000), Err(ProcessError::IncorrectProgramId));
}

#[test]
fn claim_rejects_foreign_token_program() {
    let mut accounts = claim_accounts(1000);
    accounts[6].key = addr(21);
    assert_eq!(claim_rewards(&program(), &accounts, 1005), Err(ProcessError::IncorrectProgramId));
}

#[test]
fn unstake_rejects_foreign_token_program() {
    let mut accounts = unstake_accounts(1005, 1);
    accounts[8].key = addr(21);
    assert_eq!(unstake(&program(), &accounts, 1010), Err(ProcessError::IncorrectProgramId));
}

#[test]
fn stake_rejects_uninitialized_holding_account() {
    let mut accounts = stake_accounts();
    accounts[3].data[108] = 0;
    assert_eq!(stake(&program(), &accounts, 1000, 3_000), Err(ProcessError::InvalidAccountData));
}

#[test]
fn claim_rejects_uninitialized_reward_mint() {
    let mut accounts = claim_accounts(1000);
    accounts[3].data[45] = 0;
    assert_eq!(claim_rewards(&program(), &accounts, 1005), Err(ProcessError::InvalidAccountData));
}

#[test]
fn asset_checks_follow_metadata() {
    let member = |key: Address, verified: bool| Some(CollectionMembership { key, verified });
    let ok = AssetMetadata { mint: asset(), collection: member(collection(), true) };
    assert_eq!(check_asset(&ok, &asset(), &details()), Ok(()));
    let none = AssetMetadata { mint: asset(), collection: None };
    assert_eq!(check_asset(&none, &asset(), &details()), Err(ProcessError::Custom(NftStakingError::NoCollectionSet)));
    assert_eq!(check_asset(&ok, &addr(22), &details()), Err(ProcessError::Custom(NftStakingError::InvalidMetadataAccount)));
    let other = AssetMetadata { mint: asset(), collection: member(addr(23), true) };
    assert_eq!(check_asset(&other, &asset(), &details()), Err(ProcessError::Custom(NftStakingError::CollectionMintMismatch)));
    let unverified = AssetMetadata { mint: asset(), collection: member(collection(), false) };
    assert_eq!(check_asset(&unverified, &asset(), &details()), Err(ProcessError::Custom(NftStakingError::NftNotVerified)));
}

#[test]
fn balance_checks() {
    assert_eq!(nft_staking::check_holding(0), Err(ProcessError::Custom(NftStakingError::NftEmpty)));
    assert_eq!(nft_staking::check_holding(1), Ok(()));
    assert_eq!(nft_staking::check_escrow(0), Err(ProcessError::Custom(NftStakingError::NoNFTFound)));
    assert_eq!(nft_staking::check_escrow(2), Ok(()));
}

#[test]
fn reward_mint_carries_decimals_and_elapsed_reward() {
    let action = nft_staking::make_reward_mint(
        &user_reward(),
        &reward_mint(),
        &registry().0,
        &token_program(),
        9,
        &stake_record(1000),
        &details(),
        1003,
    );
    assert_eq!(
        action,
        LedgerAction::MintTo {
            token_program: token_program(),
            mint: reward_mint(),
            destination: user_reward(),
            authority: registry().0,
            amount: 3000,
            decimals: 9,
            signer: registry_signer(),
        }
    );
}
