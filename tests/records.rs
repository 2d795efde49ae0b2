use nft_staking::{reward_for, Address, NftStakingError, Signer, Stake, StakeDetails};

#[test]
fn registry_record_layout() {
    let d = StakeDetails {
        creator: Address::new([1; 32]),
        reward_token_mint: Address::new([2; 32]),
        collection_mint: Address::new([3; 32]),
        bump_seed: 254,
    };
    let bytes = d.encode();
    assert_eq!(bytes.len(), StakeDetails::LEN);
    assert_eq!(&bytes[0..32], &[1u8; 32]);
    assert_eq!(&bytes[64..96], &[3u8; 32]);
    assert_eq!(bytes[96], 254);
    assert_eq!(StakeDetails::decode(&bytes), Some(d));
    assert_eq!(StakeDetails::decode(&bytes[..96]), None);
}

#[test]
fn stake_record_layout() {
    let s = Stake {
        stake_details_key: Address::new([1; 32]),
        nft_mint: Address::new([2; 32]),
        reward_mint: Address::new([3; 32]),
        reward_mint_ata: Address::new([4; 32]),
        staked_at: -2,
    };
    let bytes = s.encode();
    assert_eq!(bytes.len(), Stake::LEN);
    assert_eq!(&bytes[128..136], &(-2i64).to_le_bytes());
    assert_eq!(Stake::decode(&bytes), Some(s));
    let mut longer = bytes.clone();
    longer.push(0);
    assert_eq!(Stake::decode(&longer), None);
}

#[test]
fn reward_is_elapsed_time_times_rate() {
    assert_eq!(reward_for(1000, 1005), 5000);
    assert_eq!(reward_for(1005, 1010), 5000);
    assert_eq!(reward_for(7, 7), 0);
}

#[test]
fn reward_is_monotonic_and_bounded() {
    assert_eq!(reward_for(10, 5), 0);
    assert!(reward_for(0, 100) <= reward_for(0, 101));
    assert_eq!(reward_for(i64::MIN, i64::MAX), u64::MAX);
}

#[test]
fn error_codes_follow_declaration_order() {
    assert_eq!(NftStakingError::CollectionMintMismatch.code(), 0);
    assert_eq!(NftStakingError::NftEmpty.code(), 4);
    assert_eq!(NftStakingError::StakeAccountCloseError.code(), 7);
}

#[test]
fn signer_seeds_end_with_bump() {
    let s = Signer::StakeRecord {
        registry: Address::new([1; 32]),
        nft_mint: Address::new([2; 32]),
        owner: Address::new([3; 32]),
        bump: 250,
    };
    let seeds = s.seeds();
    assert_eq!(seeds.len(), 5);
    assert_eq!(seeds[0], b"stake".to_vec());
    assert_eq!(seeds[4], vec![250u8]);
    let r = Signer::Registry { creator: Address::new([1; 32]), collection_mint: Address::new([2; 32]), bump: 9 };
    assert_eq!(r.seeds()[0], b"stake_details".to_vec());
    assert!(Signer::Caller.seeds().is_empty());
}

#[test]
fn addresses_compare_by_bytes() {
    let a = Address::new([5; 32]);
    let mut other = [5u8; 32];
    assert!(a.same(&Address::new(other)));
    other[31] = 6;
    assert!(!a.same(&Address::new(other)));
    assert_eq!(a.to_vec(), vec![5u8; 32]);
}
