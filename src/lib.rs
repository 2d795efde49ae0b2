//! Custodial staking of collection NFTs with linear reward accrual.
//!
//! The library decides every operation from plain values: the accounts that a
//! caller supplied, the ledger time and the rent deposits. Each operation
//! either rejects the call or returns the exact list of ledger actions that
//! carries it out; the caller performs those actions in order.
mod address;
mod bytes;
mod checks;
mod claim;
mod errors;
mod init;
mod laws;
mod ledger;
mod processor;
mod reward;
mod services;
mod staking;
mod state;
mod unstake;

pub use address::Address;
pub use checks::{ASSOCIATED_TOKEN_PROGRAM_ID, TOKEN_PROGRAM_ID, derive_associated_token_address};
pub use claim::{claim_rewards, make_reward_mint};
pub use errors::{NftStakingError, ProcessError};
pub use init::init_staking;
pub use ledger::{AccountView, LedgerAction, Signer};
pub use processor::{StakingInstruction, Sysvars, process_instruction};
pub use reward::{REWARD_RATE, reward_for};
pub use services::{AssetMetadata, CollectionMembership};
pub use staking::{check_asset, check_holding, stake};
pub use state::{Stake, StakeDetails};
pub use unstake::{check_escrow, close_stake_record, unstake};
