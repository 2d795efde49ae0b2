use vstd::prelude::*;
use crate::address::Address;
use crate::checks::plan_view;
use crate::claim::{claim_outcome, claim_rewards};
use crate::errors::ProcessError;
use crate::init::{init_outcome, init_staking};
use crate::ledger::{AccountView, LedgerAction};
use crate::staking::{stake, stake_outcome};

verus! {

/// The operations that an instruction's first byte selects.
#[derive(Clone, Copy, Debug, PartialEq, Eq)]
pub enum StakingInstruction {
    Initialize,
    Stake,
    ClaimRewards,
}

/// The ledger values that an operation reads besides its accounts.
#[derive(Clone, Copy, Debug, PartialEq, Eq)]
pub struct Sysvars {
    /// The ledger time.
    pub unix_timestamp: i64,
    /// The deposit that keeps a registry record alive.
    pub registry_rent: u64,
    /// The deposit that keeps a stake record alive.
    pub stake_rent: u64,
}

/// The operation selected by the opcode byte: 0, 1 or 2.
pub open spec fn instruction_of(data: Seq<u8>) -> Result<StakingInstruction, ProcessError> {
    if data.len() == 0 {
        Err(ProcessError::InvalidInstructionData)
    } else if data[0] == 0 {
        Ok(StakingInstruction::Initialize)
    } else if data[0] == 1 {
        Ok(StakingInstruction::Stake)
    } else if data[0] == 2 {
        Ok(StakingInstruction::ClaimRewards)
    } else {
        Err(ProcessError::InvalidInstructionData)
    }
}

impl StakingInstruction {
    /// Reads the opcode byte; the bytes after it are ignored.
    pub fn unpack(instruction_data: &[u8]) -> (r: Result<StakingInstruction, ProcessError>)
        ensures
            r == instruction_of(instruction_data@),
    {
        if instruction_data.len() == 0 {
            return Err(ProcessError::InvalidInstructionData);
        }
        let variant = instruction_data[0];
        if variant == 0 {
            Ok(StakingInstruction::Initialize)
        } else if variant == 1 {
            Ok(StakingInstruction::Stake)
        } else if variant == 2 {
            Ok(StakingInstruction::ClaimRewards)
        } else {
            Err(ProcessError::InvalidInstructionData)
        }
    }
}

/// The outcome of an instruction: the selected operation's outcome.
pub open spec fn process_outcome(
    program_id: Address,
    accounts: Seq<AccountView>,
    data: Seq<u8>,
    sysvars: Sysvars,
) -> Result<Seq<LedgerAction>, ProcessError> {
    match instruction_of(data) {
        Err(e) => Err(e),
        Ok(StakingInstruction::Initialize) => init_outcome(program_id, accounts, sysvars.registry_rent),
        Ok(StakingInstruction::Stake) => stake_outcome(
            program_id,
            accounts,
            sysvars.unix_timestamp,
            sysvars.stake_rent,
        ),
        Ok(StakingInstruction::ClaimRewards) => claim_outcome(program_id, accounts, sysvars.unix_timestamp),
    }
}

/// Decodes the instruction and decides the selected operation.
pub fn process_instruction(
    program_id: &Address,
    accounts_info: &[AccountView],
    instruction_data: &[u8],
    sysvars: &Sysvars,
) -> (r: Result<Vec<LedgerAction>, ProcessError>)
    ensures
        plan_view(r) == process_outcome(*program_id, accounts_info@, instruction_data@, *sysvars),
{
    match StakingInstruction::unpack(instruction_data) {
        Err(e) => Err(e),
        Ok(StakingInstruction::Initialize) => init_staking(
            program_id,
            accounts_info,
            sysvars.registry_rent,
        ),
        Ok(StakingInstruction::Stake) => stake(
            program_id,
            accounts_info,
            sysvars.unix_timestamp,
            sysvars.stake_rent,
        ),
        Ok(StakingInstruction::ClaimRewards) => claim_rewards(
            program_id,
            accounts_info,
            sysvars.unix_timestamp,
        ),
    }
}

} // verus!
