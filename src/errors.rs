use vstd::prelude::*;

verus! {

/// Rejections that belong to the staking protocol itself.
#[derive(Clone, Copy, Debug, PartialEq, Eq)]
pub enum NftStakingError {
    /// The asset's collection is not the collection of the registry.
    CollectionMintMismatch,
    /// The asset's metadata names no collection.
    NoCollectionSet,
    /// The metadata record describes another mint.
    InvalidMetadataAccount,
    /// The asset's collection membership is not verified.
    NftNotVerified,
    /// The caller's holding account holds no unit of the asset.
    NftEmpty,
    /// The stake record does not exist yet.
    AccountNotInitialized,
    /// The escrow account holds no unit of the asset.
    NoNFTFound,
    /// Crediting the stake record's deposit to the caller overflowed.
    StakeAccountCloseError,
}

impl NftStakingError {
    /// The numeric code of the error, its position in the declaration.
    pub open spec fn spec_code(self) -> u32 {
        match self {
            NftStakingError::CollectionMintMismatch => 0,
            NftStakingError::NoCollectionSet => 1,
            NftStakingError::InvalidMetadataAccount => 2,
            NftStakingError::NftNotVerified => 3,
            NftStakingError::NftEmpty => 4,
            NftStakingError::AccountNotInitialized => 5,
            NftStakingError::NoNFTFound => 6,
            NftStakingError::StakeAccountCloseError => 7,
        }
    }

    /// The custom error code under which the ledger reports this error.
    pub fn code(&self) -> (r: u32)
        ensures
            r == self.spec_code(),
    {
        match self {
            NftStakingError::CollectionMintMismatch => 0,
            NftStakingError::NoCollectionSet => 1,
            NftStakingError::InvalidMetadataAccount => 2,
            NftStakingError::NftNotVerified => 3,
            NftStakingError::NftEmpty => 4,
            NftStakingError::AccountNotInitialized => 5,
            NftStakingError::NoNFTFound => 6,
            NftStakingError::StakeAccountCloseError => 7,
        }
    }
}

/// Why an operation was rejected: a generic ledger error, or one of the
/// protocol's own.
#[derive(Clone, Copy, Debug, PartialEq, Eq)]
pub enum ProcessError {
    /// Fewer accounts were supplied than the operation reads.
    NotEnoughAccountKeys,
    /// An account has the wrong permissions, owner, address or contents.
    InvalidAccountData,
    /// The caller did not sign.
    MissingRequiredSignature,
    /// A record account is not owned by the program.
    InvalidAccountOwner,
    /// The registry record already exists.
    AccountAlreadyInitialized,
    /// The opcode byte is missing or unknown.
    InvalidInstructionData,
    /// The supplied token program is not the token ledger program.
    IncorrectProgramId,
    /// No derived address exists for the seeds.
    InvalidSeeds,
    /// A stored record could not be decoded.
    BorshIoError,
    /// A protocol error.
    Custom(NftStakingError),
}

} // verus!
