use vstd::prelude::*;
use crate::address::Address;
use crate::state::{Stake, StakeDetails};

verus! {

/// An account as the ledger hands it to an operation.
#[derive(Clone, Debug, PartialEq, Eq)]
pub struct AccountView {
    pub key: Address,
    pub owner: Address,
    pub lamports: u64,
    pub data: Vec<u8>,
    pub is_signer: bool,
    pub is_writable: bool,
}

/// The seed prefix of registry addresses, the bytes of "stake_details".
pub open spec fn registry_tag() -> Seq<u8> {
    seq![115u8, 116u8, 97u8, 107u8, 101u8, 95u8, 100u8, 101u8, 116u8, 97u8, 105u8, 108u8, 115u8]
}

/// The seed prefix of stake record addresses, the bytes of "stake".
pub open spec fn stake_tag() -> Seq<u8> {
    seq![115u8, 116u8, 97u8, 107u8, 101u8]
}

/// The seeds of the registry of a (creator, collection) pair.
pub open spec fn registry_seeds(creator: Seq<u8>, collection: Seq<u8>) -> Seq<Seq<u8>> {
    seq![registry_tag(), creator, collection]
}

/// The seeds of the stake record of a (registry, asset, owner) triple.
pub open spec fn stake_seeds(registry: Seq<u8>, nft_mint: Seq<u8>, owner: Seq<u8>) -> Seq<Seq<u8>> {
    seq![stake_tag(), registry, nft_mint, owner]
}

pub fn registry_seeds_vec(creator: &Address, collection: &Address) -> (r: Vec<Vec<u8>>)
    ensures
        r.deep_view() == registry_seeds(creator@, collection@),
{
    let mut r: Vec<Vec<u8>> = Vec::new();
    r.push(vec![115u8, 116u8, 97u8, 107u8, 101u8, 95u8, 100u8, 101u8, 116u8, 97u8, 105u8, 108u8, 115u8]);
    r.push(creator.to_vec());
    r.push(collection.to_vec());
    assert(r.deep_view() =~~= registry_seeds(creator@, collection@));
    r
}

pub fn stake_seeds_vec(registry: &Address, nft_mint: &Address, owner: &Address) -> (r: Vec<Vec<u8>>)
    ensures
        r.deep_view() == stake_seeds(registry@, nft_mint@, owner@),
{
    let mut r: Vec<Vec<u8>> = Vec::new();
    r.push(vec![115u8, 116u8, 97u8, 107u8, 101u8]);
    r.push(registry.to_vec());
    r.push(nft_mint.to_vec());
    r.push(owner.to_vec());
    assert(r.deep_view() =~~= stake_seeds(registry@, nft_mint@, owner@));
    r
}

/// The authority under which a ledger action is signed: the caller's own
/// signature, or the program signing for one of its derived addresses by
/// reproducing that address's seeds and bump.
#[derive(Clone, Copy, Debug, PartialEq, Eq)]
pub enum Signer {
    Caller,
    Registry { creator: Address, collection_mint: Address, bump: u8 },
    StakeRecord { registry: Address, nft_mint: Address, owner: Address, bump: u8 },
}

impl Signer {
    /// The seeds, bump last, that the program presents to sign.
    pub open spec fn spec_seeds(self) -> Seq<Seq<u8>> {
        match self {
            Signer::Caller => seq![],
            Signer::Registry { creator, collection_mint, bump } => registry_seeds(
                creator@,
                collection_mint@,
            ).push(seq![bump]),
            Signer::StakeRecord { registry, nft_mint, owner, bump } => stake_seeds(
                registry@,
                nft_mint@,
                owner@,
            ).push(seq![bump]),
        }
    }

    pub fn seeds(&self) -> (r: Vec<Vec<u8>>)
        ensures
            r.deep_view() == self.spec_seeds(),
    {
        match self {
            Signer::Caller => {
                let r: Vec<Vec<u8>> = Vec::new();
                assert(r.deep_view() =~~= self.spec_seeds());
                r
            },
            Signer::Registry { creator, collection_mint, bump } => {
                let mut r = registry_seeds_vec(creator, collection_mint);
                let ghost before = r.deep_view();
                r.push(vec![*bump]);
                assert(r.deep_view() =~~= before.push(seq![*bump]));
                r
            },
            Signer::StakeRecord { registry, nft_mint, owner, bump } => {
                let mut r = stake_seeds_vec(registry, nft_mint, owner);
                let ghost before = r.deep_view();
                r.push(vec![*bump]);
                assert(r.deep_view() =~~= before.push(seq![*bump]));
                r
            },
        }
    }
}

/// One step of an operation, for the ledger services to carry out in order.
#[derive(Clone, Copy, Debug, PartialEq, Eq)]
pub enum LedgerAction {
    /// Allocate `space` bytes at `address`, owned by `owner`, funded by `payer`.
    CreateAccount { payer: Address, address: Address, lamports: u64, space: u64, owner: Address, signer: Signer },
    /// Create the canonical token account of `wallet` for `mint`.
    CreateTokenAccount { payer: Address, address: Address, wallet: Address, mint: Address, token_program: Address },
    /// Store a registry record at `address`.
    WriteRegistry { address: Address, record: StakeDetails },
    /// Store a stake record at `address`.
    WriteStake { address: Address, record: Stake },
    /// Hand the minting authority of `mint` to `new_authority`.
    SetMintAuthority { token_program: Address, mint: Address, new_authority: Address, current_authority: Address },
    /// Move `amount` units from `source` to `destination`.
    Transfer { token_program: Address, source: Address, destination: Address, authority: Address, amount: u64, signer: Signer },
    /// Mint `amount` units of `mint` into `destination`.
    MintTo { token_program: Address, mint: Address, destination: Address, authority: Address, amount: u64, decimals: u8, signer: Signer },
    /// Close the token account `account`, its deposit going to `destination`.
    CloseTokenAccount { token_program: Address, account: Address, destination: Address, authority: Address, signer: Signer },
    /// Destroy the record at `record`, its deposit going to `recipient`.
    CloseRecord { record: Address, recipient: Address },
}

} // verus!
