use vstd::prelude::*;
use crate::address::Address;
use crate::bytes::u64_from_le;

verus! {

/// What the metadata registry records of an asset: its mint and, where it
/// declares one, its collection with the verified flag.
#[derive(Clone, Copy, Debug, PartialEq, Eq)]
pub struct AssetMetadata {
    pub mint: Address,
    pub collection: Option<CollectionMembership>,
}

/// A collection that an asset's metadata declares.
#[derive(Clone, Copy, Debug, PartialEq, Eq)]
pub struct CollectionMembership {
    pub key: Address,
    pub verified: bool,
}

impl View for AssetMetadata {
    type V = (Seq<u8>, Option<(Seq<u8>, bool)>);

    open spec fn view(&self) -> Self::V {
        (
            self.mint@,
            match self.collection {
                Some(c) => Some((c.key@, c.verified)),
                None => None,
            },
        )
    }
}

/// The derived address and bump for seeds under a program, when one exists.
pub uninterp spec fn program_address(seeds: Seq<Seq<u8>>, program: Seq<u8>) -> Option<(Seq<u8>, u8)>;

/// An optional-value tag of the token ledger's layout at `at`: four bytes,
/// the first 0 or 1 and the rest 0.
pub open spec fn option_tag_ok(data: Seq<u8>, at: int) -> bool {
    (data[at] == 0 || data[at] == 1) && data[at + 1] == 0 && data[at + 2] == 0 && data[at + 3] == 0
}

/// Whether the bytes hold an initialized token account: exactly 165 bytes,
/// valid tags for the delegate, native amount and close authority, and a
/// state byte that is initialized (1) or frozen (2).
pub open spec fn token_account_unpacks(data: Seq<u8>) -> bool {
    data.len() == 165 && option_tag_ok(data, 72) && (data[108] == 1 || data[108] == 2)
        && option_tag_ok(data, 109) && option_tag_ok(data, 129)
}

/// Whether the bytes hold an initialized mint: exactly 82 bytes, valid tags
/// for the mint and freeze authorities, and the initialized flag set.
pub open spec fn mint_unpacks(data: Seq<u8>) -> bool {
    data.len() == 82 && option_tag_ok(data, 0) && data[45] == 1 && option_tag_ok(data, 46)
}

/// The asset metadata that the bytes hold, if they hold a metadata record.
pub uninterp spec fn metadata_record(data: Seq<u8>) -> Option<(Seq<u8>, Option<(Seq<u8>, bool)>)>;

pub open spec fn derived_view(r: Option<(Address, u8)>) -> Option<(Seq<u8>, u8)> {
    match r {
        Some((a, b)) => Some((a@, b)),
        None => None,
    }
}

pub open spec fn metadata_view(r: Option<AssetMetadata>) -> Option<(Seq<u8>, Option<(Seq<u8>, bool)>)> {
    match r {
        Some(m) => Some(m@),
        None => None,
    }
}

/// Relies on solana_program's `Pubkey::try_find_program_address`: the first
/// bump, searched downwards, that completes the seeds to an address off the
/// curve, or `None` where there is none or the seeds are too many or too long.
/// The search hashes the seeds and the program id alone.
#[verifier::external_body]
pub(crate) fn find_program_address(seeds: &Vec<Vec<u8>>, program_id: &Address) -> (r: Option<(Address, u8)>)
    ensures
        derived_view(r) == program_address(seeds.deep_view(), program_id@),
{
    let slices: Vec<&[u8]> = seeds.iter().map(|s| s.as_slice()).collect();
    let program = solana_program::pubkey::Pubkey::new_from_array(program_id.bytes);
    solana_program::pubkey::Pubkey::try_find_program_address(&slices, &program).map(
        |(key, bump)| (Address { bytes: key.to_bytes() }, bump),
    )
}

/// Relies on spl_token's `Account::unpack`: it accepts exactly the bytes of
/// an initialized account (see `token_account_unpacks`), whose balance is
/// the little-endian word at bytes 64..72.
#[verifier::external_body]
pub(crate) fn token_account_amount(data: &[u8]) -> (r: Option<u64>)
    ensures
        r is Some <==> token_account_unpacks(data@),
        r is Some ==> r->0 == u64_from_le(data@.subrange(64, 72)),
{
    <spl_token::state::Account as solana_program::program_pack::Pack>::unpack(data).ok().map(
        |a| a.amount,
    )
}

/// Relies on spl_token's `Mint::unpack`: it accepts exactly the bytes of an
/// initialized mint (see `mint_unpacks`), whose decimals are byte 44.
#[verifier::external_body]
pub(crate) fn mint_decimals(data: &[u8]) -> (r: Option<u8>)
    ensures
        r is Some <==> mint_unpacks(data@),
        r is Some ==> r->0 == data@[44],
{
    <spl_token::state::Mint as solana_program::program_pack::Pack>::unpack(data).ok().map(
        |m| m.decimals,
    )
}

/// Relies on mpl_token_metadata's `Metadata::safe_deserialize`: it rejects
/// data that is empty or whose first byte is not the metadata key 4, and
/// otherwise reads the update authority, the mint at bytes 33..65, and the
/// rest of the record, collection included.
#[verifier::external_body]
pub(crate) fn read_metadata(data: &[u8]) -> (r: Option<AssetMetadata>)
    ensures
        metadata_view(r) == metadata_record(data@),
        data@.len() == 0 || data@[0] != 4 ==> r is None,
        r is Some ==> data@.len() >= 65 && r->0.mint@ == data@.subrange(33, 65),
{
    match mpl_token_metadata::accounts::Metadata::safe_deserialize(data) {
        Ok(m) => Some(AssetMetadata {
            mint: Address { bytes: m.mint.to_bytes() },
            collection: m.collection.map(
                |c| CollectionMembership { key: Address { bytes: c.key.to_bytes() }, verified: c.verified },
            ),
        }),
        Err(_) => None,
    }
}

} // verus!
