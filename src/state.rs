use vstd::prelude::*;
use crate::address::{Address, lemma_address_view_injective};
use crate::bytes::{i64_le_bytes, i64_from_le, u64_from_le, lemma_i64_le_round_trip, push_all, push_i64_le, read_i64_le};

verus! {

/// The registry record of one collection, one per (creator, collection) pair.
#[derive(Clone, Copy, Debug, PartialEq, Eq)]
pub struct StakeDetails {
    pub creator: Address,
    pub reward_token_mint: Address,
    pub collection_mint: Address,
    pub bump_seed: u8,
}

/// The record of one staked asset, one per (registry, asset, owner) triple.
#[derive(Clone, Copy, Debug, PartialEq, Eq)]
pub struct Stake {
    pub stake_details_key: Address,
    pub nft_mint: Address,
    pub reward_mint: Address,
    pub reward_mint_ata: Address,
    pub staked_at: i64,
}

/// The registry record stored in `data`, if `data` is the encoding of one.
pub open spec fn decode_stake_details(data: Seq<u8>) -> Option<StakeDetails> {
    if exists|d: StakeDetails| d.spec_bytes() == data {
        Some(choose|d: StakeDetails| d.spec_bytes() == data)
    } else {
        None
    }
}

/// The stake record stored in `data`, if `data` is the encoding of one.
pub open spec fn decode_stake(data: Seq<u8>) -> Option<Stake> {
    if exists|s: Stake| s.spec_bytes() == data {
        Some(choose|s: Stake| s.spec_bytes() == data)
    } else {
        None
    }
}

impl StakeDetails {
    /// Size of the stored record: three addresses and the bump.
    pub const LEN: usize = 97;

    /// The fixed layout: creator, reward mint, collection mint, bump.
    pub open spec fn spec_bytes(self) -> Seq<u8> {
        self.creator@ + self.reward_token_mint@ + self.collection_mint@ + seq![self.bump_seed]
    }

    pub proof fn lemma_bytes_determine(a: StakeDetails, b: StakeDetails)
        requires
            a.spec_bytes() == b.spec_bytes(),
        ensures
            a == b,
    {
        let x = a.spec_bytes();
        let y = b.spec_bytes();
        assert(a.creator@ =~= x.subrange(0, 32));
        assert(b.creator@ =~= y.subrange(0, 32));
        assert(a.reward_token_mint@ =~= x.subrange(32, 64));
        assert(b.reward_token_mint@ =~= y.subrange(32, 64));
        assert(a.collection_mint@ =~= x.subrange(64, 96));
        assert(b.collection_mint@ =~= y.subrange(64, 96));
        assert(a.bump_seed == x[96]);
        assert(b.bump_seed == y[96]);
        lemma_address_view_injective(a.creator, b.creator);
        lemma_address_view_injective(a.reward_token_mint, b.reward_token_mint);
        lemma_address_view_injective(a.collection_mint, b.collection_mint);
    }

    pub proof fn lemma_decode_encoding(d: StakeDetails)
        ensures
            decode_stake_details(d.spec_bytes()) == Some(d),
            d.spec_bytes().len() == 97,
    {
        let c = choose|e: StakeDetails| e.spec_bytes() == d.spec_bytes();
        StakeDetails::lemma_bytes_determine(c, d);
    }

    /// Encodes the record in its stored layout.
    pub fn encode(&self) -> (r: Vec<u8>)
        ensures
            r@ == self.spec_bytes(),
            r@.len() == Self::LEN,
    {
        let mut out = self.creator.to_vec();
        push_all(&mut out, &self.reward_token_mint.to_vec());
        push_all(&mut out, &self.collection_mint.to_vec());
        out.push(self.bump_seed);
        assert(out@ =~= self.spec_bytes());
        out
    }

    /// Decodes a stored record; the data must be exactly one record long.
    pub fn decode(data: &[u8]) -> (r: Option<StakeDetails>)
        ensures
            r == decode_stake_details(data@),
            r is None <==> data@.len() != Self::LEN,
    {
        if data.len() != Self::LEN {
            assert forall|d: StakeDetails| d.spec_bytes() != data@ by {
                assert(d.spec_bytes().len() == 97);
            }
            return None;
        }
        let d = StakeDetails {
            creator: Address::from_slice_at(data, 0),
            reward_token_mint: Address::from_slice_at(data, 32),
            collection_mint: Address::from_slice_at(data, 64),
            bump_seed: data[96],
        };
        assert(d.spec_bytes() =~= data@);
        proof {
            StakeDetails::lemma_decode_encoding(d);
        }
        Some(d)
    }
}

impl Stake {
    /// Size of the stored record: four addresses and the timestamp.
    pub const LEN: usize = 136;

    /// The fixed layout: registry, asset mint, reward mint, reward account,
    /// checkpoint time.
    pub open spec fn spec_bytes(self) -> Seq<u8> {
        self.stake_details_key@ + self.nft_mint@ + self.reward_mint@ + self.reward_mint_ata@
            + i64_le_bytes(self.staked_at)
    }

    pub proof fn lemma_bytes_determine(a: Stake, b: Stake)
        requires
            a.spec_bytes() == b.spec_bytes(),
        ensures
            a == b,
    {
        let x = a.spec_bytes();
        let y = b.spec_bytes();
        lemma_i64_le_round_trip(a.staked_at);
        lemma_i64_le_round_trip(b.staked_at);
        assert(a.stake_details_key@ =~= x.subrange(0, 32));
        assert(b.stake_details_key@ =~= y.subrange(0, 32));
        assert(a.nft_mint@ =~= x.subrange(32, 64));
        assert(b.nft_mint@ =~= y.subrange(32, 64));
        assert(a.reward_mint@ =~= x.subrange(64, 96));
        assert(b.reward_mint@ =~= y.subrange(64, 96));
        assert(a.reward_mint_ata@ =~= x.subrange(96, 128));
        assert(b.reward_mint_ata@ =~= y.subrange(96, 128));
        assert(i64_le_bytes(a.staked_at) =~= x.subrange(128, 136));
        assert(i64_le_bytes(b.staked_at) =~= y.subrange(128, 136));
        lemma_address_view_injective(a.stake_details_key, b.stake_details_key);
        lemma_address_view_injective(a.nft_mint, b.nft_mint);
        lemma_address_view_injective(a.reward_mint, b.reward_mint);
        lemma_address_view_injective(a.reward_mint_ata, b.reward_mint_ata);
    }

    pub proof fn lemma_decode_encoding(s: Stake)
        ensures
            decode_stake(s.spec_bytes()) == Some(s),
            s.spec_bytes().len() == 136,
    {
        lemma_i64_le_round_trip(s.staked_at);
        let c = choose|e: Stake| e.spec_bytes() == s.spec_bytes();
        Stake::lemma_bytes_determine(c, s);
    }

    /// Encodes the record in its stored layout.
    pub fn encode(&self) -> (r: Vec<u8>)
        ensures
            r@ == self.spec_bytes(),
            r@.len() == Self::LEN,
    {
        proof {
            lemma_i64_le_round_trip(self.staked_at);
        }
        let mut out = self.stake_details_key.to_vec();
        push_all(&mut out, &self.nft_mint.to_vec());
        push_all(&mut out, &self.reward_mint.to_vec());
        push_all(&mut out, &self.reward_mint_ata.to_vec());
        push_i64_le(&mut out, self.staked_at);
        assert(out@ =~= self.spec_bytes());
        out
    }

    /// Decodes a stored record; the data must be exactly one record long.
    pub fn decode(data: &[u8]) -> (r: Option<Stake>)
        ensures
            r == decode_stake(data@),
            r is None <==> data@.len() != Self::LEN,
    {
        if data.len() != Self::LEN {
            assert forall|s: Stake| s.spec_bytes() != data@ by {
                lemma_i64_le_round_trip(s.staked_at);
            }
            return None;
        }
        let staked_at = read_i64_le(data, 128);
        let s = Stake {
            stake_details_key: Address::from_slice_at(data, 0),
            nft_mint: Address::from_slice_at(data, 32),
            reward_mint: Address::from_slice_at(data, 64),
            reward_mint_ata: Address::from_slice_at(data, 96),
            staked_at,
        };
        proof {
            let t = data@.subrange(128, 136);
            lemma_i64_le_round_trip(staked_at);
            // the eight stored bytes are the encoding of the word read from them
            assert(t.len() == 8);
            lemma_le_bytes_of_read(t);
            assert(s.spec_bytes() =~= data@);
            Stake::lemma_decode_encoding(s);
        }
        Some(s)
    }
}

/// Eight bytes are the encoding of the signed word read from them.
pub proof fn lemma_le_bytes_of_read(t: Seq<u8>)
    requires
        t.len() == 8,
    ensures
        i64_le_bytes(i64_from_le(t)) == t,
{
    let (b0, b1, b2, b3, b4, b5, b6, b7) = (t[0], t[1], t[2], t[3], t[4], t[5], t[6], t[7]);
    let x: u64 = u64_from_le(t);
    let v: i64 = x as i64;
    assert(((x as i64) as u64) == x) by (bit_vector);
    assert(x == (b0 as u64) | ((b1 as u64) << 8u64) | ((b2 as u64) << 16u64) | ((b3 as u64)
        << 24u64) | ((b4 as u64) << 32u64) | ((b5 as u64) << 40u64) | ((b6 as u64) << 48u64)
        | ((b7 as u64) << 56u64));
    assert(x as u8 == b0 && (x >> 8u64) as u8 == b1 && (x >> 16u64) as u8 == b2 && (x >> 24u64)
        as u8 == b3 && (x >> 32u64) as u8 == b4 && (x >> 40u64) as u8 == b5 && (x >> 48u64) as u8
        == b6 && (x >> 56u64) as u8 == b7) by (bit_vector)
        requires
            x == (b0 as u64) | ((b1 as u64) << 8u64) | ((b2 as u64) << 16u64) | ((b3 as u64)
                << 24u64) | ((b4 as u64) << 32u64) | ((b5 as u64) << 40u64) | ((b6 as u64)
                << 48u64) | ((b7 as u64) << 56u64),
    ;
    assert(i64_le_bytes(v) =~= t);
}

} // verus!
