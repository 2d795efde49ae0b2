use vstd::prelude::*;
use crate::address::Address;
use crate::bytes::u64_from_le;
use crate::checks::{associated_token_address, registry_check, stake_address_check, token_program_check};
use crate::claim::claim_outcome;
use crate::errors::ProcessError;
use crate::init::init_outcome;
use crate::ledger::{AccountView, LedgerAction, registry_seeds, stake_seeds};
use crate::services::{metadata_record, mint_unpacks, program_address, token_account_unpacks};
use crate::staking::{asset_check, holding_check, stake_outcome};
use crate::state::{Stake, StakeDetails, decode_stake, decode_stake_details};
use crate::unstake::{closure_outcome, unstake_outcome};

verus! {

/// The net number of asset units that the transfers among `actions` move
/// into `account`.
pub open spec fn token_flow(actions: Seq<LedgerAction>, account: Seq<u8>) -> int
    decreases actions.len(),
{
    if actions.len() == 0 {
        0
    } else {
        token_flow(actions.drop_last(), account) + step_flow(actions.last(), account)
    }
}

/// The net number of asset units that one action moves into `account`.
pub open spec fn step_flow(action: LedgerAction, account: Seq<u8>) -> int {
    match action {
        LedgerAction::Transfer { source, destination, amount, .. } => (if destination@ == account {
            amount as int
        } else {
            0
        }) - (if source@ == account {
            amount as int
        } else {
            0
        }),
        _ => 0,
    }
}

/// The amount that a mint action issues; zero for any other action.
pub open spec fn minted(action: LedgerAction) -> int {
    match action {
        LedgerAction::MintTo { amount, .. } => amount as int,
        _ => 0,
    }
}

/// The bytes that a plan stores with the action at `i`, if it stores a
/// record there.
pub open spec fn written_bytes(plan: Seq<LedgerAction>, i: int) -> Seq<u8> {
    match plan[i] {
        LedgerAction::WriteRegistry { record, .. } => record.spec_bytes(),
        LedgerAction::WriteStake { record, .. } => record.spec_bytes(),
        _ => seq![],
    }
}

/// Two account lists of one length whose accounts have the same keys and
/// permissions, whatever their balances and contents.
pub open spec fn same_places(a: Seq<AccountView>, b: Seq<AccountView>) -> bool {
    a.len() == b.len() && forall|i: int|
        0 <= i < a.len() ==> #[trigger] b[i].key == a[i].key && b[i].is_signer == a[i].is_signer
            && b[i].is_writable == a[i].is_writable
}

/// The registry account sits at the address derived from the creator and
/// collection its record names.
pub open spec fn registry_at_derived_address(program_id: Address, registry: AccountView) -> bool {
    exists|d: StakeDetails|
        decode_stake_details(registry.data@) == Some(d) && program_address(
            registry_seeds(d.creator@, d.collection_mint@),
            program_id@,
        ) == Some((registry.key@, d.bump_seed))
}

/// The record account sits at the address derived from (registry, asset,
/// owner).
pub open spec fn record_at_derived_address(
    program_id: Address,
    registry: Address,
    nft_mint: Address,
    owner: Address,
    record: Address,
) -> bool {
    exists|bump: u8|
        program_address(stake_seeds(registry@, nft_mint@, owner@), program_id@) == Some(
            (record@, bump),
        )
}

proof fn lemma_registry_check_ok(program_id: Address, registry: AccountView)
    requires
        registry_check(program_id, registry) is Ok,
    ensures
        registry_at_derived_address(program_id, registry),
{
    let d = registry_check(program_id, registry)->Ok_0;
    assert(decode_stake_details(registry.data@) == Some(d));
}

proof fn lemma_stake_address_check_ok(
    program_id: Address,
    registry: Address,
    nft_mint: Address,
    owner: Address,
    record: Address,
)
    requires
        stake_address_check(program_id, registry, nft_mint, owner, record) is Ok,
    ensures
        record_at_derived_address(program_id, registry, nft_mint, owner, record),
{
    let bump = stake_address_check(program_id, registry, nft_mint, owner, record)->Ok_0;
    let found = program_address(stake_seeds(registry@, nft_mint@, owner@), program_id@);
    assert(found == Some((record@, bump)));
}

/// A collection registers once: after an Initialize succeeded and wrote its
/// record, a second call on the same accounts, whatever their balances and
/// other contents now, fails as already initialized.
pub proof fn lemma_initialize_once(
    program_id: Address,
    accounts: Seq<AccountView>,
    rent: u64,
    after: Seq<AccountView>,
    rent_after: u64,
)
    requires
        init_outcome(program_id, accounts, rent) is Ok,
        same_places(accounts, after),
        after[3].data@ == written_bytes(init_outcome(program_id, accounts, rent)->Ok_0, 1),
    ensures
        init_outcome(program_id, after, rent_after) == Err::<Seq<LedgerAction>, ProcessError>(
            ProcessError::AccountAlreadyInitialized,
        ),
{
    let p = init_outcome(program_id, accounts, rent)->Ok_0;
    assert(after[0].key == accounts[0].key && after[1].key == accounts[1].key);
    assert(after[2].key == accounts[2].key && after[3].key == accounts[3].key);
    let d = StakeDetails {
        creator: accounts[0].key,
        reward_token_mint: accounts[1].key,
        collection_mint: accounts[2].key,
        bump_seed: program_address(
            registry_seeds(accounts[0].key@, accounts[2].key@),
            program_id@,
        )->Some_0.1,
    };
    assert(written_bytes(p, 1) == d.spec_bytes());
    StakeDetails::lemma_decode_encoding(d);
}

/// Custody is conserved: over a Stake and the Unstake that ends it, with the
/// escrow holding what the Stake moved into it, the caller's holding account
/// gets back exactly what it gave.
pub proof fn lemma_custody_conserved(
    program_id: Address,
    stake_accounts: Seq<AccountView>,
    staked_at: i64,
    rent: u64,
    unstake_accounts: Seq<AccountView>,
    now: i64,
)
    requires
        stake_outcome(program_id, stake_accounts, staked_at, rent) is Ok,
        unstake_outcome(program_id, unstake_accounts, now) is Ok,
        unstake_accounts[1].key == stake_accounts[3].key,
        unstake_accounts[5].key == stake_accounts[7].key,
        u64_from_le(unstake_accounts[5].data@.subrange(64, 72)) == token_flow(
            stake_outcome(program_id, stake_accounts, staked_at, rent)->Ok_0,
            stake_accounts[7].key@,
        ),
    ensures
        token_flow(
            stake_outcome(program_id, stake_accounts, staked_at, rent)->Ok_0 + unstake_outcome(
                program_id,
                unstake_accounts,
                now,
            )->Ok_0,
            stake_accounts[3].key@,
        ) == 0,
{
    let p1 = stake_outcome(program_id, stake_accounts, staked_at, rent)->Ok_0;
    let p2 = unstake_outcome(program_id, unstake_accounts, now)->Ok_0;
    let holding = stake_accounts[3].key@;
    let escrow = stake_accounts[7].key@;
    lemma_flow_of_four(p1, holding);
    lemma_flow_of_four(p1, escrow);
    lemma_flow_append(p1, p2, holding);
    lemma_flow_of_four(p2, holding);
}

proof fn lemma_flow_of_four(p: Seq<LedgerAction>, account: Seq<u8>)
    requires
        p.len() == 4,
    ensures
        token_flow(p, account) == step_flow(p[0], account) + step_flow(p[1], account) + step_flow(
            p[2],
            account,
        ) + step_flow(p[3], account),
{
    let p3 = p.drop_last();
    let p2 = p3.drop_last();
    let p1 = p2.drop_last();
    let p0 = p1.drop_last();
    assert(p0.len() == 0);
    assert(p1.last() == p[0] && p2.last() == p[1] && p3.last() == p[2] && p.last() == p[3]);
    assert(token_flow(p0, account) == 0);
    assert(token_flow(p1, account) == step_flow(p[0], account));
    assert(token_flow(p2, account) == token_flow(p1, account) + step_flow(p[1], account));
    assert(token_flow(p3, account) == token_flow(p2, account) + step_flow(p[2], account));
}

proof fn lemma_flow_append(p: Seq<LedgerAction>, q: Seq<LedgerAction>, account: Seq<u8>)
    ensures
        token_flow(p + q, account) == token_flow(p, account) + token_flow(q, account),
    decreases q.len(),
{
    if q.len() == 0 {
        assert(p + q =~= p);
    } else {
        lemma_flow_append(p, q.drop_last(), account);
        assert((p + q).drop_last() =~= p + q.drop_last());
        assert((p + q).last() == q.last());
    }
}

/// A second claim right after a first one, at the same ledger time, mints
/// nothing: the record now holds the checkpoint that the first claim wrote,
/// and the reward mint is still a mint, whatever its supply now is.
pub proof fn lemma_claim_idempotent(
    program_id: Address,
    accounts: Seq<AccountView>,
    now: i64,
    after: Seq<AccountView>,
)
    requires
        claim_outcome(program_id, accounts, now) is Ok,
        same_places(accounts, after),
        after[1].owner == accounts[1].owner,
        after[4].owner == accounts[4].owner,
        after[4].data@ == accounts[4].data@,
        mint_unpacks(after[3].data@),
        after[1].data@ == written_bytes(claim_outcome(program_id, accounts, now)->Ok_0, 1),
    ensures
        claim_outcome(program_id, after, now) is Ok,
        minted(claim_outcome(program_id, after, now)->Ok_0[0]) == 0,
{
    let p = claim_outcome(program_id, accounts, now)->Ok_0;
    assert(after[0].key == accounts[0].key && after[1].key == accounts[1].key);
    assert(after[2].key == accounts[2].key && after[3].key == accounts[3].key);
    assert(after[4].key == accounts[4].key && after[5].key == accounts[5].key);
    assert(after[6].key == accounts[6].key);
    let s = decode_stake(accounts[1].data@)->Some_0;
    let s2 = Stake { staked_at: now, ..s };
    assert(written_bytes(p, 1) == s2.spec_bytes());
    Stake::lemma_decode_encoding(s2);
}

/// Substituted accounts are rejected: an Initialize succeeds only with the
/// registry at its derived address.
pub proof fn lemma_initialize_rejects_forgery(program_id: Address, accounts: Seq<AccountView>, rent: u64)
    requires
        init_outcome(program_id, accounts, rent) is Ok,
    ensures
        exists|bump: u8|
            program_address(registry_seeds(accounts[0].key@, accounts[2].key@), program_id@)
                == Some((accounts[3].key@, bump)),
{
    let found = program_address(registry_seeds(accounts[0].key@, accounts[2].key@), program_id@);
    assert(found == Some((accounts[3].key@, found->Some_0.1)));
}

/// Substituted accounts are rejected: a Stake succeeds only with the
/// registry, the record and the escrow at their derived addresses.
pub proof fn lemma_stake_rejects_forgery(
    program_id: Address,
    accounts: Seq<AccountView>,
    now: i64,
    rent: u64,
)
    requires
        stake_outcome(program_id, accounts, now, rent) is Ok,
    ensures
        registry_at_derived_address(program_id, accounts[5]),
        record_at_derived_address(program_id, accounts[5].key, accounts[1].key, accounts[0].key, accounts[6].key),
        associated_token_address(accounts[6].key@, accounts[1].key@, accounts[8].key@)
            == Some(accounts[7].key@),
{
    lemma_registry_check_ok(program_id, accounts[5]);
    lemma_stake_address_check_ok(program_id, accounts[5].key, accounts[1].key, accounts[0].key, accounts[6].key);
}

/// Substituted accounts are rejected: a ClaimRewards succeeds only with the
/// registry and the record at their derived addresses.
pub proof fn lemma_claim_rejects_forgery(program_id: Address, accounts: Seq<AccountView>, now: i64)
    requires
        claim_outcome(program_id, accounts, now) is Ok,
    ensures
        registry_at_derived_address(program_id, accounts[4]),
        record_at_derived_address(program_id, accounts[4].key, accounts[5].key, accounts[0].key, accounts[1].key),
{
    lemma_registry_check_ok(program_id, accounts[4]);
    lemma_stake_address_check_ok(program_id, accounts[4].key, accounts[5].key, accounts[0].key, accounts[1].key);
}

/// Substituted accounts are rejected: an Unstake succeeds only with the
/// registry, the record and the escrow at their derived addresses.
pub proof fn lemma_unstake_rejects_forgery(program_id: Address, accounts: Seq<AccountView>, now: i64)
    requires
        unstake_outcome(program_id, accounts, now) is Ok,
    ensures
        registry_at_derived_address(program_id, accounts[3]),
        record_at_derived_address(program_id, accounts[3].key, accounts[6].key, accounts[0].key, accounts[4].key),
        associated_token_address(accounts[4].key@, accounts[6].key@, accounts[8].key@)
            == Some(accounts[5].key@),
{
    lemma_registry_check_ok(program_id, accounts[3]);
    lemma_stake_address_check_ok(program_id, accounts[3].key, accounts[6].key, accounts[0].key, accounts[4].key);
}

/// An Unstake ends by destroying the record, whose balance the settlement
/// then leaves at zero; a Stake for the same triple afterwards, with the
/// record account empty again and the asset back in the holding account,
/// succeeds and recreates the record there.
pub proof fn lemma_record_lifecycle(
    program_id: Address,
    unstake_accounts: Seq<AccountView>,
    now: i64,
    recipient_lamports: u64,
    record_lamports: u64,
    stake_accounts: Seq<AccountView>,
    staked_at: i64,
    rent: u64,
    restake_accounts: Seq<AccountView>,
    restaked_at: i64,
    rent_again: u64,
)
    requires
        unstake_outcome(program_id, unstake_accounts, now) is Ok,
        closure_outcome(recipient_lamports, record_lamports) is Ok,
        stake_outcome(program_id, stake_accounts, staked_at, rent) is Ok,
        same_places(stake_accounts, restake_accounts),
        restake_accounts[5].owner == stake_accounts[5].owner,
        restake_accounts[2].data@ == stake_accounts[2].data@,
        restake_accounts[5].data@ == stake_accounts[5].data@,
        token_account_unpacks(restake_accounts[3].data@),
        u64_from_le(restake_accounts[3].data@.subrange(64, 72)) >= 1,
        restake_accounts[6].data@.len() == 0,
    ensures
        unstake_outcome(program_id, unstake_accounts, now)->Ok_0.last() == (
        LedgerAction::CloseRecord { record: unstake_accounts[4].key, recipient: unstake_accounts[0].key }),
        closure_outcome(recipient_lamports, record_lamports)->Ok_0.1 == 0,
        stake_outcome(program_id, restake_accounts, restaked_at, rent_again) is Ok,
        stake_outcome(program_id, restake_accounts, restaked_at, rent_again)->Ok_0[3] matches
            LedgerAction::WriteStake { address, .. } && address == stake_accounts[6].key,
{
    let a = stake_accounts;
    let b = restake_accounts;
    assert(b[0].key == a[0].key && b[1].key == a[1].key && b[2].key == a[2].key);
    assert(b[3].key == a[3].key && b[4].key == a[4].key && b[5].key == a[5].key);
    assert(b[6].key == a[6].key && b[7].key == a[7].key && b[8].key == a[8].key);
}

/// The record address that (registry, asset, owner) derives, when some
/// supplied record is elsewhere.
pub open spec fn record_elsewhere(
    program_id: Address,
    registry: Address,
    nft_mint: Address,
    owner: Address,
    record: Address,
) -> bool {
    program_address(stake_seeds(registry@, nft_mint@, owner@), program_id@) matches Some((k, _))
        && k != record@
}

/// A Stake whose record account is not the one derived for (registry,
/// asset, caller) is rejected as invalid account data once the checks
/// before it pass.
pub proof fn lemma_stake_rejects_substituted_record(
    program_id: Address,
    accounts: Seq<AccountView>,
    now: i64,
    rent: u64,
)
    requires
        accounts.len() >= 11,
        accounts[0].is_signer && accounts[0].is_writable,
        accounts[3].is_writable && accounts[6].is_writable && accounts[7].is_writable,
        accounts[5].owner@ == program_id@,
        token_program_check(accounts[8].key) is Ok,
        registry_check(program_id, accounts[5]) is Ok,
        metadata_record(accounts[2].data@) matches Some(m) && asset_check(
            m,
            accounts[1].key@,
            registry_check(program_id, accounts[5])->Ok_0.collection_mint@,
        ) is Ok,
        token_account_unpacks(accounts[3].data@),
        holding_check(u64_from_le(accounts[3].data@.subrange(64, 72))) is Ok,
        record_elsewhere(program_id, accounts[5].key, accounts[1].key, accounts[0].key, accounts[6].key),
    ensures
        stake_outcome(program_id, accounts, now, rent) == Err::<Seq<LedgerAction>, ProcessError>(
            ProcessError::InvalidAccountData,
        ),
{
}

/// A ClaimRewards against a record that is not the caller's derived record
/// (another user's, or one of another registry or asset) is rejected as
/// invalid account data.
pub proof fn lemma_claim_rejects_substituted_record(
    program_id: Address,
    accounts: Seq<AccountView>,
    now: i64,
)
    requires
        accounts.len() >= 7,
        accounts[0].is_signer,
        accounts[1].is_writable && accounts[2].is_writable && accounts[3].is_writable,
        accounts[1].owner@ == program_id@ && accounts[4].owner@ == program_id@,
        token_program_check(accounts[6].key) is Ok,
        record_elsewhere(program_id, accounts[4].key, accounts[5].key, accounts[0].key, accounts[1].key),
    ensures
        claim_outcome(program_id, accounts, now) == Err::<Seq<LedgerAction>, ProcessError>(
            ProcessError::InvalidAccountData,
        ),
{
}

/// An Unstake against a record that is not the caller's derived record is
/// rejected as invalid account data.
pub proof fn lemma_unstake_rejects_substituted_record(
    program_id: Address,
    accounts: Seq<AccountView>,
    now: i64,
)
    requires
        accounts.len() >= 9,
        accounts[0].is_signer && accounts[0].is_writable,
        accounts[1].is_writable && accounts[2].is_writable && accounts[4].is_writable,
        accounts[5].is_writable && accounts[7].is_writable,
        accounts[3].owner@ == program_id@ && accounts[4].owner@ == program_id@,
        token_program_check(accounts[8].key) is Ok,
        record_elsewhere(program_id, accounts[3].key, accounts[6].key, accounts[0].key, accounts[4].key),
    ensures
        unstake_outcome(program_id, accounts, now) == Err::<Seq<LedgerAction>, ProcessError>(
            ProcessError::InvalidAccountData,
        ),
{
}

/// An Unstake of the caller's genuine record with an escrow other than the
/// record's canonical token account for the asset is rejected as invalid
/// account data.
pub proof fn lemma_unstake_rejects_substituted_escrow(
    program_id: Address,
    accounts: Seq<AccountView>,
    now: i64,
)
    requires
        accounts.len() >= 9,
        accounts[0].is_signer && accounts[0].is_writable,
        accounts[1].is_writable && accounts[2].is_writable && accounts[4].is_writable,
        accounts[5].is_writable && accounts[7].is_writable,
        accounts[3].owner@ == program_id@ && accounts[4].owner@ == program_id@,
        token_program_check(accounts[8].key) is Ok,
        stake_address_check(program_id, accounts[3].key, accounts[6].key, accounts[0].key, accounts[4].key) is Ok,
        accounts[4].data@.len() != 0,
        associated_token_address(accounts[4].key@, accounts[6].key@, accounts[8].key@) matches Some(k)
            && k != accounts[5].key@,
    ensures
        unstake_outcome(program_id, accounts, now) == Err::<Seq<LedgerAction>, ProcessError>(
            ProcessError::InvalidAccountData,
        ),
{
}

} // verus!
