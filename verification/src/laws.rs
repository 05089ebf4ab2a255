//! Session-wide laws of the forked-state database, stated over the spec
//! functions that the backend's and factory's contracts use.

use vstd::prelude::*;
use crate::types::{Address, StorageKey, AccountRecord, Word};
use crate::alist::assoc_find;
use crate::fork_backend::admitted_account;
use crate::fork_factory::ForkFactory;

verus! {

/// A key once resolved needs no further fetch: a lookup on a state whose
/// cache holds the address is a hit, so the driver consults the remote
/// connector at most once per address.
pub proof fn lemma_resolved_key_needs_no_fetch(f: ForkFactory, address: Address)
    requires
        assoc_find(f.backend.accounts@, address) is Some,
    ensures
        f.resolved_account(address) is Some,
{
}

/// An override always outranks the cache: whatever is cached — or later
/// fetched — for an overridden address, a lookup observes the override.
pub proof fn lemma_override_outranks_cache(f: ForkFactory, address: Address)
    requires
        assoc_find(f.account_overrides@, address) is Some,
    ensures
        f.resolved_account(address) == assoc_find(f.account_overrides@, address),
{
}

/// A fetched answer is memoized: after the driver admits the connector's
/// answer for an unresolved, never-overridden address, every later lookup
/// of that address observes exactly the admitted record — identical to what
/// the first lookup returned — and the cache now holds the address, so no
/// further fetch is requested. `before` is the state in which the first
/// lookup missed, `after` the state once `admit_account` ran, related as
/// that function ensures.
pub proof fn lemma_admitted_answer_is_stable(
    before: ForkFactory,
    after: ForkFactory,
    address: Address,
    fetched: Option<AccountRecord>,
)
    requires
        assoc_find(before.account_overrides@, address) is None,
        assoc_find(before.backend.accounts@, address) is None,
        assoc_find(after.backend.accounts@, address) == Some(admitted_account(fetched)),
        after.account_overrides == before.account_overrides,
    ensures
        after.resolved_account(address) == Some(admitted_account(fetched)),
        assoc_find(after.backend.accounts@, address) is Some,
{
}

/// Sibling adapter views share one state by reference, so two lookups of
/// the same key against the same state — whichever view makes them —
/// observe bit-identical values: what a view observes is a function of the
/// shared state alone.
pub proof fn lemma_sibling_views_agree(
    f: ForkFactory,
    address: Address,
    first: Option<AccountRecord>,
    second: Option<AccountRecord>,
)
    requires
        first == f.resolved_account(address),
        second == f.resolved_account(address),
    ensures
        first == second,
{
}

/// Overriding an account twice with the same record is observably identical
/// to overriding it once: every lookup of every kind agrees on the two
/// resulting states (code lookups agree byte for byte). `once` is the state
/// after one `insert_account_info(address, info)`, and `twice` the state
/// after a second, identical call, related to `once` as that function
/// ensures.
pub proof fn lemma_override_account_idempotent(
    once: ForkFactory,
    twice: ForkFactory,
    address: Address,
    info: AccountRecord,
)
    requires
        assoc_find(once.account_overrides@, address) == Some(info),
        assoc_find(twice.account_overrides@, address) == Some(info),
        forall|k: Address|
            k != address ==> assoc_find(twice.account_overrides@, k) == assoc_find(
                once.account_overrides@,
                k,
            ),
        twice.storage_overrides == once.storage_overrides,
        twice.backend.accounts == once.backend.accounts,
        twice.backend.storage == once.backend.storage,
        twice.backend.block_hashes == once.backend.block_hashes,
        match info.code {
            Some(c) => {
                &&& (assoc_find(once.backend.contract_code@, info.code_hash) matches Some(cc)
                    && cc@ == c@)
                &&& (assoc_find(twice.backend.contract_code@, info.code_hash) matches Some(cc)
                    && cc@ == c@)
                &&& forall|h: Word|
                    h != info.code_hash ==> assoc_find(twice.backend.contract_code@, h)
                        == assoc_find(once.backend.contract_code@, h)
            },
            None => twice.backend.contract_code == once.backend.contract_code,
        },
    ensures
        forall|k: Address| twice.resolved_account(k) == once.resolved_account(k),
        forall|k: StorageKey| twice.resolved_storage(k) == once.resolved_storage(k),
        forall|n: u64| twice.resolved_block_hash(n) == once.resolved_block_hash(n),
        forall|h: Word|
            #![trigger assoc_find(twice.backend.contract_code@, h)]
            match (
                assoc_find(twice.backend.contract_code@, h),
                assoc_find(once.backend.contract_code@, h),
            ) {
                (Some(a), Some(b)) => a@ == b@,
                (None, None) => true,
                _ => false,
            },
{
    assert forall|k: Address| twice.resolved_account(k) == once.resolved_account(k) by {
        if k != address {
            assert(assoc_find(twice.account_overrides@, k) == assoc_find(
                once.account_overrides@,
                k,
            ));
        }
    }
    assert forall|h: Word|
        #![trigger assoc_find(twice.backend.contract_code@, h)]
        match (
            assoc_find(twice.backend.contract_code@, h),
            assoc_find(once.backend.contract_code@, h),
        ) {
            (Some(a), Some(b)) => a@ == b@,
            (None, None) => true,
            _ => false,
        } by {
        match info.code {
            Some(c) => {
                if h != info.code_hash {
                    assert(assoc_find(twice.backend.contract_code@, h) == assoc_find(
                        once.backend.contract_code@,
                        h,
                    ));
                }
            },
            None => {},
        }
    }
}

} // verus!
