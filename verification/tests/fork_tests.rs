use forked_db::fork_factory::ForkFactory;
use forked_db::types::{AccountRecord, Address, ForkError, PinnedBlock, StorageKey, Word};
use std::sync::{Arc, RwLock};

fn pb() -> PinnedBlock {
    PinnedBlock { number: 17_000_000, timestamp: 1_680_000_000, coinbase: Address { hi: 0, lo: 0xC0FFEE } }
}

fn addr(lo: u128) -> Address {
    Address { hi: 0, lo }
}

fn word(lo: u128) -> Word {
    Word { hi: 0, lo }
}

fn plain_record(balance: u128, nonce: u64) -> AccountRecord {
    AccountRecord {
        balance: word(balance),
        nonce,
        code_hash: word(0),
        code: None,
        exists: true,
    }
}

fn contract_record(balance: u128, code: Vec<u8>) -> AccountRecord {
    AccountRecord {
        balance: word(balance),
        nonce: 1,
        code_hash: word(0xC0DE),
        code: Some(code),
        exists: true,
    }
}

type Snapshot = (Word, u64, Word, Option<Vec<u8>>, bool);

fn snap(r: &AccountRecord) -> Snapshot {
    (r.balance, r.nonce, r.code_hash, r.code.clone(), r.exists)
}

/// Resolves an account the way the driver does: on a miss it consults the
/// connector double and memoizes the answer, counting the consultations.
fn lookup_account(
    f: &mut ForkFactory,
    a: Address,
    remote: &dyn Fn(Address) -> Option<AccountRecord>,
    connector_calls: &mut u32,
) -> Snapshot {
    if f.try_account(a).is_none() {
        *connector_calls += 1;
        let fetched = remote(a);
        f.backend.admit_account(a, fetched);
    }
    snap(f.try_account(a).expect("admitted key must resolve"))
}

#[test]
fn second_lookup_is_identical_and_fetches_at_most_once() {
    let mut f = ForkFactory::new(pb());
    let a = addr(0xAA);
    let remote = |_q: Address| Some(plain_record(1234, 7));
    let mut connector_calls = 0u32;

    let first = lookup_account(&mut f, a, &remote, &mut connector_calls);
    let second = lookup_account(&mut f, a, &remote, &mut connector_calls);

    assert_eq!(first, second);
    assert_eq!(connector_calls, 1);
}

#[test]
fn absent_account_memoizes_zero_record_without_error() {
    let mut f = ForkFactory::new(pb());
    let a = addr(0xBB);
    let remote = |_q: Address| None;
    let mut connector_calls = 0u32;

    let got = lookup_account(&mut f, a, &remote, &mut connector_calls);
    assert_eq!(got, (word(0), 0, word(0), None, false));
    let again = lookup_account(&mut f, a, &remote, &mut connector_calls);
    assert_eq!(again, got);
    assert_eq!(connector_calls, 1);
}

#[test]
fn override_wins_over_cached_and_fetched_state() {
    let mut f = ForkFactory::new(pb());
    let cached = addr(0x01);
    let fresh = addr(0x02);

    // `cached` was already fetched and memoized before the override.
    f.backend.admit_account(cached, Some(plain_record(5, 1)));
    f.insert_account_info(cached, plain_record(999, 0));
    let got = snap(f.try_account(cached).unwrap());
    assert_eq!(got, snap(&plain_record(999, 0)));

    // `fresh` was never seen before the override.
    f.insert_account_info(fresh, plain_record(777, 3));
    let got = snap(f.try_account(fresh).unwrap());
    assert_eq!(got, snap(&plain_record(777, 3)));

    // A later cache fill cannot overwrite the override.
    f.backend.admit_account(cached, Some(plain_record(5, 1)));
    let got = snap(f.try_account(cached).unwrap());
    assert_eq!(got, snap(&plain_record(999, 0)));
}

#[test]
fn storage_override_rejected_without_bytecode() {
    let mut f = ForkFactory::new(pb());
    let a = addr(0x10);
    f.insert_account_info(a, plain_record(1, 0));
    let r = f.insert_account_storage(a, word(4), word(9));
    assert_eq!(r, Err(ForkError::OverrideOnNonContract));
    assert_eq!(f.try_storage(a, word(4)), None);
}

#[test]
fn storage_override_applies_on_contract() {
    let mut f = ForkFactory::new(pb());
    let a = addr(0x11);
    f.insert_account_info(a, contract_record(0, vec![0x60, 0x80]));
    let r = f.insert_account_storage(a, word(4), word(9));
    assert_eq!(r, Ok(()));
    assert_eq!(f.try_storage(a, word(4)), Some(word(9)));
}

#[test]
fn storage_override_on_fetched_contract_record() {
    let mut f = ForkFactory::new(pb());
    let a = addr(0x12);
    f.backend.admit_account(a, Some(contract_record(0, vec![0xFE])));
    assert_eq!(f.insert_account_storage(a, word(1), word(2)), Ok(()));
    assert_eq!(f.try_storage(a, word(1)), Some(word(2)));
}

fn observe(f: &ForkFactory, accounts: &[Address], cells: &[(Address, Word)]) -> Vec<(Option<Snapshot>, Option<Word>)> {
    let mut out = Vec::new();
    for (i, a) in accounts.iter().enumerate() {
        let acct = f.try_account(*a).map(snap);
        let cell = cells.get(i).and_then(|(ca, s)| f.try_storage(*ca, *s));
        out.push((acct, cell));
    }
    out
}

#[test]
fn overriding_twice_with_same_record_changes_nothing() {
    let mut f = ForkFactory::new(pb());
    let a = addr(0x21);
    let other = addr(0x22);
    f.backend.admit_account(other, Some(plain_record(3, 3)));
    f.insert_account_storage(a, word(0), word(0)).err();

    f.insert_account_info(a, contract_record(42, vec![1, 2, 3]));
    let accounts = [a, other, addr(0x23)];
    let cells = [(a, word(0)), (other, word(1))];
    let once = observe(&f, &accounts, &cells);

    f.insert_account_info(a, contract_record(42, vec![1, 2, 3]));
    let twice = observe(&f, &accounts, &cells);

    assert_eq!(once, twice);
}

#[test]
fn sibling_views_observe_identical_values() {
    // Two adapter views of one factory, shared by reference as the engine
    // would hold them.
    let shared = Arc::new(RwLock::new(ForkFactory::new(pb())));
    let view_a = Arc::clone(&shared);
    let view_b = Arc::clone(&shared);

    let a = addr(0x31);
    {
        let mut f = shared.write().unwrap();
        f.backend.admit_account(a, Some(contract_record(11, vec![7, 7])));
        f.backend.admit_storage(StorageKey { address: a, slot: word(2) }, Some(word(55)));
    }

    let seen_a = snap(view_a.read().unwrap().try_account(a).unwrap());
    let seen_b = snap(view_b.read().unwrap().try_account(a).unwrap());
    assert_eq!(seen_a, seen_b);

    let cell_a = view_a.read().unwrap().try_storage(a, word(2));
    let cell_b = view_b.read().unwrap().try_storage(a, word(2));
    assert_eq!(cell_a, cell_b);
    assert_eq!(cell_a, Some(word(55)));
}

#[test]
fn concurrent_first_lookups_converge_on_one_fetch() {
    // The first-answer-wins discipline: even if two racing drivers both
    // fetched, only one answer is memoized and every caller reads it.
    let mut f = ForkFactory::new(pb());
    let a = addr(0x41);
    f.backend.admit_account(a, Some(plain_record(100, 1)));
    // A redundant admit from a racing fetch is a no-op.
    f.backend.admit_account(a, Some(plain_record(200, 2)));
    let got = snap(f.try_account(a).unwrap());
    assert_eq!(got, snap(&plain_record(100, 1)));
}

#[test]
fn block_hash_is_memoized_once() {
    let mut f = ForkFactory::new(pb());
    assert_eq!(f.try_block_hash(17_000_000), None);
    f.backend.admit_block_hash(17_000_000, Some(word(0xFACE)));
    assert_eq!(f.try_block_hash(17_000_000), Some(word(0xFACE)));
    f.backend.admit_block_hash(17_000_000, Some(word(1)));
    assert_eq!(f.try_block_hash(17_000_000), Some(word(0xFACE)));
    // An unknown block memoizes the zero hash.
    f.backend.admit_block_hash(1, None);
    assert_eq!(f.try_block_hash(1), Some(word(0)));
}

#[test]
fn code_by_hash_serves_registered_bytecode() {
    let mut f = ForkFactory::new(pb());
    let a = addr(0x51);
    let mut rec = contract_record(0, vec![0xAB, 0xCD]);
    rec.code_hash = word(0x1234);
    f.insert_account_info(a, rec);
    assert_eq!(f.code_by_hash(word(0x1234)).map(|c| c.clone()), Some(vec![0xAB, 0xCD]));
    assert_eq!(f.code_by_hash(word(0x9999)), None);
}

#[test]
fn end_to_end_override_commit_and_sibling_view() {
    // Pin a block; the connector double reports address X with balance 0.
    let shared = Arc::new(RwLock::new(ForkFactory::new(pb())));
    let x = addr(0x61);
    let c = addr(0x62);
    let s = word(12);

    {
        let mut f = shared.write().unwrap();
        if f.try_account(x).is_none() {
            f.backend.admit_account(x, Some(plain_record(0, 0)));
        }
        assert_eq!(f.try_account(x).unwrap().balance, word(0));

        // Override X with balance V.
        let v = 1_000_000u128;
        f.insert_account_info(x, plain_record(v, 0));
        assert_eq!(f.try_account(x).unwrap().balance, word(v));

        // A committing call from X writes 7 into slot S of contract C: the
        // engine's post-execution deltas flow back through commit.
        let account_deltas = vec![(c, contract_record(0, vec![0x60])), (x, plain_record(v, 1))];
        let storage_deltas = vec![(StorageKey { address: c, slot: s }, word(7))];
        f.commit(account_deltas, storage_deltas);
    }

    // A second adapter view from the same factory observes the write.
    let sibling = Arc::clone(&shared);
    assert_eq!(sibling.read().unwrap().try_storage(c, s), Some(word(7)));
    assert_eq!(sibling.read().unwrap().try_account(x).unwrap().nonce, 1);
}

#[test]
fn commit_last_write_wins_within_deltas() {
    let mut f = ForkFactory::new(pb());
    let c = addr(0x71);
    let k = StorageKey { address: c, slot: word(1) };
    f.commit(vec![], vec![(k, word(1)), (k, word(2))]);
    assert_eq!(f.try_storage(c, word(1)), Some(word(2)));
}

#[test]
fn pinned_block_never_changes() {
    let mut f = ForkFactory::new(pb());
    let before = f.pinned_block;
    f.insert_account_info(addr(1), contract_record(0, vec![0]));
    f.insert_account_storage(addr(1), word(0), word(1)).unwrap();
    f.backend.admit_account(addr(2), None);
    f.commit(vec![(addr(3), plain_record(1, 1))], vec![]);
    assert_eq!(f.pinned_block, before);
}

#[test]
fn fetch_failure_is_surfaced_and_never_defaulted() {
    // A transport failure must bubble to the caller; it is never memoized
    // as a zero value, so the key stays unresolved.
    let mut f = ForkFactory::new(pb());
    let a = addr(0x81);
    let remote = |_q: Address| -> Result<Option<AccountRecord>, ForkError> {
        Err(ForkError::RemoteFetchFailed)
    };

    let outcome: Result<(), ForkError> = match f.try_account(a) {
        Some(_) => Ok(()),
        None => match remote(a) {
            Ok(fetched) => {
                f.backend.admit_account(a, fetched);
                Ok(())
            }
            Err(e) => Err(e),
        },
    };
    assert_eq!(outcome, Err(ForkError::RemoteFetchFailed));
    assert!(f.try_account(a).is_none());
}

#[test]
fn scratch_session_copies_overrides_but_not_later_effects() {
    let mut f = ForkFactory::new(pb());
    let a = addr(0x91);
    let c = addr(0x92);
    f.insert_account_info(a, contract_record(50, vec![9, 9]));
    f.insert_account_storage(a, word(1), word(5)).unwrap();

    let mut scratch = f.scratch_session();
    assert_eq!(scratch.pinned_block, f.pinned_block);
    assert_eq!(snap(scratch.try_account(a).unwrap()), snap(f.try_account(a).unwrap()));
    assert_eq!(scratch.try_storage(a, word(1)), Some(word(5)));

    // A commit on the parent session is not observed by the scratch one,
    // and the other way round.
    f.commit(vec![], vec![(StorageKey { address: c, slot: word(0) }, word(77))]);
    assert_eq!(scratch.try_storage(c, word(0)), None);
    scratch.commit(vec![], vec![(StorageKey { address: c, slot: word(0) }, word(88))]);
    assert_eq!(f.try_storage(c, word(0)), Some(word(77)));
}
