//! The fork factory: owner of the pinned block, the shared backend cache and
//! the override set, and home of the resolution order that every adapter
//! view obeys.
//!
//! Precedence is total and fixed: override, then cache, then remote fetch,
//! then the not-found default. A lookup that returns `None` here means the
//! key is unresolved: the driver fetches it from the remote connector and
//! memoizes the answer through the backend's `admit_*` — a cache fill can
//! never overwrite an override, because overrides always rank first.

use vstd::prelude::*;
use crate::types::{Address, StorageKey, AccountRecord, Word, PinnedBlock, ForkError};
use crate::alist::{
    assoc_find, delta_find, record_like, account_list_find, account_list_upsert, code_list_upsert,
    lemma_assoc_find_pointwise, storage_list_upsert,
};
use crate::fork_backend::ForkBackend;
use crate::types::clone_bytes;

verus! {

/// One session's state: the pinned block, the backend cache and the
/// caller-injected override set. Adapter views spawned for the execution
/// engine all consult this one state, so a mutation through any of them is
/// immediately visible to its siblings.
pub struct ForkFactory {
    pub backend: ForkBackend,
    pub account_overrides: Vec<(Address, AccountRecord)>,
    pub storage_overrides: Vec<(StorageKey, Word)>,
    pub pinned_block: PinnedBlock,
}

impl ForkFactory {
    /// What an account lookup observes: the override if one is set, else the
    /// cached record, else nothing (the key is unresolved).
    pub open spec fn resolved_account(&self, address: Address) -> Option<AccountRecord> {
        match assoc_find(self.account_overrides@, address) {
            Some(r) => Some(r),
            None => assoc_find(self.backend.accounts@, address),
        }
    }

    /// What a storage lookup observes: the override if one is set, else the
    /// cached word, else nothing (the cell is unresolved).
    pub open spec fn resolved_storage(&self, key: StorageKey) -> Option<Word> {
        match assoc_find(self.storage_overrides@, key) {
            Some(w) => Some(w),
            None => assoc_find(self.backend.storage@, key),
        }
    }

    /// What a block-hash lookup observes: the cached hash, else nothing.
    pub open spec fn resolved_block_hash(&self, number: u64) -> Option<Word> {
        assoc_find(self.backend.block_hashes@, number)
    }

    /// A new session: a pinned block, an empty cache and no overrides.
    pub fn new(pinned_block: PinnedBlock) -> (r: ForkFactory)
        ensures
            r.pinned_block == pinned_block,
            r.account_overrides@ == Seq::<(Address, AccountRecord)>::empty(),
            r.storage_overrides@ == Seq::<(StorageKey, Word)>::empty(),
            r.backend.accounts@ == Seq::<(Address, AccountRecord)>::empty(),
            r.backend.storage@ == Seq::<(StorageKey, Word)>::empty(),
            r.backend.block_hashes@ == Seq::<(u64, Word)>::empty(),
            r.backend.contract_code@ == Seq::<(Word, Vec<u8>)>::empty(),
    {
        ForkFactory {
            backend: ForkBackend::new(),
            account_overrides: Vec::new(),
            storage_overrides: Vec::new(),
            pinned_block,
        }
    }

    /// Replaces an address's whole record — balance, nonce, code and
    /// existence set atomically, never a partial merge. The override
    /// outranks anything cached or fetched for that address. Bytecode
    /// carried by the record is also registered under its code hash.
    pub fn insert_account_info(&mut self, address: Address, info: AccountRecord)
        ensures
            assoc_find(final(self).account_overrides@, address) == Some(info),
            final(self).resolved_account(address) == Some(info),
            forall|k: Address|
                k != address ==> assoc_find(final(self).account_overrides@, k) == assoc_find(
                    old(self).account_overrides@,
                    k,
                ),
            final(self).storage_overrides == old(self).storage_overrides,
            final(self).backend.accounts == old(self).backend.accounts,
            final(self).backend.storage == old(self).backend.storage,
            final(self).backend.block_hashes == old(self).backend.block_hashes,
            final(self).pinned_block == old(self).pinned_block,
            match info.code {
                Some(c) => {
                    &&& (assoc_find(final(self).backend.contract_code@, info.code_hash)
                        matches Some(cc) && cc@ == c@)
                    &&& forall|h: Word|
                        h != info.code_hash ==> assoc_find(final(self).backend.contract_code@, h)
                            == assoc_find(old(self).backend.contract_code@, h)
                },
                None => final(self).backend.contract_code == old(self).backend.contract_code,
            },
    {
        if let Some(code) = &info.code {
            let copy = clone_bytes(code);
            code_list_upsert(&mut self.backend.contract_code, info.code_hash, copy);
        }
        account_list_upsert(&mut self.account_overrides, address, info);
    }

    /// Overrides one storage cell of a contract account.
    ///
    /// The target's current record — the override if one is set, else the
    /// resolved account — must carry bytecode: writing storage to a
    /// non-contract address is a caller error, rejected with
    /// `OverrideOnNonContract` and no state change. The caller resolves the
    /// account first, so a current record exists.
    pub fn insert_account_storage(&mut self, address: Address, slot: Word, value: Word) -> (r:
        Result<(), ForkError>)
        requires
            old(self).resolved_account(address) is Some,
        ensures
            match r {
                Ok(()) => {
                    &&& old(self).resolved_account(address).unwrap().has_code()
                    &&& assoc_find(
                        final(self).storage_overrides@,
                        StorageKey { address, slot },
                    ) == Some(value)
                    &&& final(self).resolved_storage(StorageKey { address, slot }) == Some(value)
                    &&& forall|k: StorageKey|
                        k != (StorageKey { address, slot }) ==> assoc_find(
                            final(self).storage_overrides@,
                            k,
                        ) == assoc_find(old(self).storage_overrides@, k)
                    &&& final(self).account_overrides == old(self).account_overrides
                    &&& final(self).backend == old(self).backend
                    &&& final(self).pinned_block == old(self).pinned_block
                },
                Err(e) => {
                    &&& e == ForkError::OverrideOnNonContract
                    &&& !old(self).resolved_account(address).unwrap().has_code()
                    &&& *final(self) == *old(self)
                },
            },
    {
        let has_code = match account_list_find(&self.account_overrides, address) {
            Some(rec) => rec.code.is_some(),
            None => match self.backend.cached_account(address) {
                Some(rec) => rec.code.is_some(),
                None => {
                    proof {
                        assert(false);
                    }
                    false
                },
            },
        };
        if has_code {
            storage_list_upsert(&mut self.storage_overrides, StorageKey { address, slot }, value);
            Ok(())
        } else {
            Err(ForkError::OverrideOnNonContract)
        }
    }

    /// An adapter's account lookup: the override, else the cached record.
    /// `None` means the address is unresolved; the driver fetches it and
    /// memoizes the answer through `backend.admit_account`.
    pub fn try_account(&self, address: Address) -> (r: Option<&AccountRecord>)
        ensures
            match r {
                Some(v) => self.resolved_account(address) == Some(*v),
                None => self.resolved_account(address) is None,
            },
    {
        match account_list_find(&self.account_overrides, address) {
            Some(r) => Some(r),
            None => self.backend.cached_account(address),
        }
    }

    /// An adapter's storage lookup: the override, else the cached word.
    /// `None` means the cell is unresolved.
    pub fn try_storage(&self, address: Address, slot: Word) -> (r: Option<Word>)
        ensures
            r == self.resolved_storage(StorageKey { address, slot }),
    {
        let key = StorageKey { address, slot };
        match crate::alist::storage_list_find(&self.storage_overrides, key) {
            Some(w) => Some(w),
            None => self.backend.cached_storage(key),
        }
    }

    /// An adapter's block-hash lookup. `None` means the number is
    /// unresolved.
    pub fn try_block_hash(&self, number: u64) -> (r: Option<Word>)
        ensures
            r == self.resolved_block_hash(number),
    {
        self.backend.cached_block_hash(number)
    }

    /// An adapter's code lookup, by code hash. `None` stands for the
    /// not-found default: the engine treats it as empty bytecode.
    pub fn code_by_hash(&self, hash: Word) -> (r: Option<&Vec<u8>>)
        ensures
            match r {
                Some(v) => assoc_find(self.backend.contract_code@, hash) == Some(*v),
                None => assoc_find(self.backend.contract_code@, hash) is None,
            },
    {
        self.backend.code_by_hash(hash)
    }

    /// A new, isolated session for scratch simulations that must not observe
    /// this session's later committed effects: the same pinned block, a copy
    /// of the override set, and an empty cache. Remote data for the pinned
    /// block is immutable, so the new session refetches instead of copying
    /// the cache.
    pub fn scratch_session(&self) -> (r: ForkFactory)
        ensures
            r.pinned_block == self.pinned_block,
            forall|k: Address|
                #![trigger assoc_find(r.account_overrides@, k)]
                match (
                    assoc_find(r.account_overrides@, k),
                    assoc_find(self.account_overrides@, k),
                ) {
                    (Some(a), Some(b)) => record_like(a, b),
                    (None, None) => true,
                    _ => false,
                },
            r.storage_overrides@ == self.storage_overrides@,
            r.backend.accounts@ == Seq::<(Address, AccountRecord)>::empty(),
            r.backend.storage@ == Seq::<(StorageKey, Word)>::empty(),
            r.backend.block_hashes@ == Seq::<(u64, Word)>::empty(),
            r.backend.contract_code@ == Seq::<(Word, Vec<u8>)>::empty(),
    {
        let n = self.account_overrides.len();
        let mut accounts: Vec<(Address, AccountRecord)> = Vec::new();
        let mut i: usize = 0;
        while i < n
            invariant
                n == self.account_overrides@.len(),
                i <= n,
                accounts@.len() == i,
                forall|j: int|
                    0 <= j < i ==> (#[trigger] accounts@[j]).0 == self.account_overrides@[j].0
                        && record_like(accounts@[j].1, self.account_overrides@[j].1),
            decreases n - i,
        {
            let entry = &self.account_overrides[i];
            accounts.push((entry.0, entry.1.duplicate()));
            i = i + 1;
        }
        let m = self.storage_overrides.len();
        let mut storage: Vec<(StorageKey, Word)> = Vec::new();
        let mut j: usize = 0;
        while j < m
            invariant
                m == self.storage_overrides@.len(),
                j <= m,
                storage@ == self.storage_overrides@.subrange(0, j as int),
            decreases m - j,
        {
            storage.push(self.storage_overrides[j]);
            assert(storage@ =~= self.storage_overrides@.subrange(0, j as int + 1));
            j = j + 1;
        }
        assert(storage@ =~= self.storage_overrides@);
        let r = ForkFactory {
            backend: ForkBackend::new(),
            account_overrides: accounts,
            storage_overrides: storage,
            pinned_block: self.pinned_block,
        };
        proof {
            assert forall|k: Address|
                #![trigger assoc_find(r.account_overrides@, k)]
                match (
                    assoc_find(r.account_overrides@, k),
                    assoc_find(self.account_overrides@, k),
                ) {
                    (Some(a), Some(b)) => record_like(a, b),
                    (None, None) => true,
                    _ => false,
                } by {
                lemma_assoc_find_pointwise(r.account_overrides@, self.account_overrides@, k);
            }
        }
        r
    }

    /// Writes a committed simulation's post-execution deltas back into the
    /// override set, so that later calls on sibling adapter views observe
    /// them. Within the deltas the last write to a key wins.
    pub fn commit(
        &mut self,
        account_deltas: Vec<(Address, AccountRecord)>,
        storage_deltas: Vec<(StorageKey, Word)>,
    )
        ensures
            forall|k: Address|
                assoc_find(final(self).account_overrides@, k) == (match delta_find(
                    account_deltas@,
                    k,
                ) {
                    Some(v) => Some(v),
                    None => assoc_find(old(self).account_overrides@, k),
                }),
            forall|k: StorageKey|
                assoc_find(final(self).storage_overrides@, k) == (match delta_find(
                    storage_deltas@,
                    k,
                ) {
                    Some(v) => Some(v),
                    None => assoc_find(old(self).storage_overrides@, k),
                }),
            final(self).backend.accounts == old(self).backend.accounts,
            final(self).backend.storage == old(self).backend.storage,
            final(self).backend.block_hashes == old(self).backend.block_hashes,
            final(self).backend.contract_code == old(self).backend.contract_code,
            final(self).pinned_block == old(self).pinned_block,
    {
        let ghost ad = account_deltas@;
        let mut rest = account_deltas;
        let ghost mut j: int = 0;
        while rest.len() > 0
            invariant
                0 <= j <= ad.len(),
                rest@ == ad.subrange(j, ad.len() as int),
                forall|k: Address|
                    assoc_find(self.account_overrides@, k) == (match delta_find(ad.take(j), k) {
                        Some(v) => Some(v),
                        None => assoc_find(old(self).account_overrides@, k),
                    }),
                self.storage_overrides == old(self).storage_overrides,
                self.backend == old(self).backend,
                self.pinned_block == old(self).pinned_block,
            decreases rest@.len(),
        {
            let (a, r) = rest.remove(0);
            assert(a == ad[j].0 && r == ad[j].1);
            account_list_upsert(&mut self.account_overrides, a, r);
            proof {
                assert(rest@ =~= ad.subrange(j + 1, ad.len() as int));
                assert(ad.take(j + 1).drop_last() =~= ad.take(j));
                assert(ad.take(j + 1).last() == ad[j]);
                j = j + 1;
            }
        }
        proof {
            assert(ad.take(j) =~= ad);
        }
        let ghost sd = storage_deltas@;
        let mut srest = storage_deltas;
        let ghost mut i: int = 0;
        while srest.len() > 0
            invariant
                0 <= i <= sd.len(),
                srest@ == sd.subrange(i, sd.len() as int),
                forall|k: StorageKey|
                    assoc_find(self.storage_overrides@, k) == (match delta_find(sd.take(i), k) {
                        Some(v) => Some(v),
                        None => assoc_find(old(self).storage_overrides@, k),
                    }),
                forall|k: Address|
                    assoc_find(self.account_overrides@, k) == (match delta_find(ad, k) {
                        Some(v) => Some(v),
                        None => assoc_find(old(self).account_overrides@, k),
                    }),
                self.backend == old(self).backend,
                self.pinned_block == old(self).pinned_block,
            decreases srest@.len(),
        {
            let (sk, w) = srest.remove(0);
            assert(sk == sd[i].0 && w == sd[i].1);
            storage_list_upsert(&mut self.storage_overrides, sk, w);
            proof {
                assert(srest@ =~= sd.subrange(i + 1, sd.len() as int));
                assert(sd.take(i + 1).drop_last() =~= sd.take(i));
                assert(sd.take(i + 1).last() == sd[i]);
                i = i + 1;
            }
        }
        proof {
            assert(sd.take(i) =~= sd);
        }
    }
}

} // verus!
