//! The fork backend: the shared, memoizing cache behind every adapter view
//! of one session.
//!
//! A key is resolved at most once per run: the first miss is answered by the
//! remote connector (driven by the caller), and `admit_*` memoizes what came
//! back — including the "does not exist" answer, which is a valid zero-valued
//! record, not an error. Once a key is resolved its entry never changes for
//! the rest of the run.

use vstd::prelude::*;
use crate::types::{Address, StorageKey, AccountRecord, Word, clone_bytes};
use crate::alist::{
    assoc_find, account_list_find, account_list_insert_if_absent, code_list_find,
    code_list_insert_if_absent, number_list_find, number_list_insert_if_absent, storage_list_find,
    storage_list_insert_if_absent,
};

verus! {

/// The record that a connector answer is memoized as: the fetched record,
/// or the zero-valued absent record when the address is not on chain.
pub open spec fn admitted_account(fetched: Option<AccountRecord>) -> AccountRecord {
    match fetched {
        Some(r) => r,
        None => AccountRecord {
            balance: Word { hi: 0, lo: 0 },
            nonce: 0,
            code_hash: Word { hi: 0, lo: 0 },
            code: None,
            exists: false,
        },
    }
}

/// The word that a connector answer for a storage slot or a block hash is
/// memoized as: the fetched word, or zero when the key is not on chain.
pub open spec fn admitted_word(fetched: Option<Word>) -> Word {
    match fetched {
        Some(w) => w,
        None => Word { hi: 0, lo: 0 },
    }
}

/// The session cache: account records by address, storage words by
/// (address, slot), block hashes by number, and contract bytecode by code
/// hash.
pub struct ForkBackend {
    pub accounts: Vec<(Address, AccountRecord)>,
    pub storage: Vec<(StorageKey, Word)>,
    pub block_hashes: Vec<(u64, Word)>,
    pub contract_code: Vec<(Word, Vec<u8>)>,
}

impl ForkBackend {
    /// An empty cache: every key unresolved.
    pub fn new() -> (r: ForkBackend)
        ensures
            r.accounts@ == Seq::<(Address, AccountRecord)>::empty(),
            r.storage@ == Seq::<(StorageKey, Word)>::empty(),
            r.block_hashes@ == Seq::<(u64, Word)>::empty(),
            r.contract_code@ == Seq::<(Word, Vec<u8>)>::empty(),
    {
        ForkBackend {
            accounts: Vec::new(),
            storage: Vec::new(),
            block_hashes: Vec::new(),
            contract_code: Vec::new(),
        }
    }

    /// The cached record for an address, if that address is resolved.
    pub fn cached_account(&self, address: Address) -> (r: Option<&AccountRecord>)
        ensures
            match r {
                Some(v) => assoc_find(self.accounts@, address) == Some(*v),
                None => assoc_find(self.accounts@, address) is None,
            },
    {
        account_list_find(&self.accounts, address)
    }

    /// The cached word for a storage cell, if that cell is resolved.
    pub fn cached_storage(&self, key: StorageKey) -> (r: Option<Word>)
        ensures
            r == assoc_find(self.storage@, key),
    {
        storage_list_find(&self.storage, key)
    }

    /// The cached hash for a block number, if that number is resolved.
    pub fn cached_block_hash(&self, number: u64) -> (r: Option<Word>)
        ensures
            r == assoc_find(self.block_hashes@, number),
    {
        number_list_find(&self.block_hashes, number)
    }

    /// The bytecode registered for a code hash, if any.
    pub fn code_by_hash(&self, hash: Word) -> (r: Option<&Vec<u8>>)
        ensures
            match r {
                Some(v) => assoc_find(self.contract_code@, hash) == Some(*v),
                None => assoc_find(self.contract_code@, hash) is None,
            },
    {
        code_list_find(&self.contract_code, hash)
    }

    /// Memoizes a connector answer for an address. The first answer wins: a
    /// key already resolved is left untouched, so a resolved entry never
    /// changes for the rest of the run. Bytecode carried by the record is
    /// registered under its code hash only where that hash was unbound: a
    /// cache fill never rebinds code that an override registered.
    pub fn admit_account(&mut self, address: Address, fetched: Option<AccountRecord>)
        ensures
            assoc_find(old(self).accounts@, address) is Some ==> *final(self) == *old(self),
            assoc_find(old(self).accounts@, address) is None ==> {
                &&& assoc_find(final(self).accounts@, address) == Some(admitted_account(fetched))
                &&& forall|k: Address|
                    k != address ==> assoc_find(final(self).accounts@, k) == assoc_find(
                        old(self).accounts@,
                        k,
                    )
                &&& final(self).storage == old(self).storage
                &&& final(self).block_hashes == old(self).block_hashes
                &&& (match admitted_account(fetched).code {
                    Some(c) => {
                        &&& (match assoc_find(
                            old(self).contract_code@,
                            admitted_account(fetched).code_hash,
                        ) {
                            Some(_) => final(self).contract_code@ == old(self).contract_code@,
                            None => (assoc_find(
                                final(self).contract_code@,
                                admitted_account(fetched).code_hash,
                            ) matches Some(cc) && cc@ == c@),
                        })
                        &&& forall|h: Word|
                            h != admitted_account(fetched).code_hash ==> assoc_find(
                                final(self).contract_code@,
                                h,
                            ) == assoc_find(old(self).contract_code@, h)
                    },
                    None => final(self).contract_code == old(self).contract_code,
                })
            },
    {
        if account_list_find(&self.accounts, address).is_some() {
            return ;
        }
        let record = match fetched {
            Some(r) => r,
            None => AccountRecord::absent(),
        };
        if let Some(code) = &record.code {
            let copy = clone_bytes(code);
            code_list_insert_if_absent(&mut self.contract_code, record.code_hash, copy);
        }
        account_list_insert_if_absent(&mut self.accounts, address, record);
    }

    /// Memoizes a connector answer for a storage cell. The first answer
    /// wins; an absent slot is memoized as the zero word.
    pub fn admit_storage(&mut self, key: StorageKey, fetched: Option<Word>)
        ensures
            assoc_find(old(self).storage@, key) is Some ==> *final(self) == *old(self),
            assoc_find(old(self).storage@, key) is None ==> {
                &&& assoc_find(final(self).storage@, key) == Some(admitted_word(fetched))
                &&& forall|k: StorageKey|
                    k != key ==> assoc_find(final(self).storage@, k) == assoc_find(
                        old(self).storage@,
                        k,
                    )
                &&& final(self).accounts == old(self).accounts
                &&& final(self).block_hashes == old(self).block_hashes
                &&& final(self).contract_code == old(self).contract_code
            },
    {
        if storage_list_find(&self.storage, key).is_some() {
            return ;
        }
        let word = match fetched {
            Some(w) => w,
            None => Word::zero(),
        };
        storage_list_insert_if_absent(&mut self.storage, key, word);
    }

    /// Memoizes a connector answer for a block number. The first answer
    /// wins; an unknown block is memoized as the zero hash.
    pub fn admit_block_hash(&mut self, number: u64, fetched: Option<Word>)
        ensures
            assoc_find(old(self).block_hashes@, number) is Some ==> *final(self) == *old(self),
            assoc_find(old(self).block_hashes@, number) is None ==> {
                &&& assoc_find(final(self).block_hashes@, number) == Some(admitted_word(fetched))
                &&& forall|k: u64|
                    k != number ==> assoc_find(final(self).block_hashes@, k) == assoc_find(
                        old(self).block_hashes@,
                        k,
                    )
                &&& final(self).accounts == old(self).accounts
                &&& final(self).storage == old(self).storage
                &&& final(self).contract_code == old(self).contract_code
            },
    {
        if number_list_find(&self.block_hashes, number).is_some() {
            return ;
        }
        let word = match fetched {
            Some(w) => w,
            None => Word::zero(),
        };
        number_list_insert_if_absent(&mut self.block_hashes, number, word);
    }
}

} // verus!
