//! Plain value types shared by the whole library.
//!
//! Chain quantities are modelled as fixed-width integers split into limbs:
//! an address is a 160-bit value (`hi` is the most significant 32 bits),
//! a word is a 256-bit value (`hi` is the most significant 128 bits).

use vstd::prelude::*;

verus! {

/// A 160-bit account address, big-endian split as `hi` (32 bits) then `lo`
/// (128 bits).
#[derive(Clone, Copy, PartialEq, Eq, Structural, Hash, Debug)]
pub struct Address {
    pub hi: u32,
    pub lo: u128,
}

/// A 256-bit state word, big-endian split as `hi` then `lo` (128 bits each).
#[derive(Clone, Copy, PartialEq, Eq, Structural, Hash, Debug)]
pub struct Word {
    pub hi: u128,
    pub lo: u128,
}

impl Word {
    /// The all-zero word.
    pub fn zero() -> (r: Word)
        ensures
            r == (Word { hi: 0, lo: 0 }),
    {
        Word { hi: 0, lo: 0 }
    }

    /// A word holding a value that fits in 128 bits.
    pub fn from_u128(v: u128) -> (r: Word)
        ensures
            r == (Word { hi: 0, lo: v }),
    {
        Word { hi: 0, lo: v }
    }
}

/// The key of a storage cell: the contract's address and the slot index.
#[derive(Clone, Copy, PartialEq, Eq, Structural, Hash, Debug)]
pub struct StorageKey {
    pub address: Address,
    pub slot: Word,
}

/// One account's state: balance, nonce, code hash, optional bytecode and an
/// existence flag. An account that is absent on chain is a valid, zero-valued
/// record with `exists` false, not an error.
#[derive(Debug)]
pub struct AccountRecord {
    pub balance: Word,
    pub nonce: u64,
    pub code_hash: Word,
    pub code: Option<Vec<u8>>,
    pub exists: bool,
}

impl AccountRecord {
    /// Whether this record carries contract bytecode.
    pub open spec fn has_code(&self) -> bool {
        self.code is Some
    }

    /// A field-for-field copy of this record; the bytecode is copied byte
    /// for byte.
    pub fn duplicate(&self) -> (r: AccountRecord)
        ensures
            r.balance == self.balance,
            r.nonce == self.nonce,
            r.code_hash == self.code_hash,
            r.exists == self.exists,
            match (r.code, self.code) {
                (Some(x), Some(y)) => x@ == y@,
                (None, None) => true,
                _ => false,
            },
    {
        AccountRecord {
            balance: self.balance,
            nonce: self.nonce,
            code_hash: self.code_hash,
            code: match &self.code {
                Some(c) => Some(clone_bytes(c)),
                None => None,
            },
            exists: self.exists,
        }
    }

    /// The zero-valued record that stands for an address absent on chain.
    pub fn absent() -> (r: AccountRecord)
        ensures
            r.balance == (Word { hi: 0, lo: 0 }),
            r.nonce == 0,
            r.code_hash == (Word { hi: 0, lo: 0 }),
            r.code is None,
            !r.exists,
    {
        AccountRecord {
            balance: Word { hi: 0, lo: 0 },
            nonce: 0,
            code_hash: Word { hi: 0, lo: 0 },
            code: None,
            exists: false,
        }
    }
}

/// Copies a byte vector element by element.
pub fn clone_bytes(v: &Vec<u8>) -> (r: Vec<u8>)
    ensures
        r@ == v@,
{
    let mut r: Vec<u8> = Vec::new();
    let mut i: usize = 0;
    while i < v.len()
        invariant
            i <= v@.len(),
            r@ == v@.subrange(0, i as int),
        decreases v@.len() - i,
    {
        r.push(v[i]);
        assert(r@ =~= v@.subrange(0, i as int + 1));
        i = i + 1;
    }
    assert(r@ =~= v@);
    r
}

/// The kind of a synthetic account: an externally owned account or a
/// contract.
#[derive(Clone, Copy, PartialEq, Eq, Structural, Debug)]
pub enum AccountType {
    EOA,
    Contract,
}

/// The single historical block against which every lookup of a session is
/// resolved. It never changes after the factory is constructed.
#[derive(Clone, Copy, PartialEq, Eq, Structural, Debug)]
pub struct PinnedBlock {
    pub number: u64,
    pub timestamp: u64,
    pub coinbase: Address,
}

/// The errors of the library.
///
/// A remote transport or protocol failure is `RemoteFetchFailed`; it is
/// surfaced, never turned into a zero value and never retried internally.
/// `OverrideOnNonContract` rejects a storage override on an address whose
/// record carries no bytecode. A legitimate negative result (absent account
/// or slot) is not an error: it is a zero-valued record.
#[derive(Clone, Copy, PartialEq, Eq, Structural, Debug)]
pub enum ForkError {
    RemoteFetchFailed,
    OverrideOnNonContract,
}

} // verus!
