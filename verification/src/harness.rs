//! The thin simulation harness around the forked-state database: synthetic
//! accounts for dry runs, swap parameters, the shape of a simulation's
//! result, and the injectable token table that replaces process-wide
//! constants.

use vstd::prelude::*;
use crate::types::{Address, StorageKey, AccountRecord, AccountType, Word, ForkError};
use crate::alist::{assoc_find, decimals_list_find};
use crate::types::clone_bytes;
use crate::fork_factory::ForkFactory;
use crate::encode::{abi_address_word, keccak256_of, token_balance_slot, word_bytes, word_of_bytes};

verus! {

/// One ether, in wei.
pub const ONE_ETHER_WEI: u128 = 1000000000000000000;

/// An injectable table of token decimal counts, passed in by the caller
/// instead of living as a hidden process-wide constant.
pub struct TokenTable {
    pub decimals: Vec<(Address, u32)>,
}

/// The decimal count of a token, read from the table; an unknown token
/// defaults to 18 decimals.
pub fn match_decimals(token: Address, table: &TokenTable) -> (r: u32)
    ensures
        r == (match assoc_find(table.decimals@, token) {
            Some(d) => d,
            None => 18u32,
        }),
{
    match decimals_list_find(&table.decimals, token) {
        Some(d) => d,
        None => 18,
    }
}

/// The two pool flavours a swap can route through.
#[derive(Clone, Copy, PartialEq, Eq, Structural, Debug)]
pub enum PoolVariant {
    UniswapV2,
    UniswapV3,
}

/// A liquidity pool: its address, its token pair and its flavour.
#[derive(Clone, Copy, PartialEq, Eq, Structural, Debug)]
pub struct Pool {
    pub address: Address,
    pub token0: Address,
    pub token1: Address,
    pub variant: PoolVariant,
}

impl Pool {
    /// The pool's flavour as the word the router expects: zero for a v2
    /// pool, one for a v3 pool.
    pub fn variant(&self) -> (r: Word)
        ensures
            self.variant is UniswapV2 ==> r == (Word { hi: 0, lo: 0 }),
            self.variant is UniswapV3 ==> r == (Word { hi: 0, lo: 1 }),
    {
        match self.variant {
            PoolVariant::UniswapV2 => Word::zero(),
            PoolVariant::UniswapV3 => Word::from_u128(1),
        }
    }
}

/// The parameters of one router swap.
#[derive(Clone, Copy, PartialEq, Eq, Structural, Debug)]
pub struct SwapParams {
    pub input_token: Address,
    pub output_token: Address,
    pub amount_in: Word,
    pub pool: Address,
    pub pool_variant: Word,
    pub minimum_received: Word,
}

/// One event log emitted during a simulated call.
#[derive(Debug)]
pub struct LogRecord {
    pub address: Address,
    pub topics: Vec<Word>,
    pub data: Vec<u8>,
}

/// What a simulated call reports: whether it reverted, the logs it emitted,
/// the gas it consumed and its raw return bytes.
#[derive(Debug)]
pub struct SimulationResult {
    pub is_reverted: bool,
    pub logs: Vec<LogRecord>,
    pub gas_used: u64,
    pub output: Vec<u8>,
}

/// What a dummy account is built from: the funded token, the slot of that
/// token's balance mapping, the amount funded, and the bytecode given to
/// contract dummies.
pub struct DummyAccountConfig {
    pub token: Address,
    pub balance_map_slot: Word,
    pub funding: Word,
    pub contract_code: Vec<u8>,
}

/// Relies on rand's thread-local generator to draw a fresh 160-bit
/// address; nothing is promised of the value drawn.
#[verifier::external_body]
fn random_address() -> (r: Address) {
    let mut rng = rand::thread_rng();
    let hi: u32 = rand::Rng::gen(&mut rng);
    let lo: u128 = rand::Rng::gen(&mut rng);
    Address { hi, lo }
}

/// The record a dummy account starts from: an externally owned account
/// holds one ether and no code; a contract holds no ether and the given
/// bytecode. Both start at nonce zero with a zero code hash.
pub fn dummy_account_record(account_type: AccountType, contract_code: Vec<u8>) -> (r: AccountRecord)
    ensures
        r.nonce == 0,
        r.code_hash == (Word { hi: 0, lo: 0 }),
        r.exists,
        account_type is EOA ==> r.balance == (Word { hi: 0, lo: ONE_ETHER_WEI }) && r.code is None,
        account_type is Contract ==> r.balance == (Word { hi: 0, lo: 0 }) && r.code == Some(
            contract_code,
        ),
{
    match account_type {
        AccountType::EOA => AccountRecord {
            balance: Word::from_u128(ONE_ETHER_WEI),
            nonce: 0,
            code_hash: Word::zero(),
            code: None,
            exists: true,
        },
        AccountType::Contract => AccountRecord {
            balance: Word::zero(),
            nonce: 0,
            code_hash: Word::zero(),
            code: Some(contract_code),
            exists: true,
        },
    }
}

/// The record a dummy account's override binding must hold: nonce zero, a
/// zero code hash, the existence flag set, and balance and bytecode fixed
/// by the account's kind.
pub open spec fn is_dummy_record(rec: AccountRecord, account_type: AccountType, code: Seq<u8>) -> bool {
    &&& rec.nonce == 0
    &&& rec.code_hash == (Word { hi: 0, lo: 0 })
    &&& rec.exists
    &&& (account_type is EOA ==> rec.balance == (Word { hi: 0, lo: ONE_ETHER_WEI })
        && rec.code is None)
    &&& (account_type is Contract ==> rec.balance == (Word { hi: 0, lo: 0 }) && (
    rec.code matches Some(c) && c@ == code))
}

/// How injecting a dummy account changes the session's account state: the
/// override set gains exactly one binding, at `address`, holding the dummy
/// record; every other account binding, the whole cache of accounts,
/// storage and block hashes, and the pinned block are untouched. A
/// contract dummy's bytecode is also registered under its zero code hash;
/// an externally owned dummy leaves the code index as it was.
pub open spec fn dummy_override_installed(
    pre: ForkFactory,
    post: ForkFactory,
    account_type: AccountType,
    code: Seq<u8>,
    address: Address,
) -> bool {
    &&& (assoc_find(post.account_overrides@, address) matches Some(rec) && is_dummy_record(
        rec,
        account_type,
        code,
    ))
    &&& forall|k: Address|
        k != address ==> assoc_find(post.account_overrides@, k) == assoc_find(
            pre.account_overrides@,
            k,
        )
    &&& post.backend.accounts == pre.backend.accounts
    &&& post.backend.storage == pre.backend.storage
    &&& post.backend.block_hashes == pre.backend.block_hashes
    &&& post.pinned_block == pre.pinned_block
    &&& (account_type is EOA ==> post.backend.contract_code == pre.backend.contract_code)
    &&& (account_type is Contract ==> (assoc_find(
        post.backend.contract_code@,
        Word { hi: 0, lo: 0 },
    ) matches Some(cc) && cc@ == code) && forall|h: Word|
        h != (Word { hi: 0, lo: 0 }) ==> assoc_find(post.backend.contract_code@, h) == assoc_find(
            pre.backend.contract_code@,
            h,
        ))
}

/// Injects a synthetic account at a fresh random address into the fork:
/// the dummy record is set as an override, and the account is funded with
/// the configured token amount by overriding the token's balance slot for
/// that address. The token's account must already be resolved (or
/// overridden); funding fails with `OverrideOnNonContract` when the
/// token's record carries no bytecode — the dummy override inserted before
/// that step stays in place.
pub fn insert_dummy_account(
    account_type: AccountType,
    fork_factory: &mut ForkFactory,
    cfg: &DummyAccountConfig,
) -> (r: Result<Address, ForkError>)
    requires
        old(fork_factory).resolved_account(cfg.token) is Some,
    ensures
        final(fork_factory).pinned_block == old(fork_factory).pinned_block,
        match r {
            Ok(address) => {
                &&& dummy_override_installed(
                    *old(fork_factory),
                    *final(fork_factory),
                    account_type,
                    cfg.contract_code@,
                    address,
                )
                &&& final(fork_factory).resolved_account(address) == assoc_find(
                    final(fork_factory).account_overrides@,
                    address,
                )
                &&& ({
                    let key = StorageKey {
                        address: cfg.token,
                        slot: word_of_bytes(
                            keccak256_of(
                                abi_address_word(address) + word_bytes(cfg.balance_map_slot),
                            ),
                        ),
                    };
                    &&& assoc_find(final(fork_factory).storage_overrides@, key) == Some(cfg.funding)
                    &&& final(fork_factory).resolved_storage(key) == Some(cfg.funding)
                    &&& forall|k: StorageKey|
                        k != key ==> assoc_find(final(fork_factory).storage_overrides@, k)
                            == assoc_find(old(fork_factory).storage_overrides@, k)
                })
            },
            Err(e) => {
                &&& e == ForkError::OverrideOnNonContract
                &&& exists|address: Address|
                    dummy_override_installed(
                        *old(fork_factory),
                        *final(fork_factory),
                        account_type,
                        cfg.contract_code@,
                        address,
                    )
                &&& final(fork_factory).storage_overrides == old(fork_factory).storage_overrides
                &&& (final(fork_factory).resolved_account(cfg.token) matches Some(rec)
                    && !rec.has_code())
            },
        },
{
    let address = random_address();
    let code_copy = clone_bytes(&cfg.contract_code);
    let record = dummy_account_record(account_type, code_copy);
    fork_factory.insert_account_info(address, record);
    let slot = token_balance_slot(address, cfg.balance_map_slot);
    match fork_factory.insert_account_storage(cfg.token, slot, cfg.funding) {
        Ok(()) => {
            proof {
                assert(dummy_override_installed(
                    *old(fork_factory),
                    *fork_factory,
                    account_type,
                    cfg.contract_code@,
                    address,
                ));
            }
            Ok(address)
        },
        Err(e) => {
            proof {
                assert(dummy_override_installed(
                    *old(fork_factory),
                    *fork_factory,
                    account_type,
                    cfg.contract_code@,
                    address,
                ));
            }
            Err(e)
        },
    }
}

} // verus!
