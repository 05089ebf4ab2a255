use forked_db::encode::token_balance_slot;
use forked_db::fork_factory::ForkFactory;
use forked_db::harness::{
    dummy_account_record, insert_dummy_account, match_decimals, DummyAccountConfig, Pool,
    PoolVariant, TokenTable, ONE_ETHER_WEI,
};
use forked_db::types::{AccountRecord, AccountType, Address, ForkError, PinnedBlock, Word};

fn pb() -> PinnedBlock {
    PinnedBlock { number: 1, timestamp: 2, coinbase: Address { hi: 0, lo: 3 } }
}

fn addr(lo: u128) -> Address {
    Address { hi: 0, lo }
}

fn word(lo: u128) -> Word {
    Word { hi: 0, lo }
}

fn token_contract(code: Vec<u8>) -> AccountRecord {
    AccountRecord {
        balance: word(0),
        nonce: 1,
        code_hash: word(0xBEEF),
        code: Some(code),
        exists: true,
    }
}

fn config(token: Address) -> DummyAccountConfig {
    DummyAccountConfig {
        token,
        balance_map_slot: word(3),
        funding: word(ONE_ETHER_WEI),
        contract_code: vec![0x60, 0x80, 0x60, 0x40],
    }
}

#[test]
fn dummy_account_record_eoa() {
    let r = dummy_account_record(AccountType::EOA, vec![1, 2]);
    assert_eq!(r.balance, word(ONE_ETHER_WEI));
    assert_eq!(r.nonce, 0);
    assert!(r.code.is_none());
    assert!(r.exists);
}

#[test]
fn dummy_account_record_contract() {
    let r = dummy_account_record(AccountType::Contract, vec![1, 2]);
    assert_eq!(r.balance, word(0));
    assert_eq!(r.code, Some(vec![1, 2]));
    assert!(r.exists);
}

#[test]
fn insert_dummy_account_funds_token_balance() {
    let token = addr(0x7E7);
    let mut f = ForkFactory::new(pb());
    f.insert_account_info(token, token_contract(vec![0xFE, 0xED]));

    let cfg = config(token);
    let address = insert_dummy_account(AccountType::EOA, &mut f, &cfg).expect("funding succeeds");

    let rec = f.try_account(address).expect("dummy account resolved");
    assert_eq!(rec.balance, word(ONE_ETHER_WEI));
    assert_eq!(rec.nonce, 0);
    assert_eq!(rec.code_hash, word(0));
    assert!(rec.code.is_none());
    assert!(rec.exists);

    let slot = token_balance_slot(address, word(3));
    assert_eq!(f.try_storage(token, slot), Some(word(ONE_ETHER_WEI)));

    // The dummy stands in the override set itself, so a scratch session —
    // which copies overrides but not the cache — still sees it.
    let scratch = f.scratch_session();
    let copy = scratch.try_account(address).expect("override copied");
    assert_eq!(copy.balance, word(ONE_ETHER_WEI));
    assert_eq!(copy.code_hash, word(0));
}

#[test]
fn insert_dummy_contract_account_carries_bytecode() {
    let token = addr(0x7E8);
    let mut f = ForkFactory::new(pb());
    f.insert_account_info(token, token_contract(vec![0xAA]));

    let cfg = config(token);
    let address =
        insert_dummy_account(AccountType::Contract, &mut f, &cfg).expect("funding succeeds");

    let rec = f.try_account(address).expect("dummy account resolved");
    assert_eq!(rec.balance, word(0));
    assert_eq!(rec.code.clone(), Some(cfg.contract_code.clone()));
}

#[test]
fn insert_dummy_account_rejected_when_token_has_no_code() {
    let token = addr(0x7E9);
    let mut f = ForkFactory::new(pb());
    // The token address resolves, but its record carries no bytecode.
    f.backend.admit_account(token, None);

    let cfg = config(token);
    let r = insert_dummy_account(AccountType::EOA, &mut f, &cfg);
    assert_eq!(r, Err(ForkError::OverrideOnNonContract));

    // The dummy override inserted before the failing funding step persists;
    // no storage override was written.
    assert_eq!(f.account_overrides.len(), 1);
    let (dummy_addr, dummy_rec) = &f.account_overrides[0];
    assert_eq!(dummy_rec.balance, word(ONE_ETHER_WEI));
    assert_eq!(dummy_rec.code_hash, word(0));
    assert!(f.storage_overrides.is_empty());
    assert!(f.try_account(*dummy_addr).is_some());
}

#[test]
fn match_decimals_reads_table_and_defaults_to_18() {
    let weth = addr(0xA1);
    let usdt = addr(0xA2);
    let table = TokenTable { decimals: vec![(weth, 18), (usdt, 6)] };
    assert_eq!(match_decimals(weth, &table), 18);
    assert_eq!(match_decimals(usdt, &table), 6);
    assert_eq!(match_decimals(addr(0xA3), &table), 18);
}

#[test]
fn pool_variant_words() {
    let pool = Pool {
        address: addr(1),
        token0: addr(2),
        token1: addr(3),
        variant: PoolVariant::UniswapV2,
    };
    assert_eq!(pool.variant(), word(0));
    let pool = Pool { variant: PoolVariant::UniswapV3, ..pool };
    assert_eq!(pool.variant(), word(1));
}
