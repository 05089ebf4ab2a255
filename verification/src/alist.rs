//! Association lists with a first-match lookup, the store behind every cache
//! and override table of the library.
//!
//! `assoc_find` is the single spec-level reading of such a list; every
//! contract of the backend and the factory is stated through it.

use vstd::prelude::*;
use crate::types::{Address, StorageKey, AccountRecord, Word};

verus! {

/// The value that an association list binds to a key: the first pair whose
/// key matches, scanning from the front.
pub open spec fn assoc_find<K, V>(s: Seq<(K, V)>, k: K) -> Option<V>
    decreases s.len(),
{
    if s.len() == 0 {
        None
    } else if s[0].0 == k {
        Some(s[0].1)
    } else {
        assoc_find(s.subrange(1, s.len() as int), k)
    }
}

/// The value that a sequence of writes leaves at a key: the last pair whose
/// key matches, scanning from the back.
pub open spec fn delta_find<K, V>(d: Seq<(K, V)>, k: K) -> Option<V>
    decreases d.len(),
{
    if d.len() == 0 {
        None
    } else if d.last().0 == k {
        Some(d.last().1)
    } else {
        delta_find(d.drop_last(), k)
    }
}

/// The first match decides the binding: a match at `i` with no earlier match
/// is the value found.
pub proof fn lemma_assoc_find_at<K, V>(s: Seq<(K, V)>, i: int, k: K)
    requires
        0 <= i < s.len(),
        s[i].0 == k,
        forall|j: int| 0 <= j < i ==> s[j].0 != k,
    ensures
        assoc_find(s, k) == Some(s[i].1),
    decreases i,
{
    if i == 0 {
    } else {
        let t = s.subrange(1, s.len() as int);
        assert(s[0].0 != k);
        assert forall|j: int| 0 <= j < i - 1 implies t[j].0 != k by {
            assert(t[j] == s[j + 1]);
        }
        assert(t[i - 1] == s[i]);
        lemma_assoc_find_at(t, i - 1, k);
    }
}

/// A key that matches no pair is unbound.
pub proof fn lemma_assoc_find_none<K, V>(s: Seq<(K, V)>, k: K)
    requires
        forall|j: int| 0 <= j < s.len() ==> s[j].0 != k,
    ensures
        assoc_find(s, k) is None,
    decreases s.len(),
{
    if s.len() == 0 {
    } else {
        let t = s.subrange(1, s.len() as int);
        assert forall|j: int| 0 <= j < t.len() implies t[j].0 != k by {
            assert(t[j] == s[j + 1]);
        }
        lemma_assoc_find_none(t, k);
    }
}

/// Appending a pair binds its key only where the key was unbound; every
/// existing binding stays as it was.
pub proof fn lemma_assoc_find_push<K, V>(s: Seq<(K, V)>, p: (K, V), k: K)
    ensures
        assoc_find(s.push(p), k) == (match assoc_find(s, k) {
            Some(v) => Some(v),
            None => if p.0 == k {
                Some(p.1)
            } else {
                None
            },
        }),
    decreases s.len(),
{
    if s.len() == 0 {
        let q = s.push(p);
        assert(q.len() == 1);
        assert(q[0] == p);
        let t = q.subrange(1, 1);
        assert(t =~= Seq::<(K, V)>::empty());
        assert(assoc_find(t, k) is None);
        assert(assoc_find(s, k) is None);
        if p.0 == k {
            assert(assoc_find(q, k) == Some(p.1));
        } else {
            assert(assoc_find(q, k) == assoc_find(t, k));
        }
    } else {
        let q = s.push(p);
        assert(q[0] == s[0]);
        if s[0].0 == k {
            assert(assoc_find(q, k) == Some(s[0].1));
            assert(assoc_find(s, k) == Some(s[0].1));
        } else {
            let t = s.subrange(1, s.len() as int);
            assert(q.subrange(1, s.len() as int + 1) =~= t.push(p));
            lemma_assoc_find_push(t, p, k);
            assert(assoc_find(q, k) == assoc_find(t.push(p), k));
            assert(assoc_find(s, k) == assoc_find(t, k));
        }
    }
}

/// Replacing the first pair bound to a key rebinds that key and nothing
/// else.
pub proof fn lemma_assoc_find_update<K, V>(s: Seq<(K, V)>, i: int, p: (K, V), k: K)
    requires
        0 <= i < s.len(),
        s[i].0 == p.0,
        forall|j: int| 0 <= j < i ==> s[j].0 != p.0,
    ensures
        assoc_find(s.update(i, p), k) == (if k == p.0 {
            Some(p.1)
        } else {
            assoc_find(s, k)
        }),
    decreases i,
{
    let u = s.update(i, p);
    if i == 0 {
        assert(u[0] == p);
        if k == p.0 {
        } else {
            assert(u.subrange(1, u.len() as int) =~= s.subrange(1, s.len() as int));
        }
    } else {
        assert(u[0] == s[0]);
        assert(s[0].0 != p.0);
        if s[0].0 == k {
        } else {
            let t = s.subrange(1, s.len() as int);
            assert(u.subrange(1, u.len() as int) =~= t.update(i - 1, p));
            assert(t[i - 1] == s[i]);
            assert forall|j: int| 0 <= j < i - 1 implies t[j].0 != p.0 by {
                assert(t[j] == s[j + 1]);
            }
            lemma_assoc_find_update(t, i - 1, p, k);
        }
    }
}

/// Whether two account records agree on every field, comparing bytecode
/// byte for byte.
pub open spec fn record_like(a: AccountRecord, b: AccountRecord) -> bool {
    &&& a.balance == b.balance
    &&& a.nonce == b.nonce
    &&& a.code_hash == b.code_hash
    &&& a.exists == b.exists
    &&& match (a.code, b.code) {
        (Some(x), Some(y)) => x@ == y@,
        (None, None) => true,
        _ => false,
    }
}

/// Two lists whose pairs agree key for key and record for record bind every
/// key to agreeing records.
pub proof fn lemma_assoc_find_pointwise(
    s1: Seq<(Address, AccountRecord)>,
    s2: Seq<(Address, AccountRecord)>,
    k: Address,
)
    requires
        s1.len() == s2.len(),
        forall|i: int|
            0 <= i < s1.len() ==> (#[trigger] s1[i]).0 == s2[i].0 && record_like(
                s1[i].1,
                s2[i].1,
            ),
    ensures
        match (assoc_find(s1, k), assoc_find(s2, k)) {
            (Some(a), Some(b)) => record_like(a, b),
            (None, None) => true,
            _ => false,
        },
    decreases s1.len(),
{
    if s1.len() == 0 {
    } else {
        assert(s1[0].0 == s2[0].0 && record_like(s1[0].1, s2[0].1));
        if s1[0].0 == k {
        } else {
            let t1 = s1.subrange(1, s1.len() as int);
            let t2 = s2.subrange(1, s2.len() as int);
            assert forall|i: int|
                0 <= i < t1.len() implies (#[trigger] t1[i]).0 == t2[i].0 && record_like(
                t1[i].1,
                t2[i].1,
            ) by {
                assert(t1[i] == s1[i + 1]);
                assert(t2[i] == s2[i + 1]);
            }
            lemma_assoc_find_pointwise(t1, t2, k);
        }
    }
}

/// Finds the account record bound to `key`, if any.
pub(crate) fn account_list_find<'a>(list: &'a Vec<(Address, AccountRecord)>, key: Address) -> (r:
    Option<&'a AccountRecord>)
    ensures
        match r {
            Some(v) => assoc_find(list@, key) == Some(*v),
            None => assoc_find(list@, key) is None,
        },
{
    let n = list.len();
    let mut i: usize = 0;
    while i < n
        invariant
            n == list@.len(),
            i <= n,
            forall|j: int| 0 <= j < i ==> list@[j].0 != key,
        decreases n - i,
    {
        if list[i].0 == key {
            proof {
                lemma_assoc_find_at(list@, i as int, key);
            }
            return Some(&list[i].1);
        }
        i = i + 1;
    }
    proof {
        lemma_assoc_find_none(list@, key);
    }
    None
}

/// Binds `key` to `value`, replacing an existing binding or appending a new
/// one; no other key's binding changes.
pub(crate) fn account_list_upsert(
    list: &mut Vec<(Address, AccountRecord)>,
    key: Address,
    value: AccountRecord,
)
    ensures
        assoc_find(final(list)@, key) == Some(value),
        forall|k: Address| k != key ==> assoc_find(final(list)@, k) == assoc_find(old(list)@, k),
{
    let n = list.len();
    let mut i: usize = 0;
    while i < n
        invariant
            *list == *old(list),
            n == list@.len(),
            i <= n,
            forall|j: int| 0 <= j < i ==> list@[j].0 != key,
        decreases n - i,
    {
        if list[i].0 == key {
            let ghost s0 = list@;
            let ghost idx = i as int;
            list[i] = (key, value);
            proof {
                assert(final(list)@ == s0.update(idx, (key, value)));
                lemma_assoc_find_update(s0, idx, (key, value), key);
                assert forall|k: Address| k != key implies assoc_find(list@, k) == assoc_find(
                    s0,
                    k,
                ) by {
                    lemma_assoc_find_update(s0, idx, (key, value), k);
                }
            }
            return ;
        }
        i = i + 1;
    }
    let ghost s0 = list@;
    list.push((key, value));
    proof {
        lemma_assoc_find_none(s0, key);
        lemma_assoc_find_push(s0, (key, value), key);
        assert forall|k: Address| k != key implies assoc_find(list@, k) == assoc_find(s0, k) by {
            lemma_assoc_find_push(s0, (key, value), k);
        }
    }
}

/// Binds `key` to `value` only where `key` was unbound; an existing binding
/// is left exactly as it was.
pub(crate) fn account_list_insert_if_absent(
    list: &mut Vec<(Address, AccountRecord)>,
    key: Address,
    value: AccountRecord,
)
    ensures
        assoc_find(old(list)@, key) is Some ==> final(list)@ == old(list)@,
        assoc_find(old(list)@, key) is None ==> {
            &&& assoc_find(final(list)@, key) == Some(value)
            &&& forall|k: Address|
                k != key ==> assoc_find(final(list)@, k) == assoc_find(old(list)@, k)
        },
{
    let n = list.len();
    let mut i: usize = 0;
    while i < n
        invariant
            *list == *old(list),
            n == list@.len(),
            i <= n,
            forall|j: int| 0 <= j < i ==> list@[j].0 != key,
        decreases n - i,
    {
        if list[i].0 == key {
            proof {
                lemma_assoc_find_at(list@, i as int, key);
            }
            return ;
        }
        i = i + 1;
    }
    let ghost s0 = list@;
    list.push((key, value));
    proof {
        lemma_assoc_find_none(s0, key);
        lemma_assoc_find_push(s0, (key, value), key);
        assert forall|k: Address| k != key implies assoc_find(list@, k) == assoc_find(s0, k) by {
            lemma_assoc_find_push(s0, (key, value), k);
        }
    }
}

/// Finds the word bound to `key`, if any.
pub(crate) fn storage_list_find(list: &Vec<(StorageKey, Word)>, key: StorageKey) -> (r: Option<
    Word,
>)
    ensures
        r == assoc_find(list@, key),
{
    let n = list.len();
    let mut i: usize = 0;
    while i < n
        invariant
            n == list@.len(),
            i <= n,
            forall|j: int| 0 <= j < i ==> list@[j].0 != key,
        decreases n - i,
    {
        if list[i].0 == key {
            proof {
                lemma_assoc_find_at(list@, i as int, key);
            }
            return Some(list[i].1);
        }
        i = i + 1;
    }
    proof {
        lemma_assoc_find_none(list@, key);
    }
    None
}

/// Binds `key` to `value`, replacing an existing binding or appending a new
/// one; no other key's binding changes.
pub(crate) fn storage_list_upsert(list: &mut Vec<(StorageKey, Word)>, key: StorageKey, value: Word)
    ensures
        assoc_find(final(list)@, key) == Some(value),
        forall|k: StorageKey| k != key ==> assoc_find(final(list)@, k) == assoc_find(old(list)@, k),
{
    let n = list.len();
    let mut i: usize = 0;
    while i < n
        invariant
            *list == *old(list),
            n == list@.len(),
            i <= n,
            forall|j: int| 0 <= j < i ==> list@[j].0 != key,
        decreases n - i,
    {
        if list[i].0 == key {
            let ghost s0 = list@;
            let ghost idx = i as int;
            list[i] = (key, value);
            proof {
                lemma_assoc_find_update(s0, idx, (key, value), key);
                assert forall|k: StorageKey| k != key implies assoc_find(list@, k) == assoc_find(
                    s0,
                    k,
                ) by {
                    lemma_assoc_find_update(s0, idx, (key, value), k);
                }
            }
            return ;
        }
        i = i + 1;
    }
    let ghost s0 = list@;
    list.push((key, value));
    proof {
        lemma_assoc_find_none(s0, key);
        lemma_assoc_find_push(s0, (key, value), key);
        assert forall|k: StorageKey| k != key implies assoc_find(list@, k) == assoc_find(s0, k) by {
            lemma_assoc_find_push(s0, (key, value), k);
        }
    }
}

/// Binds `key` to `value` only where `key` was unbound; an existing binding
/// is left exactly as it was.
pub(crate) fn storage_list_insert_if_absent(
    list: &mut Vec<(StorageKey, Word)>,
    key: StorageKey,
    value: Word,
)
    ensures
        assoc_find(old(list)@, key) is Some ==> final(list)@ == old(list)@,
        assoc_find(old(list)@, key) is None ==> {
            &&& assoc_find(final(list)@, key) == Some(value)
            &&& forall|k: StorageKey|
                k != key ==> assoc_find(final(list)@, k) == assoc_find(old(list)@, k)
        },
{
    let n = list.len();
    let mut i: usize = 0;
    while i < n
        invariant
            *list == *old(list),
            n == list@.len(),
            i <= n,
            forall|j: int| 0 <= j < i ==> list@[j].0 != key,
        decreases n - i,
    {
        if list[i].0 == key {
            proof {
                lemma_assoc_find_at(list@, i as int, key);
            }
            return ;
        }
        i = i + 1;
    }
    let ghost s0 = list@;
    list.push((key, value));
    proof {
        lemma_assoc_find_none(s0, key);
        lemma_assoc_find_push(s0, (key, value), key);
        assert forall|k: StorageKey| k != key implies assoc_find(list@, k) == assoc_find(s0, k) by {
            lemma_assoc_find_push(s0, (key, value), k);
        }
    }
}

/// Finds the word bound to a block number, if any.
pub(crate) fn number_list_find(list: &Vec<(u64, Word)>, key: u64) -> (r: Option<Word>)
    ensures
        r == assoc_find(list@, key),
{
    let n = list.len();
    let mut i: usize = 0;
    while i < n
        invariant
            n == list@.len(),
            i <= n,
            forall|j: int| 0 <= j < i ==> list@[j].0 != key,
        decreases n - i,
    {
        if list[i].0 == key {
            proof {
                lemma_assoc_find_at(list@, i as int, key);
            }
            return Some(list[i].1);
        }
        i = i + 1;
    }
    proof {
        lemma_assoc_find_none(list@, key);
    }
    None
}

/// Binds a block number only where it was unbound; an existing binding is
/// left exactly as it was.
pub(crate) fn number_list_insert_if_absent(list: &mut Vec<(u64, Word)>, key: u64, value: Word)
    ensures
        assoc_find(old(list)@, key) is Some ==> final(list)@ == old(list)@,
        assoc_find(old(list)@, key) is None ==> {
            &&& assoc_find(final(list)@, key) == Some(value)
            &&& forall|k: u64| k != key ==> assoc_find(final(list)@, k) == assoc_find(old(list)@, k)
        },
{
    let n = list.len();
    let mut i: usize = 0;
    while i < n
        invariant
            *list == *old(list),
            n == list@.len(),
            i <= n,
            forall|j: int| 0 <= j < i ==> list@[j].0 != key,
        decreases n - i,
    {
        if list[i].0 == key {
            proof {
                lemma_assoc_find_at(list@, i as int, key);
            }
            return ;
        }
        i = i + 1;
    }
    let ghost s0 = list@;
    list.push((key, value));
    proof {
        lemma_assoc_find_none(s0, key);
        lemma_assoc_find_push(s0, (key, value), key);
        assert forall|k: u64| k != key implies assoc_find(list@, k) == assoc_find(s0, k) by {
            lemma_assoc_find_push(s0, (key, value), k);
        }
    }
}

/// Finds the bytecode bound to a code hash, if any.
pub(crate) fn code_list_find<'a>(list: &'a Vec<(Word, Vec<u8>)>, key: Word) -> (r: Option<
    &'a Vec<u8>,
>)
    ensures
        match r {
            Some(v) => assoc_find(list@, key) == Some(*v),
            None => assoc_find(list@, key) is None,
        },
{
    let n = list.len();
    let mut i: usize = 0;
    while i < n
        invariant
            n == list@.len(),
            i <= n,
            forall|j: int| 0 <= j < i ==> list@[j].0 != key,
        decreases n - i,
    {
        if list[i].0 == key {
            proof {
                lemma_assoc_find_at(list@, i as int, key);
            }
            return Some(&list[i].1);
        }
        i = i + 1;
    }
    proof {
        lemma_assoc_find_none(list@, key);
    }
    None
}

/// Binds a code hash to bytecode, replacing an existing binding or appending
/// a new one; no other hash's binding changes.
pub(crate) fn code_list_upsert(list: &mut Vec<(Word, Vec<u8>)>, key: Word, value: Vec<u8>)
    ensures
        assoc_find(final(list)@, key) == Some(value),
        forall|k: Word| k != key ==> assoc_find(final(list)@, k) == assoc_find(old(list)@, k),
{
    let n = list.len();
    let mut i: usize = 0;
    while i < n
        invariant
            *list == *old(list),
            n == list@.len(),
            i <= n,
            forall|j: int| 0 <= j < i ==> list@[j].0 != key,
        decreases n - i,
    {
        if list[i].0 == key {
            let ghost s0 = list@;
            let ghost idx = i as int;
            list[i] = (key, value);
            proof {
                lemma_assoc_find_update(s0, idx, (key, value), key);
                assert forall|k: Word| k != key implies assoc_find(list@, k) == assoc_find(
                    s0,
                    k,
                ) by {
                    lemma_assoc_find_update(s0, idx, (key, value), k);
                }
            }
            return ;
        }
        i = i + 1;
    }
    let ghost s0 = list@;
    list.push((key, value));
    proof {
        lemma_assoc_find_none(s0, key);
        lemma_assoc_find_push(s0, (key, value), key);
        assert forall|k: Word| k != key implies assoc_find(list@, k) == assoc_find(s0, k) by {
            lemma_assoc_find_push(s0, (key, value), k);
        }
    }
}

/// Binds a code hash to bytecode only where the hash was unbound; an
/// existing binding is left exactly as it was.
pub(crate) fn code_list_insert_if_absent(list: &mut Vec<(Word, Vec<u8>)>, key: Word, value: Vec<u8>)
    ensures
        assoc_find(old(list)@, key) is Some ==> final(list)@ == old(list)@,
        assoc_find(old(list)@, key) is None ==> {
            &&& assoc_find(final(list)@, key) == Some(value)
            &&& forall|k: Word| k != key ==> assoc_find(final(list)@, k) == assoc_find(old(list)@, k)
        },
{
    let n = list.len();
    let mut i: usize = 0;
    while i < n
        invariant
            *list == *old(list),
            n == list@.len(),
            i <= n,
            forall|j: int| 0 <= j < i ==> list@[j].0 != key,
        decreases n - i,
    {
        if list[i].0 == key {
            proof {
                lemma_assoc_find_at(list@, i as int, key);
            }
            return ;
        }
        i = i + 1;
    }
    let ghost s0 = list@;
    list.push((key, value));
    proof {
        lemma_assoc_find_none(s0, key);
        lemma_assoc_find_push(s0, (key, value), key);
        assert forall|k: Word| k != key implies assoc_find(list@, k) == assoc_find(s0, k) by {
            lemma_assoc_find_push(s0, (key, value), k);
        }
    }
}

/// Finds the decimal count bound to a token address, if any.
pub(crate) fn decimals_list_find(list: &Vec<(Address, u32)>, key: Address) -> (r: Option<u32>)
    ensures
        r == assoc_find(list@, key),
{
    let n = list.len();
    let mut i: usize = 0;
    while i < n
        invariant
            n == list@.len(),
            i <= n,
            forall|j: int| 0 <= j < i ==> list@[j].0 != key,
        decreases n - i,
    {
        if list[i].0 == key {
            proof {
                lemma_assoc_find_at(list@, i as int, key);
            }
            return Some(list[i].1);
        }
        i = i + 1;
    }
    proof {
        lemma_assoc_find_none(list@, key);
    }
    None
}

} // verus!
