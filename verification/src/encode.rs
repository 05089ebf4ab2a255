//! Call-data encoding for the contracts the harness talks to: four-byte
//! selectors from Keccak-256 digests, ABI encoding of `(address, uint256)`
//! argument pairs, and the derived storage slot of a token balance.

use vstd::prelude::*;
use crate::types::{Address, Word};

verus! {

/// 256 raised to `n`.
pub open spec fn pow256(n: nat) -> nat
    decreases n,
{
    if n == 0 {
        1
    } else {
        256 * pow256((n - 1) as nat)
    }
}

/// The `n`-byte big-endian encoding of `v` (truncated to `n` bytes).
pub open spec fn be_bytes(v: nat, n: nat) -> Seq<u8> {
    Seq::new(n, |i: int| ((v / pow256((n - 1 - i) as nat)) % 256) as u8)
}

/// The value of a big-endian byte string.
pub open spec fn be_value(s: Seq<u8>) -> nat
    decreases s.len(),
{
    if s.len() == 0 {
        0
    } else {
        be_value(s.drop_last()) * 256 + s.last() as nat
    }
}

/// An address's 20 big-endian bytes.
pub open spec fn address_bytes(a: Address) -> Seq<u8> {
    be_bytes(a.hi as nat, 4) + be_bytes(a.lo as nat, 16)
}

/// A word's 32 big-endian bytes.
pub open spec fn word_bytes(w: Word) -> Seq<u8> {
    be_bytes(w.hi as nat, 16) + be_bytes(w.lo as nat, 16)
}

/// An address as one 32-byte ABI word: left-padded with 12 zero bytes.
pub open spec fn abi_address_word(a: Address) -> Seq<u8> {
    be_bytes(0, 12) + address_bytes(a)
}

/// The word read back from a 32-byte big-endian string.
pub open spec fn word_of_bytes(s: Seq<u8>) -> Word {
    Word { hi: be_value(s.take(16)) as u128, lo: be_value(s.subrange(16, 32)) as u128 }
}

/// The Keccak-256 digest of a byte string.
pub uninterp spec fn keccak256_of(data: Seq<u8>) -> Seq<u8>;

/// The four-byte call selector of a function signature: the first four
/// bytes of the signature's Keccak-256 digest.
pub open spec fn selector_of(signature: Seq<u8>) -> Seq<u8> {
    keccak256_of(signature).take(4)
}

/// Relies on tiny_keccak's Keccak-256 (`Keccak::v256`, `update`, then
/// `finalize`): a 32-byte digest that is a function of the input bytes
/// alone.
#[verifier::external_body]
fn keccak256(data: &Vec<u8>) -> (r: Vec<u8>)
    ensures
        r@ == keccak256_of(data@),
        r@.len() == 32,
{
    let mut hasher = tiny_keccak::Keccak::v256();
    let mut out = [0u8; 32];
    tiny_keccak::Hasher::update(&mut hasher, data);
    tiny_keccak::Hasher::finalize(hasher, &mut out);
    out.to_vec()
}

/// Relies on ethabi::encode for a static `(address, uint256)` pair: the
/// address left-padded to a 32-byte word, then the 32-byte big-endian
/// word of the integer.
#[verifier::external_body]
fn abi_encode_address_word(a: Address, w: Word) -> (r: Vec<u8>)
    ensures
        r@ == abi_address_word(a) + word_bytes(w),
{
    let mut ab = [0u8; 20];
    ab[..4].copy_from_slice(&a.hi.to_be_bytes());
    ab[4..].copy_from_slice(&a.lo.to_be_bytes());
    let mut wb = [0u8; 32];
    wb[..16].copy_from_slice(&w.hi.to_be_bytes());
    wb[16..].copy_from_slice(&w.lo.to_be_bytes());
    ethabi::encode(
        &[
            ethabi::Token::Address(ethabi::Address::from(ab)),
            ethabi::Token::Uint(ethabi::Uint::from_big_endian(&wb)),
        ],
    )
}

/// The four-byte call selector of a function signature.
pub fn selector(signature: &Vec<u8>) -> (r: Vec<u8>)
    ensures
        r@ == selector_of(signature@),
        r@.len() == 4,
{
    let digest = keccak256(signature);
    let mut r: Vec<u8> = Vec::new();
    r.push(digest[0]);
    r.push(digest[1]);
    r.push(digest[2]);
    r.push(digest[3]);
    assert(r@ =~= digest@.take(4));
    r
}

/// The ASCII bytes of `"approve(address,uint256)"`.
pub open spec fn approve_signature() -> Seq<u8> {
    seq![97u8, 112u8, 112u8, 114u8, 111u8, 118u8, 101u8, 40u8, 97u8, 100u8, 100u8, 114u8, 101u8, 115u8, 115u8, 44u8, 117u8, 105u8, 110u8, 116u8, 50u8, 53u8, 54u8, 41u8]
}

/// The ASCII bytes of `"transfer(address,uint256)"`.
pub open spec fn transfer_signature() -> Seq<u8> {
    seq![116u8, 114u8, 97u8, 110u8, 115u8, 102u8, 101u8, 114u8, 40u8, 97u8, 100u8, 100u8, 114u8, 101u8, 115u8, 115u8, 44u8, 117u8, 105u8, 110u8, 116u8, 50u8, 53u8, 54u8, 41u8]
}

/// The ASCII bytes of `"recover_erc20(address,uint256)"`.
pub open spec fn recover_erc20_signature() -> Seq<u8> {
    seq![114u8, 101u8, 99u8, 111u8, 118u8, 101u8, 114u8, 95u8, 101u8, 114u8, 99u8, 50u8, 48u8, 40u8, 97u8, 100u8, 100u8, 114u8, 101u8, 115u8, 115u8, 44u8, 117u8, 105u8, 110u8, 116u8, 50u8, 53u8, 54u8, 41u8]
}

/// The ASCII bytes of `"approve(address,uint256)"`, as a vector.
pub fn approve_signature_bytes() -> (r: Vec<u8>)
    ensures
        r@ == approve_signature(),
{
    let mut v: Vec<u8> = Vec::new();
    v.push(97);
    v.push(112);
    v.push(112);
    v.push(114);
    v.push(111);
    v.push(118);
    v.push(101);
    v.push(40);
    v.push(97);
    v.push(100);
    v.push(100);
    v.push(114);
    v.push(101);
    v.push(115);
    v.push(115);
    v.push(44);
    v.push(117);
    v.push(105);
    v.push(110);
    v.push(116);
    v.push(50);
    v.push(53);
    v.push(54);
    v.push(41);
    assert(v@ =~= approve_signature());
    v
}

/// The ASCII bytes of `"transfer(address,uint256)"`, as a vector.
pub fn transfer_signature_bytes() -> (r: Vec<u8>)
    ensures
        r@ == transfer_signature(),
{
    let mut v: Vec<u8> = Vec::new();
    v.push(116);
    v.push(114);
    v.push(97);
    v.push(110);
    v.push(115);
    v.push(102);
    v.push(101);
    v.push(114);
    v.push(40);
    v.push(97);
    v.push(100);
    v.push(100);
    v.push(114);
    v.push(101);
    v.push(115);
    v.push(115);
    v.push(44);
    v.push(117);
    v.push(105);
    v.push(110);
    v.push(116);
    v.push(50);
    v.push(53);
    v.push(54);
    v.push(41);
    assert(v@ =~= transfer_signature());
    v
}

/// The ASCII bytes of `"recover_erc20(address,uint256)"`, as a vector.
pub fn recover_erc20_signature_bytes() -> (r: Vec<u8>)
    ensures
        r@ == recover_erc20_signature(),
{
    let mut v: Vec<u8> = Vec::new();
    v.push(114);
    v.push(101);
    v.push(99);
    v.push(111);
    v.push(118);
    v.push(101);
    v.push(114);
    v.push(95);
    v.push(101);
    v.push(114);
    v.push(99);
    v.push(50);
    v.push(48);
    v.push(40);
    v.push(97);
    v.push(100);
    v.push(100);
    v.push(114);
    v.push(101);
    v.push(115);
    v.push(115);
    v.push(44);
    v.push(117);
    v.push(105);
    v.push(110);
    v.push(116);
    v.push(50);
    v.push(53);
    v.push(54);
    v.push(41);
    assert(v@ =~= recover_erc20_signature());
    v
}

/// Encodes a call to the ERC-20 `approve(address,uint256)` function: its
/// selector followed by the ABI-encoded spender and amount.
pub fn encode_approve(spender: Address, amount: Word) -> (r: Vec<u8>)
    ensures
        r@ == selector_of(approve_signature()) + abi_address_word(spender) + word_bytes(amount),
        r@.len() == 68,
{
    let sig = approve_signature_bytes();
    let mut payload = selector(&sig);
    let mut args = abi_encode_address_word(spender, amount);
    payload.append(&mut args);
    assert(payload@ =~= selector_of(approve_signature()) + abi_address_word(spender) + word_bytes(
        amount,
    ));
    payload
}

/// Encodes a call to the ERC-20 `transfer(address,uint256)` function: its
/// selector followed by the ABI-encoded recipient and amount.
pub fn encode_transfer(recipient: Address, amount: Word) -> (r: Vec<u8>)
    ensures
        r@ == selector_of(transfer_signature()) + abi_address_word(recipient) + word_bytes(amount),
        r@.len() == 68,
{
    let sig = transfer_signature_bytes();
    let mut payload = selector(&sig);
    let mut args = abi_encode_address_word(recipient, amount);
    payload.append(&mut args);
    assert(payload@ =~= selector_of(transfer_signature()) + abi_address_word(recipient)
        + word_bytes(amount));
    payload
}

/// Encodes a call to the router's `recover_erc20(address,uint256)`
/// function: its selector followed by the ABI-encoded token and amount.
pub fn encode_recover_erc20(token: Address, amount: Word) -> (r: Vec<u8>)
    ensures
        r@ == selector_of(recover_erc20_signature()) + abi_address_word(token) + word_bytes(
            amount,
        ),
        r@.len() == 68,
{
    let sig = recover_erc20_signature_bytes();
    let mut payload = selector(&sig);
    let mut args = abi_encode_address_word(token, amount);
    payload.append(&mut args);
    assert(payload@ =~= selector_of(recover_erc20_signature()) + abi_address_word(token)
        + word_bytes(amount));
    payload
}

/// 256 to a positive power is at least 1.
proof fn lemma_pow256_pos(n: nat)
    ensures
        pow256(n) >= 1,
    decreases n,
{
    if n == 0 {
    } else {
        lemma_pow256_pos((n - 1) as nat);
    }
}

/// 256 to a power does not shrink as the power grows.
proof fn lemma_pow256_increases(a: nat, b: nat)
    requires
        a <= b,
    ensures
        pow256(a) <= pow256(b),
    decreases b,
{
    if a == b {
    } else {
        lemma_pow256_increases(a, (b - 1) as nat);
        lemma_pow256_pos((b - 1) as nat);
        assert(pow256(b) == 256 * pow256((b - 1) as nat));
        assert(pow256((b - 1) as nat) <= 256 * pow256((b - 1) as nat)) by (nonlinear_arith)
            requires
                pow256((b - 1) as nat) >= 1,
        ;
    }
}

/// A big-endian byte string's value is below 256 to its length.
proof fn lemma_be_value_bound(s: Seq<u8>)
    ensures
        be_value(s) < pow256(s.len()),
    decreases s.len(),
{
    if s.len() == 0 {
    } else {
        let t = s.drop_last();
        lemma_be_value_bound(t);
        assert(pow256(s.len()) == 256 * pow256(t.len()));
        assert(be_value(t) * 256 + s.last() < 256 * pow256(t.len())) by (nonlinear_arith)
            requires
                be_value(t) < pow256(t.len()),
                s.last() < 256,
        ;
    }
}

/// Reads the 16-byte big-endian value at `start`.
fn be_u128(v: &Vec<u8>, start: usize) -> (r: u128)
    requires
        start + 16 <= v@.len(),
    ensures
        r == be_value(v@.subrange(start as int, start as int + 16)),
{
    let ghost sub = v@.subrange(start as int, start as int + 16);
    let n = v.len();
    let mut acc: u128 = 0;
    let mut i: usize = 0;
    while i < 16
        invariant
            i <= 16,
            n == v@.len(),
            start + 16 <= n,
            sub == v@.subrange(start as int, start as int + 16),
            acc == be_value(sub.take(i as int)),
            acc < pow256(i as nat),
        decreases 16 - i,
    {
        proof {
            lemma_pow256_increases(i as nat, 15);
            assert(pow256(16) == 256 * pow256(15));
            assert(pow256(16) == 0x100000000000000000000000000000000) by {
                reveal_with_fuel(pow256, 17);
            }
            assert(acc * 256 + 255 < 0x100000000000000000000000000000000) by (nonlinear_arith)
                requires
                    acc < pow256(15),
                    pow256(16) == 256 * pow256(15),
                    pow256(16) == 0x100000000000000000000000000000000,
            ;
        }
        let b = v[start + i];
        let ghost prev = acc;
        acc = acc * 256 + (b as u128);
        proof {
            assert(sub.take(i as int + 1).drop_last() =~= sub.take(i as int));
            assert(sub.take(i as int + 1).last() == sub[i as int]);
            assert(sub[i as int] == v@[start as int + i as int]);
            assert(acc == be_value(sub.take(i as int + 1)));
            assert(pow256(i as nat + 1) == 256 * pow256(i as nat));
            assert(prev * 256 + b < 256 * pow256(i as nat)) by (nonlinear_arith)
                requires
                    prev < pow256(i as nat),
                    b < 256,
            ;
        }
        i = i + 1;
    }
    proof {
        assert(sub.take(16) =~= sub);
    }
    acc
}

/// Reads a 32-byte digest as a big-endian word.
fn word_from_digest(digest: &Vec<u8>) -> (r: Word)
    requires
        digest@.len() == 32,
    ensures
        r == word_of_bytes(digest@),
{
    let hi = be_u128(digest, 0);
    let lo = be_u128(digest, 16);
    proof {
        assert(digest@.subrange(0, 16) =~= digest@.take(16));
    }
    Word { hi, lo }
}

/// The storage slot that holds `holder`'s balance in a token whose balance
/// mapping sits at slot `map_slot`: the Keccak-256 digest of the ABI
/// encoding of `(holder, map_slot)`, read as a big-endian word.
pub fn token_balance_slot(holder: Address, map_slot: Word) -> (r: Word)
    ensures
        r == word_of_bytes(keccak256_of(abi_address_word(holder) + word_bytes(map_slot))),
{
    let encoded = abi_encode_address_word(holder, map_slot);
    let digest = keccak256(&encoded);
    word_from_digest(&digest)
}

} // verus!
