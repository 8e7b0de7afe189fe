//! Byte strings read as numbers, most significant byte first.

use vstd::prelude::*;

verus! {

/// The number that `bytes` denotes when read most significant byte first.
pub open spec fn be_value(bytes: Seq<u8>) -> nat
    decreases bytes.len(),
{
    if bytes.len() == 0 {
        0
    } else {
        be_value(bytes.drop_last()) * 256 + bytes.last() as nat
    }
}

/// A byte string folded into 64 bits: its big-endian value modulo two to
/// the sixty-fourth.
pub open spec fn folded(bytes: Seq<u8>) -> u64 {
    (be_value(bytes) % 0x1_0000_0000_0000_0000) as u64
}

/// 256 to the power of `n`.
pub open spec fn radix_power(n: nat) -> nat
    decreases n,
{
    if n == 0 {
        1
    } else {
        radix_power((n - 1) as nat) * 256
    }
}

/// The value of two joined byte strings: the first is shifted left by the
/// length of the second, which itself stays below that shift.
pub proof fn lemma_be_value_concat(high: Seq<u8>, low: Seq<u8>)
    ensures
        be_value(high + low) == be_value(high) * radix_power(low.len()) + be_value(low),
        be_value(low) < radix_power(low.len()),
    decreases low.len(),
{
    if low.len() == 0 {
        assert(high + low =~= high);
        assert(radix_power(0) == 1);
        assert(be_value(low) == 0);
    } else {
        let shorter = low.drop_last();
        lemma_be_value_concat(high, shorter);
        assert((high + low).drop_last() =~= high + shorter);
        assert((high + low).last() == low.last());
        let h = be_value(high) as int;
        let p = radix_power(shorter.len()) as int;
        let l = be_value(shorter) as int;
        assert(radix_power(low.len()) == p * 256);
        assert(be_value(high + low) == (h * p + l) * 256 + low.last());
        assert(be_value(low) == l * 256 + low.last());
        assert((h * p + l) * 256 == h * (p * 256) + l * 256) by (nonlinear_arith);
    }
}

/// Folding keeps the last eight bytes and nothing else: a string of eight
/// bytes or more folds to the big-endian value of its last eight, and a
/// shorter one to its own value.
pub proof fn lemma_folded_keeps_last_eight(bytes: Seq<u8>)
    ensures
        bytes.len() >= 8 ==> folded(bytes) == be_value(bytes.skip(bytes.len() - 8)),
        bytes.len() <= 8 ==> folded(bytes) == be_value(bytes),
{
    reveal_with_fuel(radix_power, 9);
    assert(radix_power(8) == 0x1_0000_0000_0000_0000);
    if bytes.len() >= 8 {
        let cut = bytes.len() - 8;
        let high = bytes.take(cut);
        let low = bytes.skip(cut);
        assert(bytes =~= high + low);
        lemma_be_value_concat(high, low);
        vstd::arithmetic::div_mod::lemma_mod_multiples_vanish(
            be_value(high) as int,
            be_value(low) as int,
            0x1_0000_0000_0000_0000,
        );
    } else {
        lemma_be_value_concat(Seq::empty(), bytes);
        lemma_radix_power_grows(bytes.len(), 8);
    }
}

/// A higher power of 256 is no smaller.
proof fn lemma_radix_power_grows(m: nat, n: nat)
    requires
        m <= n,
    ensures
        radix_power(m) <= radix_power(n),
        radix_power(m) >= 1,
    decreases n,
{
    if m < n {
        lemma_radix_power_grows(m, (n - 1) as nat);
    } else if n > 0 {
        lemma_radix_power_grows((m - 1) as nat, (n - 1) as nat);
    }
}

/// One step of the shift-and-or accumulation is one step of `be_value`,
/// reduced to 64 bits.
proof fn lemma_fold_step(acc: u64, byte: u8, prefix: nat)
    requires
        acc == prefix % 0x1_0000_0000_0000_0000,
    ensures
        ((acc << 8) | (byte as u64)) == (prefix * 256 + byte as nat) % 0x1_0000_0000_0000_0000,
{
    let next: u64 = (acc << 8) | (byte as u64);
    assert(next == (acc as int * 256 + byte as int) % 0x1_0000_0000_0000_0000) by (bit_vector)
        requires
            next == (acc << 8) | (byte as u64),
    ;
    let q: int = prefix as int / 0x1_0000_0000_0000_0000;
    assert(prefix as int == q * 0x1_0000_0000_0000_0000 + acc as int);
    assert(prefix as int * 256 + byte as int == (q * 256) * 0x1_0000_0000_0000_0000 + (acc as int
        * 256 + byte as int));
    vstd::arithmetic::div_mod::lemma_mod_multiples_vanish(
        q * 256,
        acc as int * 256 + byte as int,
        0x1_0000_0000_0000_0000,
    );
}

/// Folds `bytes` into a 64-bit integer by shifting the accumulator left by
/// eight bits and or-ing in each byte in turn. Bytes that are shifted out at
/// the top are lost, so the result is the big-endian value of `bytes` modulo
/// two to the sixty-fourth.
pub fn fold_be(bytes: &[u8]) -> (hash: u64)
    ensures
        hash == folded(bytes@),
{
    let mut hash: u64 = 0;
    let mut i: usize = 0;
    while i < bytes.len()
        invariant
            i <= bytes.len(),
            hash == be_value(bytes@.take(i as int)) % 0x1_0000_0000_0000_0000,
        decreases bytes.len() - i,
    {
        let byte: u8 = bytes[i];
        proof {
            let before = bytes@.take(i as int);
            let after = bytes@.take(i + 1);
            assert(after.drop_last() =~= before);
            assert(after.last() == byte);
            lemma_fold_step(hash, byte, be_value(before));
        }
        hash = (hash << 8) | (byte as u64);
        i = i + 1;
    }
    proof {
        assert(bytes@.take(bytes.len() as int) =~= bytes@);
    }
    hash
}

} // verus!
