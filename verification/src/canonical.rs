//! The canonical text of a 64-bit integer.
//!
//! An integer is written in upper-case hexadecimal without leading zeros,
//! the digits are decoded in pairs into bytes, and the bytes are read as
//! UTF-8 text, every ill-formed sequence giving U+FFFD. The last step loses
//! information: integers whose bytes are ill-formed in the same places have
//! one text. An integer with an odd number of digits has no canonical text,
//! since its digits do not pair up.

use crate::bigendian::{be_value, radix_power};
use crate::error::KernelError;
use crate::primitives::{
    all_hex_digits,
    from_utf8_lossy,
    hex_decode,
    hex_pairs,
    is_hex_text,
    utf8_lossy,
};
use vstd::prelude::*;
use vstd::utf8::*;

verus! {

/// The upper-case hexadecimal digit for a nibble.
pub open spec fn upper_digit(nibble: u8) -> u8 {
    if nibble < 10 {
        (0x30 + nibble) as u8
    } else {
        (0x41 + nibble - 10) as u8
    }
}

/// `x` in upper-case hexadecimal, without leading zeros; `0` is one digit.
pub open spec fn upper_hex(x: u64) -> Seq<u8>
    decreases x,
{
    if x < 16 {
        seq![upper_digit(x as u8)]
    } else {
        upper_hex(x / 16).push(upper_digit((x % 16) as u8))
    }
}

/// The bytes of `x`, most significant first, without leading zero bytes;
/// `0` is one byte.
pub open spec fn be_bytes(x: u64) -> Seq<u8>
    decreases x,
{
    if x < 256 {
        seq![x as u8]
    } else {
        be_bytes(x / 256).push((x % 256) as u8)
    }
}

/// Whether `x` has a canonical text: its hexadecimal digits pair up.
pub open spec fn has_canonical_text(x: u64) -> bool {
    upper_hex(x).len() % 2 == 0
}

/// The canonical text of `x`, where it has one.
pub open spec fn canonical_text(x: u64) -> Seq<char> {
    utf8_lossy(be_bytes(x))
}

/// The bytes that are hashed for `x`: its canonical text in UTF-8.
pub open spec fn canonical_bytes(x: u64) -> Seq<u8> {
    encode_utf8(canonical_text(x))
}

/// Whether the canonical text of `x` keeps all of `x`: the digits pair up
/// and the bytes are well-formed UTF-8, so that the text in UTF-8 is the
/// bytes of `x` again.
pub open spec fn is_text(x: u64) -> bool {
    has_canonical_text(x) && valid_utf8(be_bytes(x))
}

/// The bytes of `x` are at most eight and denote `x`; they are eight
/// exactly from two to the fifty-sixth on.
pub proof fn lemma_be_bytes(x: u64)
    ensures
        1 <= be_bytes(x).len() <= 8,
        be_value(be_bytes(x)) == x,
        be_bytes(x).len() == 8 <==> x >= 0x0100_0000_0000_0000,
{
    lemma_be_bytes_len(x, 8);
    assert(radix_power(7) == 0x0100_0000_0000_0000) by {
        reveal_with_fuel(radix_power, 9);
    }
}

/// The same for an `x` that is known to need no more than `n` bytes.
proof fn lemma_be_bytes_len(x: u64, n: nat)
    requires
        1 <= n <= 8,
        n < 8 ==> x < radix_power(n),
    ensures
        1 <= be_bytes(x).len() <= n,
        be_value(be_bytes(x)) == x,
        n >= 2 ==> (be_bytes(x).len() == n <==> x >= radix_power((n - 1) as nat)),
        n == 1 ==> x < 256,
    decreases n,
{
    reveal_with_fuel(radix_power, 9);
    if x < 256 {
        assert(be_bytes(x).drop_last() =~= Seq::<u8>::empty());
        assert(be_value(Seq::<u8>::empty()) == 0);
    } else {
        lemma_be_bytes_len(x / 256, (n - 1) as nat);
        assert(be_bytes(x).drop_last() =~= be_bytes(x / 256));
    }
}

/// Every digit of `upper_hex` is a hexadecimal digit.
pub proof fn lemma_upper_hex_digits(x: u64)
    ensures
        upper_hex(x).len() >= 1,
        all_hex_digits(upper_hex(x)),
    decreases x,
{
    if x >= 16 {
        lemma_upper_hex_digits(x / 16);
    }
}

/// Where the digits of `x` pair up, decoding them gives the bytes of `x`;
/// they pair up exactly when the leading byte of `x` is at least 16.
pub proof fn lemma_upper_hex_decodes(x: u64)
    ensures
        has_canonical_text(x) <==> be_bytes(x)[0] >= 16,
        has_canonical_text(x) ==> is_hex_text(upper_hex(x)) && hex_pairs(upper_hex(x))
            == be_bytes(x),
        !has_canonical_text(x) ==> !is_hex_text(upper_hex(x)),
        be_bytes(x).len() >= 1,
    decreases x,
{
    lemma_upper_hex_digits(x);
    if x < 16 {
    } else if x < 256 {
        let hi = (x / 16) as u8;
        let lo = (x % 16) as u8;
        assert(upper_hex(x / 16) == seq![upper_digit(hi)]);
        assert(upper_hex(x) =~= seq![upper_digit(hi), upper_digit(lo)]);
        assert(hex_pairs(upper_hex(x)) =~= seq![x as u8]);
    } else {
        let rest: u64 = x / 256;
        lemma_upper_hex_decodes(rest);
        lemma_upper_hex_digits(rest);
        let hi = ((x / 16) % 16) as u8;
        let lo = (x % 16) as u8;
        assert((x / 16) / 16 == rest);
        assert(upper_hex(x / 16) == upper_hex(rest).push(upper_digit(hi)));
        assert(upper_hex(x) == upper_hex(rest).push(upper_digit(hi)).push(upper_digit(lo)));
        assert(be_bytes(x)[0] == be_bytes(rest)[0]);
        if has_canonical_text(x) {
            let digits = upper_hex(x);
            let n = upper_hex(rest).len() as int;
            assert(n % 2 == 0);
            assert(hex_pairs(digits) =~= be_bytes(x)) by {
                assert(hex_pairs(digits).len() == n / 2 + 1);
                assert(be_bytes(x).len() == n / 2 + 1);
                assert forall|i: int| 0 <= i < n / 2 + 1 implies hex_pairs(digits)[i] == be_bytes(
                    x,
                )[i] by {
                    if i < n / 2 {
                        assert(digits[2 * i] == upper_hex(rest)[2 * i]);
                        assert(digits[2 * i + 1] == upper_hex(rest)[2 * i + 1]);
                        assert(hex_pairs(upper_hex(rest))[i] == be_bytes(rest)[i]);
                    } else {
                        assert(digits[2 * i] == upper_digit(hi));
                        assert(digits[2 * i + 1] == upper_digit(lo));
                        assert(hi * 16 + lo == x % 256);
                    }
                }
            }
        }
    }
}

/// Writes `x` in upper-case hexadecimal, as formatting with `{:X}` does.
pub fn upper_hex_digits(x: u64) -> (digits: Vec<u8>)
    ensures
        digits@ == upper_hex(x),
    decreases x,
{
    let nibble: u8 = (x % 16) as u8;
    let digit: u8 = if nibble < 10 {
        0x30 + nibble
    } else {
        0x41 + (nibble - 10)
    };
    if x < 16 {
        let mut digits: Vec<u8> = Vec::new();
        digits.push(digit);
        assert(digits@ =~= seq![upper_digit(x as u8)]);
        digits
    } else {
        let mut digits = upper_hex_digits(x / 16);
        digits.push(digit);
        digits
    }
}

/// The canonical text of `hash_integer`: its upper-case hexadecimal digits,
/// decoded in pairs into bytes, read as UTF-8 with U+FFFD for what is
/// ill-formed. Fails with `OddHexLength` exactly when the digits do not pair
/// up.
pub fn int_to_str(hash_integer: u64) -> (text: Result<String, KernelError>)
    ensures
        match text {
            Ok(s) => has_canonical_text(hash_integer) && s@ == canonical_text(hash_integer),
            Err(e) => !has_canonical_text(hash_integer) && e == KernelError::OddHexLength,
        },
        is_text(hash_integer) ==> text.unwrap()@ == decode_utf8(be_bytes(hash_integer))
            && canonical_bytes(hash_integer) == be_bytes(hash_integer),
{
    let digits = upper_hex_digits(hash_integer);
    proof {
        lemma_upper_hex_decodes(hash_integer);
        if valid_utf8(be_bytes(hash_integer)) {
            decode_utf8_encode_utf8(be_bytes(hash_integer));
        }
    }
    match hex_decode(digits.as_slice()) {
        Ok(bytes) => Ok(from_utf8_lossy(bytes.as_slice())),
        Err(_) => Err(KernelError::OddHexLength),
    }
}

} // verus!
