//! Reading the hash out of an encoded Argon2 string.
//!
//! The encoded string is split on `$` and its sixth field, the hash in
//! base64, is taken as it stands: each of its bytes is written as two
//! lower-case hexadecimal digits and the digits are parsed as one base-16
//! number of 64 bits. Where that number does not fit, or the field is empty,
//! the value is 0; a caller cannot tell this 0 from a hash that is 0.

use crate::bigendian::be_value;
use crate::error::KernelError;
use crate::primitives::{all_hex_digits, count_byte, hex_digit_value};
use vstd::prelude::*;
use vstd::slice::slice_subrange;

verus! {

/// The separator of the fields of an encoded hash: `$`.
pub const FIELD_SEPARATOR: u8 = 0x24;

/// The index of the field of an encoded hash that holds the hash.
pub const HASH_FIELD: usize = 5;

/// The length of the first field of `text`: the number of bytes before the
/// first `sep`, or all of them where there is none.
pub open spec fn first_field_len(text: Seq<u8>, sep: u8) -> int
    decreases text.len(),
{
    if text.len() == 0 || text[0] == sep {
        0
    } else {
        1 + first_field_len(text.drop_first(), sep)
    }
}

/// The field of index `n` of `text` split on `sep`, counted from 0; `None`
/// where the split has no more than `n` fields.
pub open spec fn nth_field(text: Seq<u8>, sep: u8, n: nat) -> Option<Seq<u8>>
    decreases n,
{
    let len = first_field_len(text, sep);
    if n == 0 {
        Some(text.take(len))
    } else if len >= text.len() {
        None
    } else {
        nth_field(text.skip(len + 1), sep, (n - 1) as nat)
    }
}

/// The first field ends at the first separator.
pub proof fn lemma_first_field_len(text: Seq<u8>, sep: u8, len: int)
    requires
        0 <= len <= text.len(),
        forall|i: int| 0 <= i < len ==> text[i] != sep,
        len == text.len() || text[len] == sep,
    ensures
        first_field_len(text, sep) == len,
    decreases len,
{
    if len > 0 {
        let rest = text.drop_first();
        assert forall|i: int| 0 <= i < len - 1 implies rest[i] != sep by {
            assert(rest[i] == text[i + 1]);
        }
        lemma_first_field_len(rest, sep, len - 1);
    }
}

/// Counting a byte in two joined texts adds the counts.
pub proof fn lemma_count_byte_concat(a: Seq<u8>, b: Seq<u8>, byte: u8)
    ensures
        count_byte(a + b, byte) == count_byte(a, byte) + count_byte(b, byte),
    decreases b.len(),
{
    if b.len() == 0 {
        assert(a + b =~= a);
    } else {
        assert((a + b).drop_last() =~= a + b.drop_last());
        assert((a + b).last() == b.last());
        lemma_count_byte_concat(a, b.drop_last(), byte);
    }
}

/// A text without the byte counts none of it.
proof fn lemma_count_byte_absent(text: Seq<u8>, byte: u8)
    requires
        forall|i: int| 0 <= i < text.len() ==> text[i] != byte,
    ensures
        count_byte(text, byte) == 0,
    decreases text.len(),
{
    if text.len() > 0 {
        lemma_count_byte_absent(text.drop_last(), byte);
    }
}

/// The first field is within the text, holds no separator, and is followed
/// by one or by the end.
pub proof fn lemma_first_field_bounds(text: Seq<u8>, sep: u8)
    ensures
        0 <= first_field_len(text, sep) <= text.len(),
        forall|i: int| 0 <= i < first_field_len(text, sep) ==> text[i] != sep,
        first_field_len(text, sep) < text.len() ==> text[first_field_len(text, sep)] == sep,
    decreases text.len(),
{
    if text.len() == 0 || text[0] == sep {
    } else {
        let rest = text.drop_first();
        lemma_first_field_bounds(rest, sep);
        assert forall|i: int| 0 <= i < first_field_len(text, sep) implies text[i] != sep by {
            if i > 0 {
                assert(text[i] == rest[i - 1]);
            }
        }
    }
}

/// A text has a field of index `n` exactly when it holds at least `n`
/// separators.
pub proof fn lemma_nth_field_exists(text: Seq<u8>, sep: u8, n: nat)
    ensures
        nth_field(text, sep, n) is Some <==> count_byte(text, sep) >= n,
    decreases n,
{
    if n > 0 {
        let len = first_field_len(text, sep);
        lemma_first_field_bounds(text, sep);
        let head = text.take(len);
        lemma_count_byte_absent(head, sep);
        if len >= text.len() {
            assert(head =~= text);
        } else {
            let tail = text.skip(len + 1);
            assert(text =~= head + seq![sep] + tail);
            lemma_count_byte_concat(head + seq![sep], tail, sep);
            lemma_count_byte_concat(head, seq![sep], sep);
            assert(count_byte(seq![sep], sep) == 1) by {
                assert(seq![sep].drop_last() =~= Seq::<u8>::empty());
                assert(count_byte(Seq::<u8>::empty(), sep) == 0);
                assert(seq![sep].last() == sep);
            }
            lemma_nth_field_exists(tail, sep, (n - 1) as nat);
        }
    }
}

/// The field of index `n` of `text` split on `sep`, as `str::split` counts
/// them: a leading separator gives an empty first field.
pub fn split_field<'a>(text: &'a [u8], sep: u8, n: usize) -> (field: Option<&'a [u8]>)
    ensures
        match field {
            Some(f) => nth_field(text@, sep, n as nat) == Some(f@),
            None => nth_field(text@, sep, n as nat) is None,
        },
{
    let mut start: usize = 0;
    let mut k: usize = 0;
    assert(text@.skip(0) =~= text@);
    loop
        invariant
            start <= text.len(),
            k <= n,
            nth_field(text@, sep, n as nat) == nth_field(
                text@.skip(start as int),
                sep,
                (n - k) as nat,
            ),
        decreases n - k,
    {
        let mut end: usize = start;
        while end < text.len() && text[end] != sep
            invariant
                start <= end <= text.len(),
                forall|i: int| start <= i < end ==> text@[i] != sep,
            decreases text.len() - end,
        {
            end = end + 1;
        }
        proof {
            lemma_first_field_len(text@.skip(start as int), sep, end - start);
        }
        if k == n {
            let field = slice_subrange(text, start, end);
            assert(field@ =~= text@.skip(start as int).take(end - start));
            return Some(field);
        }
        if end == text.len() {
            return None;
        }
        proof {
            assert(text@.skip(start as int).skip(end - start + 1) =~= text@.skip(end + 1));
        }
        start = end + 1;
        k = k + 1;
    }
}

/// The lower-case hexadecimal digit for a nibble.
pub open spec fn lower_digit(nibble: u8) -> u8 {
    if nibble < 10 {
        (0x30 + nibble) as u8
    } else {
        (0x61 + nibble - 10) as u8
    }
}

/// `bytes` in lower-case hexadecimal, two digits for each byte.
pub open spec fn lower_hex(bytes: Seq<u8>) -> Seq<u8>
    decreases bytes.len(),
{
    if bytes.len() == 0 {
        Seq::empty()
    } else {
        lower_hex(bytes.drop_last()).push(lower_digit(bytes.last() / 16)).push(
            lower_digit(bytes.last() % 16),
        )
    }
}

fn lower_digit_of(nibble: u8) -> (digit: u8)
    requires
        nibble < 16,
    ensures
        digit == lower_digit(nibble),
{
    if nibble < 10 {
        0x30 + nibble
    } else {
        0x61 + (nibble - 10)
    }
}

/// Writes each byte as two lower-case hexadecimal digits, as formatting
/// with `{:02x}` does.
pub fn to_lower_hex(bytes: &[u8]) -> (digits: Vec<u8>)
    ensures
        digits@ == lower_hex(bytes@),
{
    let mut digits: Vec<u8> = Vec::new();
    let mut i: usize = 0;
    while i < bytes.len()
        invariant
            i <= bytes.len(),
            digits@ == lower_hex(bytes@.take(i as int)),
        decreases bytes.len() - i,
    {
        let byte: u8 = bytes[i];
        proof {
            assert(bytes@.take(i + 1).drop_last() =~= bytes@.take(i as int));
        }
        digits.push(lower_digit_of(byte / 16));
        digits.push(lower_digit_of(byte % 16));
        i = i + 1;
    }
    proof {
        assert(bytes@.take(bytes.len() as int) =~= bytes@);
    }
    digits
}

/// The number that hexadecimal digits denote, most significant first.
pub open spec fn hex_value(digits: Seq<u8>) -> nat
    decreases digits.len(),
{
    if digits.len() == 0 {
        0
    } else {
        hex_value(digits.drop_last()) * 16 + match hex_digit_value(digits.last()) {
            Some(v) => v as nat,
            None => 0,
        }
    }
}

/// What parsing `digits` as a base-16 `u64` gives: the number they denote,
/// unless there is no digit, a byte is no digit, or the number needs more
/// than 64 bits.
pub open spec fn parse_hex(digits: Seq<u8>) -> Option<u64> {
    if digits.len() == 0 || !all_hex_digits(digits) || hex_value(digits) > u64::MAX {
        None
    } else {
        Some(hex_value(digits) as u64)
    }
}

/// A longer run of digits denotes no smaller number.
proof fn lemma_hex_value_grows(digits: Seq<u8>, i: int)
    requires
        0 <= i <= digits.len(),
    ensures
        hex_value(digits.take(i)) <= hex_value(digits),
    decreases digits.len() - i,
{
    if i < digits.len() {
        assert(digits.take(i + 1).drop_last() =~= digits.take(i));
        lemma_hex_value_grows(digits, i + 1);
    } else {
        assert(digits.take(i) =~= digits);
    }
}

fn digit_value(c: u8) -> (value: Option<u8>)
    ensures
        value == hex_digit_value(c),
        value matches Some(v) ==> v < 16,
{
    if 0x30 <= c && c <= 0x39 {
        Some(c - 0x30)
    } else if 0x41 <= c && c <= 0x46 {
        Some(c - 0x41 + 10)
    } else if 0x61 <= c && c <= 0x66 {
        Some(c - 0x61 + 10)
    } else {
        None
    }
}

/// Parses hexadecimal digits, upper or lower case and without a sign, as a
/// `u64`.
pub fn parse_hex_u64(digits: &[u8]) -> (value: Option<u64>)
    ensures
        value == parse_hex(digits@),
{
    if digits.len() == 0 {
        return None;
    }
    let mut acc: u64 = 0;
    let mut i: usize = 0;
    while i < digits.len()
        invariant
            i <= digits.len(),
            all_hex_digits(digits@.take(i as int)),
            acc == hex_value(digits@.take(i as int)),
        decreases digits.len() - i,
    {
        proof {
            assert(digits@.take(i + 1).drop_last() =~= digits@.take(i as int));
            lemma_hex_value_grows(digits@, i + 1);
        }
        match digit_value(digits[i]) {
            None => {
                return None;
            },
            Some(v) => {
                if acc > 0x0fff_ffff_ffff_ffff {
                    return None;
                }
                acc = acc * 16 + v as u64;
            },
        }
        proof {
            assert forall|j: int| 0 <= j < i + 1 implies hex_digit_value(
                #[trigger] digits@.take(i + 1)[j],
            ) is Some by {
                if j < i {
                    assert(digits@.take(i as int)[j] == digits@[j]);
                }
            }
        }
        i = i + 1;
    }
    proof {
        assert(digits@.take(digits.len() as int) =~= digits@);
    }
    Some(acc)
}

/// The digits of `lower_hex` are digits, two for each byte, and denote the
/// big-endian value of the bytes.
pub proof fn lemma_lower_hex_value(bytes: Seq<u8>)
    ensures
        lower_hex(bytes).len() == 2 * bytes.len(),
        all_hex_digits(lower_hex(bytes)),
        hex_value(lower_hex(bytes)) == be_value(bytes),
    decreases bytes.len(),
{
    if bytes.len() > 0 {
        let rest = bytes.drop_last();
        lemma_lower_hex_value(rest);
        let hi = lower_digit(bytes.last() / 16);
        let lo = lower_digit(bytes.last() % 16);
        let mid = lower_hex(rest).push(hi);
        assert(lower_hex(bytes) == mid.push(lo));
        assert(mid.push(lo).drop_last() =~= mid);
        assert(mid.drop_last() =~= lower_hex(rest));
        assert(hex_digit_value(hi) == Some((bytes.last() / 16) as u8));
        assert(hex_digit_value(lo) == Some((bytes.last() % 16) as u8));
        assert(hex_value(mid) == hex_value(lower_hex(rest)) * 16 + bytes.last() / 16);
        assert(hex_value(lower_hex(bytes)) == hex_value(mid) * 16 + bytes.last() % 16);
    }
}

/// The value of a hash field: its big-endian value where that fits in 64
/// bits, and 0 where it does not.
pub open spec fn field_value(field: Seq<u8>) -> u64 {
    if be_value(field) <= u64::MAX {
        be_value(field) as u64
    } else {
        0
    }
}

/// Writing a field in hexadecimal and parsing it back gives its big-endian
/// value, and fails exactly where the field is empty or the value needs
/// more than 64 bits.
pub proof fn lemma_parse_lower_hex(field: Seq<u8>)
    ensures
        parse_hex(lower_hex(field)) == if field.len() == 0 || be_value(field) > u64::MAX {
            None
        } else {
            Some(be_value(field) as u64)
        },
        field_value(field) == match parse_hex(lower_hex(field)) {
            Some(v) => v,
            None => 0,
        },
{
    lemma_lower_hex_value(field);
}

/// The value of the hash field of an encoded hash: the field is written in
/// hexadecimal and parsed back, and a failed parse counts as 0.
pub fn hash_field_value(field: &[u8]) -> (value: u64)
    ensures
        value == field_value(field@),
{
    let digits = to_lower_hex(field);
    proof {
        lemma_parse_lower_hex(field@);
    }
    match parse_hex_u64(digits.as_slice()) {
        Some(v) => v,
        None => 0,
    }
}

/// What an encoded hash decodes to: the value of its sixth field, or
/// `MalformedEncoding` where it has fewer than six fields.
pub open spec fn decoded_hash(encoded: Seq<u8>) -> Result<u64, KernelError> {
    match nth_field(encoded, FIELD_SEPARATOR, HASH_FIELD as nat) {
        Some(field) => Ok(field_value(field)),
        None => Err(KernelError::MalformedEncoding),
    }
}

/// Decodes an encoded Argon2 hash into the 64-bit value of its hash field.
pub fn decode_encoded_hash(encoded: &[u8]) -> (value: Result<u64, KernelError>)
    ensures
        value == decoded_hash(encoded@),
        value is Ok <==> count_byte(encoded@, FIELD_SEPARATOR) >= 5,
{
    proof {
        lemma_nth_field_exists(encoded@, FIELD_SEPARATOR, HASH_FIELD as nat);
    }
    match split_field(encoded, FIELD_SEPARATOR, HASH_FIELD) {
        Some(field) => Ok(hash_field_value(field)),
        None => Err(KernelError::MalformedEncoding),
    }
}

} // verus!
