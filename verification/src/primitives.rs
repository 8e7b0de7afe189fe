//! The calls into the hashing, key-derivation and decoding crates.
//!
//! Nothing in this module is proved. Each function states what the crate it
//! calls computes; the results of the hash functions are only named, so that
//! the contracts built on them can say which function was applied to which
//! bytes.

use vstd::prelude::*;
use vstd::utf8::*;

verus! {

/// The value of one hexadecimal digit, upper or lower case; `None` for any
/// other byte.
pub open spec fn hex_digit_value(c: u8) -> Option<u8> {
    if 0x30 <= c <= 0x39 {
        Some((c - 0x30) as u8)
    } else if 0x41 <= c <= 0x46 {
        Some((c - 0x41 + 10) as u8)
    } else if 0x61 <= c <= 0x66 {
        Some((c - 0x61 + 10) as u8)
    } else {
        None
    }
}

/// Whether every byte of `digits` is a hexadecimal digit.
pub open spec fn all_hex_digits(digits: Seq<u8>) -> bool {
    forall|i: int| 0 <= i < digits.len() ==> hex_digit_value(#[trigger] digits[i]) is Some
}

/// Text that decodes: an even number of bytes, each a hexadecimal digit.
pub open spec fn is_hex_text(digits: Seq<u8>) -> bool {
    digits.len() % 2 == 0 && all_hex_digits(digits)
}

/// The bytes that hexadecimal text denotes: one byte for each pair of
/// digits, the first digit of a pair being the high nibble.
pub open spec fn hex_pairs(digits: Seq<u8>) -> Seq<u8> {
    Seq::new(
        digits.len() / 2,
        |i: int|
            (hex_digit_value(digits[2 * i]).unwrap() * 16 + hex_digit_value(
                digits[2 * i + 1],
            ).unwrap()) as u8,
    )
}

/// Why `hex::decode` failed. Nothing is read from it.
#[verifier::external_type_specification]
#[verifier::external_body]
pub struct ExFromHexError(hex::FromHexError);

/// `hex::decode`. It fails on an odd number of bytes and on a byte that is
/// no hexadecimal digit, and otherwise returns one byte per pair of digits.
#[verifier::external_body]
pub(crate) fn hex_decode(digits: &[u8]) -> (decoded: Result<Vec<u8>, hex::FromHexError>)
    ensures
        decoded is Ok <==> is_hex_text(digits@),
        decoded matches Ok(bytes) ==> bytes@ == hex_pairs(digits@),
{
    hex::decode(digits)
}

/// The text that lossy UTF-8 decoding makes of `bytes`: every ill-formed
/// sequence is replaced by U+FFFD.
pub uninterp spec fn utf8_lossy(bytes: Seq<u8>) -> Seq<char>;

/// `String::from_utf8_lossy`, as an owned string. Well-formed UTF-8 is
/// decoded as it stands; what becomes of ill-formed input is only named.
#[verifier::external_body]
pub(crate) fn from_utf8_lossy(bytes: &[u8]) -> (text: String)
    ensures
        text@ == utf8_lossy(bytes@),
        valid_utf8(bytes@) ==> text@ == decode_utf8(bytes@),
{
    String::from_utf8_lossy(bytes).into_owned()
}

/// The unkeyed BLAKE2b digest of `data` with a digest length of `out_len`
/// bytes.
pub uninterp spec fn blake2b_digest(out_len: nat, data: Seq<u8>) -> Seq<u8>;

/// The refusal of `Blake2bVar::new`. Nothing is read from it.
#[verifier::external_type_specification]
#[verifier::external_body]
pub struct ExInvalidOutputSize(blake2::digest::InvalidOutputSize);

/// `Blake2bVar::new`, `update` and `finalize_boxed` of the blake2 crate.
/// The hasher is refused for a digest longer than 64 bytes and for nothing
/// else; the digest has the length that was asked for.
#[verifier::external_body]
pub(crate) fn blake2b_var(out_len: usize, data: &[u8]) -> (digest: Result<
    Vec<u8>,
    blake2::digest::InvalidOutputSize,
>)
    ensures
        digest is Ok <==> out_len <= 64,
        digest matches Ok(bytes) ==> bytes@ == blake2b_digest(out_len as nat, data@)
            && bytes@.len() == out_len,
{
    let mut hasher = <blake2::Blake2bVar as blake2::digest::VariableOutput>::new(out_len)?;
    blake2::digest::Update::update(&mut hasher, data);
    Ok(blake2::digest::VariableOutput::finalize_boxed(hasher).into_vec())
}

/// The checksum of `data` under the CRC of up to 64 bits that the six
/// parameters of the catalogue of parametrised CRC algorithms describe.
pub uninterp spec fn crc64_checksum(
    width: u8,
    poly: u64,
    init: u64,
    refin: bool,
    refout: bool,
    xorout: u64,
    data: Seq<u8>,
) -> u64;

/// `Crc::<u64>::new` and `checksum` of the crc crate. The crate reads
/// `check` and `residue` nowhere in its computation, so the result is named
/// by the other six parameters. `Crc` borrows its parameters for `'static`,
/// hence the leaked box. A width outside `1..=64` overflows a shift in the
/// crate.
#[verifier::external_body]
pub(crate) fn crc64(
    width: u8,
    poly: u64,
    init: u64,
    refin: bool,
    refout: bool,
    xorout: u64,
    check: u64,
    residue: u64,
    data: &[u8],
) -> (checksum: u64)
    requires
        1 <= width <= 64,
    ensures
        checksum == crc64_checksum(width, poly, init, refin, refout, xorout, data@),
{
    let algorithm: &'static crc::Algorithm<u64> = Box::leak(
        Box::new(crc::Algorithm { width, poly, init, refin, refout, xorout, check, residue }),
    );
    crc::Crc::<u64>::new(algorithm).checksum(data)
}

/// The key of `key_len` bytes that PBKDF2 with HMAC-SHA256 derives from
/// `password` and `salt` in `rounds` iterations.
pub uninterp spec fn pbkdf2_sha256_key(
    password: Seq<u8>,
    salt: Seq<u8>,
    rounds: u32,
    key_len: nat,
) -> Seq<u8>;

/// `pbkdf2_hmac::<Sha256>` of the pbkdf2 crate, on a fresh buffer of
/// `key_len` bytes, which the crate fills completely. The block counter of
/// the crate is a `u32`, which bounds the key at `u32::MAX` blocks of 32
/// bytes.
#[verifier::external_body]
pub(crate) fn pbkdf2_hmac_sha256(password: &[u8], salt: &[u8], rounds: u32, key_len: usize) -> (key:
    Vec<u8>)
    requires
        key_len <= 0x1f_ffff_ffe0,
    ensures
        key@ == pbkdf2_sha256_key(password@, salt@, rounds, key_len as nat),
        key@.len() == key_len,
{
    let mut key = vec![0u8; key_len];
    pbkdf2::pbkdf2_hmac::<sha2::Sha256>(password, salt, rounds, &mut key);
    key
}

/// What Argon2 accepts, on every machine: a known variant (0, 1 or 2) and
/// version (0x10 or 0x13), 1 to 2^24 - 1 lanes, at least 8 KiB of memory for
/// each lane and at most 2 GiB in all, at least one pass, a salt of at least
/// 8 bytes, a hash of at least 4 bytes, and no input of 4 GiB or more.
pub open spec fn argon2_accepts(
    password_len: nat,
    salt_len: nat,
    secret_len: nat,
    ad_len: nat,
    variant: u32,
    version: u32,
    mem_cost: u32,
    time_cost: u32,
    lanes: u32,
    hash_length: u32,
) -> bool {
    &&& variant <= 2
    &&& (version == 0x10 || version == 0x13)
    &&& 1 <= lanes <= 0x00ff_ffff
    &&& 8 * lanes <= mem_cost <= 0x0020_0000
    &&& 1 <= time_cost
    &&& password_len <= 0xffff_ffff
    &&& 8 <= salt_len <= 0xffff_ffff
    &&& secret_len <= 0xffff_ffff
    &&& ad_len <= 0xffff_ffff
    &&& 4 <= hash_length
}

/// The number of bytes of `text` that equal `byte`.
pub open spec fn count_byte(text: Seq<u8>, byte: u8) -> nat
    decreases text.len(),
{
    if text.len() == 0 {
        0
    } else {
        count_byte(text.drop_last(), byte) + if text.last() == byte {
            1nat
        } else {
            0nat
        }
    }
}

/// The encoded Argon2 hash of `password` under `salt`: the text
/// `$variant$v=version$m=..,t=..,p=..$salt$hash`, salt and hash in base64
/// without padding.
pub uninterp spec fn argon2_encoded(
    password: Seq<u8>,
    salt: Seq<u8>,
    secret: Seq<u8>,
    ad: Seq<u8>,
    variant: u32,
    version: u32,
    mem_cost: u32,
    time_cost: u32,
    lanes: u32,
    hash_length: u32,
) -> Seq<u8>;

/// Why `argon2::hash_encoded` failed. Nothing is read from it.
#[verifier::external_type_specification]
#[verifier::external_body]
pub struct ExArgon2Error(argon2::Error);

/// `argon2::hash_encoded` of the rust-argon2 crate, run in one thread, with
/// the variant and version given by their numbers. With at most 2 GiB of
/// memory asked for, the call succeeds exactly on what `argon2_accepts`
/// describes. The encoded text holds five `$`, one before each of its
/// fields, since neither base64 nor the parameters contain one.
#[verifier::external_body]
pub(crate) fn argon2_hash_encoded(
    password: &[u8],
    salt: &[u8],
    secret: &[u8],
    ad: &[u8],
    variant: u32,
    version: u32,
    mem_cost: u32,
    time_cost: u32,
    lanes: u32,
    hash_length: u32,
) -> (encoded: Result<Vec<u8>, argon2::Error>)
    ensures
        mem_cost <= 0x0020_0000 ==> (encoded is Ok <==> argon2_accepts(
            password@.len(),
            salt@.len(),
            secret@.len(),
            ad@.len(),
            variant,
            version,
            mem_cost,
            time_cost,
            lanes,
            hash_length,
        )),
        encoded matches Ok(text) ==> text@ == argon2_encoded(
            password@,
            salt@,
            secret@,
            ad@,
            variant,
            version,
            mem_cost,
            time_cost,
            lanes,
            hash_length,
        ) && count_byte(text@, 0x24) == 5,
{
    let config = argon2::Config {
        ad,
        hash_length,
        lanes,
        mem_cost,
        secret,
        thread_mode: argon2::ThreadMode::Sequential,
        time_cost,
        variant: argon2::Variant::from_u32(variant)?,
        version: argon2::Version::from_u32(version)?,
    };
    argon2::hash_encoded(password, salt, &config).map(String::into_bytes)
}

} // verus!
