//! The kernel extension: a wrapper around an inner kernel that adds five
//! host calls to it.
//!
//! Four of the calls are functions of their arguments alone: each brings its
//! arguments into canonical text and hashes the text. The fifth adds two
//! draws that the inner kernel supplies. None of them charges gas.

use crate::bigendian::{fold_be, folded};
use crate::canonical::{
    be_bytes,
    canonical_bytes,
    has_canonical_text,
    int_to_str,
    is_text,
    lemma_be_bytes,
};
use crate::encoded::{decode_encoded_hash, decoded_hash};
use crate::error::{KernelError, LinkError};
use crate::primitives::{
    argon2_accepts,
    argon2_encoded,
    argon2_hash_encoded,
    blake2b_digest,
    blake2b_var,
    crc64,
    crc64_checksum,
    pbkdf2_hmac_sha256,
    pbkdf2_sha256_key,
};
use crate::syscalls::{
    custom_slot,
    custom_slots,
    custom_syscalls,
    free_run,
    lemma_custom_slots_distinct,
    lemma_slot_bound_concat,
    registration_order,
    slot_bound,
    SyscallTable,
    SYSCALL_MODULE,
};
use vstd::pervasive::unreached;
use vstd::prelude::*;

verus! {

/// The length in bytes of the BLAKE2b digest.
pub const BLAKE2_DIGEST_LEN: usize = 10;

/// The width in bits of the checksum.
pub const CRC_WIDTH: u8 = 64;

/// The generator polynomial of the checksum.
pub const CRC_POLY: u64 = 0x8005;

/// The register of the checksum before the first byte.
pub const CRC_INIT: u64 = 0xffff;

/// Whether the checksum reads each byte least significant bit first.
pub const CRC_REFIN: bool = false;

/// Whether the checksum reflects the register at the end.
pub const CRC_REFOUT: bool = false;

/// What the checksum xors into the register at the end.
pub const CRC_XOROUT: u64 = 0;

/// The checksum of the nine ASCII digits `123456789`.
pub const CRC_CHECK: u64 = 0x60e5_7f89_c2fb_a581;

/// The register after an error-free codeword.
pub const CRC_RESIDUE: u64 = 0;

/// The number of iterations of PBKDF2.
pub const PBKDF2_ROUNDS: u32 = 1000;

/// The length in bytes of the key that PBKDF2 derives.
pub const PBKDF2_KEY_LEN: usize = 8;

/// The number of the data-independent variant, Argon2i.
pub const ARGON2_VARIANT: u32 = 1;

/// The number of version 1.3 of Argon2.
pub const ARGON2_VERSION: u32 = 0x13;

/// The memory that Argon2 uses, in KiB.
pub const ARGON2_MEM_COST: u32 = 65;

/// The number of passes of Argon2.
pub const ARGON2_TIME_COST: u32 = 1;

/// The number of lanes of Argon2.
pub const ARGON2_LANES: u32 = 4;

/// The length in bytes of the Argon2 hash.
pub const ARGON2_HASH_LEN: u32 = 6;

/// What `blake_2_hash` returns: the folded 10-byte BLAKE2b digest of the
/// canonical text.
pub open spec fn blake_2_outcome(hash_integer: u64) -> Result<u64, KernelError> {
    if has_canonical_text(hash_integer) {
        Ok(folded(blake2b_digest(BLAKE2_DIGEST_LEN as nat, canonical_bytes(hash_integer))))
    } else {
        Err(KernelError::OddHexLength)
    }
}

/// The checksum of `data` under the parameters of this kernel.
pub open spec fn checksum_of(data: Seq<u8>) -> u64 {
    crc64_checksum(CRC_WIDTH, CRC_POLY, CRC_INIT, CRC_REFIN, CRC_REFOUT, CRC_XOROUT, data)
}

/// What `crc_hash` returns: the checksum of the canonical text.
pub open spec fn crc_outcome(hash_integer: u64) -> Result<u64, KernelError> {
    if has_canonical_text(hash_integer) {
        Ok(checksum_of(canonical_bytes(hash_integer)))
    } else {
        Err(KernelError::OddHexLength)
    }
}

/// What `pbkdf2_hash` returns: the folded 8-byte key that PBKDF2 derives
/// from the two canonical texts.
pub open spec fn pbkdf2_outcome(password: u64, salt: u64) -> Result<u64, KernelError> {
    if has_canonical_text(password) && has_canonical_text(salt) {
        Ok(
            folded(
                pbkdf2_sha256_key(
                    canonical_bytes(password),
                    canonical_bytes(salt),
                    PBKDF2_ROUNDS,
                    PBKDF2_KEY_LEN as nat,
                ),
            ),
        )
    } else {
        Err(KernelError::OddHexLength)
    }
}

/// Whether Argon2 takes the two canonical texts under the parameters of this
/// kernel: the salt has at least 8 bytes, and neither text has 4 GiB.
pub open spec fn argon2_takes(password: u64, salt: u64) -> bool {
    argon2_accepts(
        canonical_bytes(password).len(),
        canonical_bytes(salt).len(),
        0,
        0,
        ARGON2_VARIANT,
        ARGON2_VERSION,
        ARGON2_MEM_COST,
        ARGON2_TIME_COST,
        ARGON2_LANES,
        ARGON2_HASH_LEN,
    )
}

/// The encoded Argon2 hash of the two canonical texts under the parameters
/// of this kernel.
pub open spec fn argon2_encoded_of(password: u64, salt: u64) -> Seq<u8> {
    argon2_encoded(
        canonical_bytes(password),
        canonical_bytes(salt),
        Seq::empty(),
        Seq::empty(),
        ARGON2_VARIANT,
        ARGON2_VERSION,
        ARGON2_MEM_COST,
        ARGON2_TIME_COST,
        ARGON2_LANES,
        ARGON2_HASH_LEN,
    )
}

/// What `argon2_hash` returns: the value of the hash field of the encoded
/// Argon2 hash.
pub open spec fn argon2_outcome(password: u64, salt: u64) -> Result<u64, KernelError> {
    if !has_canonical_text(password) || !has_canonical_text(salt) {
        Err(KernelError::OddHexLength)
    } else if !argon2_takes(password, salt) {
        Err(KernelError::Argon2Rejected)
    } else {
        decoded_hash(argon2_encoded_of(password, salt))
    }
}

/// The sum of two draws, wrapped to 64 bits.
pub open spec fn wrapping_sum(z0: u64, z1: u64) -> u64 {
    ((z0 + z1) % 0x1_0000_0000_0000_0000) as u64
}

/// Adds the two draws of `random_num`. A sum that does not fit wraps round;
/// that is the defined behaviour, not an error.
pub fn add_draws(z0: u64, z1: u64) -> (sum: u64)
    ensures
        sum == wrapping_sum(z0, z1),
        z0 + z1 <= u64::MAX ==> sum == z0 + z1,
        z0 + z1 > u64::MAX ==> sum == z0 + z1 - 0x1_0000_0000_0000_0000,
{
    z0.wrapping_add(z1)
}

/// The checksum of `data` under the parameters of this kernel.
pub fn checksum(data: &[u8]) -> (crc: u64)
    ensures
        crc == checksum_of(data@),
{
    crc64(
        CRC_WIDTH,
        CRC_POLY,
        CRC_INIT,
        CRC_REFIN,
        CRC_REFOUT,
        CRC_XOROUT,
        CRC_CHECK,
        CRC_RESIDUE,
        data,
    )
}

/// Where `random_num` takes its randomness from.
pub trait NormalSource {
    /// Whether the source may give `pair` on a call. Unless a source states
    /// otherwise, it may give any pair.
    open spec fn may_draw(&self, pair: (u64, u64)) -> bool {
        true
    }

    /// Two independent standard-normal draws, each scaled by ten to the
    /// sixteenth, taken in absolute value and truncated to 64 bits.
    fn normal_pair(&self) -> (pair: (u64, u64))
        ensures
            self.may_draw(pair),
    ;
}

/// Draws that were fixed beforehand, so that every party that replays a
/// call adds the same two numbers.
pub struct InjectedDraws {
    pub z0: u64,
    pub z1: u64,
}

impl NormalSource for InjectedDraws {
    open spec fn may_draw(&self, pair: (u64, u64)) -> bool {
        pair == (self.z0, self.z1)
    }

    /// The pair that the source was made with.
    fn normal_pair(&self) -> (pair: (u64, u64)) {
        (self.z0, self.z1)
    }
}

/// The five host calls that the kernel extension adds.
///
/// The four hashes are functions of their arguments: the `*_spec` functions
/// say which, and the methods return what these give. Unless a kernel
/// states otherwise, they are the functions that `CustomKernelImpl`
/// computes. `random_num` is no function of the kernel: `random_num_spec`
/// says which results a call may have.
pub trait CustomKernel {
    /// What `blake_2_hash` returns on this kernel.
    open spec fn blake_2_hash_spec(&self, hash_integer: u64) -> Result<u64, KernelError> {
        blake_2_outcome(hash_integer)
    }

    /// What `crc_hash` returns on this kernel.
    open spec fn crc_hash_spec(&self, hash_integer: u64) -> Result<u64, KernelError> {
        crc_outcome(hash_integer)
    }

    /// What `pbkdf2_hash` returns on this kernel.
    open spec fn pbkdf2_hash_spec(&self, password: u64, salt: u64) -> Result<u64, KernelError> {
        pbkdf2_outcome(password, salt)
    }

    /// What `argon2_hash` returns on this kernel.
    open spec fn argon2_hash_spec(&self, password: u64, salt: u64) -> Result<u64, KernelError> {
        argon2_outcome(password, salt)
    }

    fn blake_2_hash(&self, hash_integer: u64) -> (hash: Result<u64, KernelError>)
        ensures
            hash == self.blake_2_hash_spec(hash_integer),
    ;

    fn crc_hash(&self, hash_integer: u64) -> (hash: Result<u64, KernelError>)
        ensures
            hash == self.crc_hash_spec(hash_integer),
    ;

    fn pbkdf2_hash(&self, password: u64, salt: u64) -> (hash: Result<u64, KernelError>)
        ensures
            hash == self.pbkdf2_hash_spec(password, salt),
    ;

    fn argon2_hash(&self, password: u64, salt: u64) -> (hash: Result<u64, KernelError>)
        ensures
            hash == self.argon2_hash_spec(password, salt),
    ;

    /// Whether a call of `random_num` may return `number` on this kernel.
    /// Unless a kernel states otherwise, it may return anything.
    open spec fn random_num_spec(&self, number: Result<u64, KernelError>) -> bool {
        true
    }

    fn random_num(&self) -> (number: Result<u64, KernelError>)
        ensures
            self.random_num_spec(number),
    ;
}

/// The kernel extension. It owns the inner kernel, to which every other
/// capability is left.
pub struct CustomKernelImpl<K>(pub K);

impl<K> CustomKernelImpl<K> {
    /// Wraps `inner`, unchanged.
    pub fn new(inner: K) -> (kernel: Self)
        ensures
            kernel.0 == inner,
    {
        CustomKernelImpl(inner)
    }

    /// Gives the inner kernel back.
    pub fn into_inner(self) -> (inner: K)
        ensures
            inner == self.0,
    {
        self.0
    }

    /// Binds the five host calls, in their order of registration, each
    /// under the shared module name and its own function name.
    ///
    /// The host calls of the inner kernel are linked first, and `inner` is
    /// what that gave: where it failed, the failure is handed on and nothing
    /// is bound. Otherwise the first slot that is bound already stops the
    /// registration with `DuplicateBinding`; what was bound before it stays
    /// bound.
    pub fn link_syscalls(table: &mut SyscallTable, inner: Result<(), LinkError>) -> (linked: Result<
        (),
        LinkError,
    >)
        requires
            old(table).wf(),
        ensures
            final(table).wf(),
            inner is Err ==> linked == inner && final(table)@ == old(table)@,
            inner is Ok ==> final(table)@ == old(table)@ + custom_slots().take(
                free_run(old(table)@, 0),
            ),
            0 <= free_run(old(table)@, 0) <= 5,
            inner is Ok && free_run(old(table)@, 0) == 5 ==> linked is Ok,
            inner is Ok && free_run(old(table)@, 0) < 5 ==> linked == Err::<(), LinkError>(
                LinkError::DuplicateBinding,
            ),
    {
        proof {
            lemma_custom_slots_distinct(0, 0);
            crate::syscalls::lemma_free_run_bounds(table@, 0);
        }
        if let Err(e) = inner {
            return Err(e);
        }
        let order = custom_syscalls();
        let mut k: usize = 0;
        proof {
            lemma_custom_slots_distinct(0, 0);
            assert(table@ =~= old(table)@ + custom_slots().take(0));
        }
        while k < 5
            invariant
                k <= 5,
                inner is Ok,
                order@ == registration_order(),
                custom_slots().len() == 5,
                table.wf(),
                table@ == old(table)@ + custom_slots().take(k as int),
                free_run(old(table)@, 0) == k + free_run(old(table)@, k as int),
            decreases 5 - k,
        {
            let capability = order[k];
            proof {
                let name = capability.name_of();
                lemma_slot_bound_concat(
                    old(table)@,
                    custom_slots().take(k as int),
                    SYSCALL_MODULE@,
                    name,
                );
                if slot_bound(custom_slots().take(k as int), SYSCALL_MODULE@, name) {
                    let j = choose|j: int|
                        0 <= j < k && (#[trigger] custom_slots().take(k as int)[j]).in_slot(
                            SYSCALL_MODULE@,
                            name,
                        );
                    lemma_custom_slots_distinct(j, k as int);
                }
                lemma_custom_slots_distinct(k as int, k as int);
            }
            match table.link_syscall(SYSCALL_MODULE, capability.function_name(), capability) {
                Ok(_) => {},
                Err(e) => {
                    return Err(e);
                },
            }
            proof {
                assert(custom_slots().take(k + 1) =~= custom_slots().take(k as int).push(
                    custom_slot(capability),
                ));
                assert(table@ =~= old(table)@ + custom_slots().take(k + 1));
            }
            k = k + 1;
        }
        Ok(())
    }
}

impl<K: NormalSource> CustomKernel for CustomKernelImpl<K> {
    /// BLAKE2b with a digest of 10 bytes over the canonical text, the digest
    /// folded into 64 bits. Fails exactly where there is no canonical text.
    fn blake_2_hash(&self, hash_integer: u64) -> (hash: Result<u64, KernelError>)
        ensures
            hash == blake_2_outcome(hash_integer),
            hash is Ok <==> has_canonical_text(hash_integer),
            is_text(hash_integer) ==> hash == Ok::<u64, KernelError>(
                folded(blake2b_digest(BLAKE2_DIGEST_LEN as nat, be_bytes(hash_integer))),
            ),
    {
        let text = match int_to_str(hash_integer) {
            Ok(text) => text,
            Err(e) => {
                return Err(e);
            },
        };
        match blake2b_var(BLAKE2_DIGEST_LEN, text.as_str().as_bytes()) {
            Ok(digest) => Ok(fold_be(digest.as_slice())),
            Err(_) => unreached(),
        }
    }

    /// The 64-bit checksum of the canonical text. Fails exactly where there
    /// is no canonical text.
    fn crc_hash(&self, hash_integer: u64) -> (hash: Result<u64, KernelError>)
        ensures
            hash == crc_outcome(hash_integer),
            hash is Ok <==> has_canonical_text(hash_integer),
            is_text(hash_integer) ==> hash == Ok::<u64, KernelError>(
                checksum_of(be_bytes(hash_integer)),
            ),
    {
        let text = match int_to_str(hash_integer) {
            Ok(text) => text,
            Err(e) => {
                return Err(e);
            },
        };
        Ok(checksum(text.as_str().as_bytes()))
    }

    /// PBKDF2 with HMAC-SHA256, 1000 iterations and a key of 8 bytes over
    /// the two canonical texts, the key folded into 64 bits. Fails exactly
    /// where one of the two has no canonical text.
    fn pbkdf2_hash(&self, password: u64, salt: u64) -> (hash: Result<u64, KernelError>)
        ensures
            hash == pbkdf2_outcome(password, salt),
            hash is Ok <==> has_canonical_text(password) && has_canonical_text(salt),
            is_text(password) && is_text(salt) ==> hash == Ok::<u64, KernelError>(
                folded(
                    pbkdf2_sha256_key(
                        be_bytes(password),
                        be_bytes(salt),
                        PBKDF2_ROUNDS,
                        PBKDF2_KEY_LEN as nat,
                    ),
                ),
            ),
    {
        let password_text = match int_to_str(password) {
            Ok(text) => text,
            Err(e) => {
                return Err(e);
            },
        };
        let salt_text = match int_to_str(salt) {
            Ok(text) => text,
            Err(e) => {
                return Err(e);
            },
        };
        let key = pbkdf2_hmac_sha256(
            password_text.as_str().as_bytes(),
            salt_text.as_str().as_bytes(),
            PBKDF2_ROUNDS,
            PBKDF2_KEY_LEN,
        );
        Ok(fold_be(key.as_slice()))
    }

    /// Argon2i, version 1.3, with 65 KiB, one pass, four lanes, no secret,
    /// no associated data and a hash of 6 bytes over the two canonical
    /// texts; the result is the value of the hash field of the encoded hash.
    /// Fails where one of the two has no canonical text, and where Argon2
    /// does not take them.
    fn argon2_hash(&self, password: u64, salt: u64) -> (hash: Result<u64, KernelError>)
        ensures
            hash == argon2_outcome(password, salt),
            hash is Ok <==> has_canonical_text(password) && has_canonical_text(salt)
                && argon2_takes(password, salt),
            is_text(password) && is_text(salt) ==> (hash is Ok <==> salt
                >= 0x0100_0000_0000_0000),
    {
        proof {
            lemma_be_bytes(password);
            lemma_be_bytes(salt);
        }
        let password_text = match int_to_str(password) {
            Ok(text) => text,
            Err(e) => {
                return Err(e);
            },
        };
        let salt_text = match int_to_str(salt) {
            Ok(text) => text,
            Err(e) => {
                return Err(e);
            },
        };
        let nothing: Vec<u8> = Vec::new();
        let encoded = argon2_hash_encoded(
            password_text.as_str().as_bytes(),
            salt_text.as_str().as_bytes(),
            nothing.as_slice(),
            nothing.as_slice(),
            ARGON2_VARIANT,
            ARGON2_VERSION,
            ARGON2_MEM_COST,
            ARGON2_TIME_COST,
            ARGON2_LANES,
            ARGON2_HASH_LEN,
        );
        match encoded {
            Ok(text) => {
                assert(nothing@ =~= Seq::<u8>::empty());
                decode_encoded_hash(text.as_slice())
            },
            Err(_) => Err(KernelError::Argon2Rejected),
        }
    }

    /// A call may return the wrapped sum of any pair that the inner kernel
    /// may draw, and nothing else.
    open spec fn random_num_spec(&self, number: Result<u64, KernelError>) -> bool {
        exists|z0: u64, z1: u64|
            #[trigger] self.0.may_draw((z0, z1)) && number == Ok::<u64, KernelError>(
                wrapping_sum(z0, z1),
            )
    }

    /// The wrapped sum of the two draws that the inner kernel gives on this
    /// call. It never fails; two calls need not agree.
    fn random_num(&self) -> (number: Result<u64, KernelError>)
        ensures
            number is Ok,
    {
        let (z0, z1) = self.0.normal_pair();
        assert(self.0.may_draw((z0, z1)));
        Ok(add_draws(z0, z1))
    }
}

/// With injected draws `random_num` is a function of the draws: the only
/// result that a call may have is their wrapped sum.
pub proof fn lemma_injected_draws_fix_random_num(
    kernel: &CustomKernelImpl<InjectedDraws>,
    number: Result<u64, KernelError>,
)
    ensures
        kernel.random_num_spec(number) <==> number == Ok::<u64, KernelError>(
            wrapping_sum(kernel.0.z0, kernel.0.z1),
        ),
{
    if number == Ok::<u64, KernelError>(wrapping_sum(kernel.0.z0, kernel.0.z1)) {
        assert(kernel.0.may_draw((kernel.0.z0, kernel.0.z1)));
    }
}

/// The four hashes of the kernel extension are functions of their
/// arguments alone: whatever two kernel extensions wrap, and however often
/// they are asked, they give the same for the same arguments.
pub proof fn lemma_hashes_depend_on_arguments_alone<A: NormalSource, B: NormalSource>(
    one: &CustomKernelImpl<A>,
    other: &CustomKernelImpl<B>,
    hash_integer: u64,
    password: u64,
    salt: u64,
)
    ensures
        one.blake_2_hash_spec(hash_integer) == other.blake_2_hash_spec(hash_integer),
        one.blake_2_hash_spec(hash_integer) == blake_2_outcome(hash_integer),
        one.crc_hash_spec(hash_integer) == other.crc_hash_spec(hash_integer),
        one.crc_hash_spec(hash_integer) == crc_outcome(hash_integer),
        one.pbkdf2_hash_spec(password, salt) == other.pbkdf2_hash_spec(password, salt),
        one.pbkdf2_hash_spec(password, salt) == pbkdf2_outcome(password, salt),
        one.argon2_hash_spec(password, salt) == other.argon2_hash_spec(password, salt),
        one.argon2_hash_spec(password, salt) == argon2_outcome(password, salt),
{
}

/// The host call `blake_2_hash`: hands the argument to the kernel and the
/// result back.
pub fn blake_2_hash<K: CustomKernel>(kernel: &K, hash_integer: u64) -> (hash: Result<
    u64,
    KernelError,
>)
    ensures
        hash == kernel.blake_2_hash_spec(hash_integer),
{
    kernel.blake_2_hash(hash_integer)
}

/// The host call `crc_hash`.
pub fn crc_hash<K: CustomKernel>(kernel: &K, hash_integer: u64) -> (hash: Result<u64, KernelError>)
    ensures
        hash == kernel.crc_hash_spec(hash_integer),
{
    kernel.crc_hash(hash_integer)
}

/// The host call `pbkdf2_hash`.
pub fn pbkdf2_hash<K: CustomKernel>(kernel: &K, password: u64, salt: u64) -> (hash: Result<
    u64,
    KernelError,
>)
    ensures
        hash == kernel.pbkdf2_hash_spec(password, salt),
{
    kernel.pbkdf2_hash(password, salt)
}

/// The host call `argon2_hash`.
pub fn argon2_hash<K: CustomKernel>(kernel: &K, password: u64, salt: u64) -> (hash: Result<
    u64,
    KernelError,
>)
    ensures
        hash == kernel.argon2_hash_spec(password, salt),
{
    kernel.argon2_hash(password, salt)
}

/// The host call `random_num`: hands back what the kernel's `random_num`
/// gave on this call.
pub fn random_num<K: CustomKernel>(kernel: &K) -> (number: Result<u64, KernelError>)
    ensures
        kernel.random_num_spec(number),
{
    kernel.random_num()
}

} // verus!
