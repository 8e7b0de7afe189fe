use customsyscall::error::KernelError;
use customsyscall::kernel::{
    add_draws, argon2_hash, blake_2_hash, checksum, crc_hash, pbkdf2_hash, random_num,
    CustomKernel, CustomKernelImpl, InjectedDraws, NormalSource, CRC_CHECK,
};

struct FixedDraws(u64, u64);

impl NormalSource for FixedDraws {
    fn normal_pair(&self) -> (u64, u64) {
        (self.0, self.1)
    }
}

fn kernel() -> CustomKernelImpl<FixedDraws> {
    CustomKernelImpl::new(FixedDraws(3, 4))
}

#[test]
fn blake_2_hash_golden_values() {
    let k = kernel();
    assert_eq!(k.blake_2_hash(0x10), Ok(305724018751009438));
    assert_eq!(k.blake_2_hash(0x11), Ok(17347241387484699811));
    assert_eq!(k.blake_2_hash(0x41), Ok(5098066250379462510));
    assert_eq!(k.blake_2_hash(0x4142), Ok(3403547691428822803));
    assert_eq!(
        k.blake_2_hash(0x4141_4141_4141_4141),
        Ok(6693109486010398183)
    );
}

#[test]
fn blake_2_hash_of_replaced_bytes() {
    let k = kernel();
    assert_eq!(k.blake_2_hash(0xff), Ok(13979978320182572984));
    assert_eq!(k.blake_2_hash(0x80), Ok(13979978320182572984));
    assert_eq!(k.blake_2_hash(0xC3A9), Ok(2474233835800517372));
}

#[test]
fn blake_2_hash_of_zero_is_pinned() {
    let k = kernel();
    assert_eq!(k.blake_2_hash(0), Err(KernelError::OddHexLength));
    assert_eq!(k.blake_2_hash(0), k.blake_2_hash(0));
}

#[test]
fn blake_2_hash_is_repeatable() {
    let a = kernel();
    let b = CustomKernelImpl::new(FixedDraws(99, 100));
    for x in [0u64, 0x10, 0x41, 0xffff, 0x1234_5678, u64::MAX] {
        assert_eq!(a.blake_2_hash(x), a.blake_2_hash(x));
        assert_eq!(a.blake_2_hash(x), b.blake_2_hash(x));
    }
}

#[test]
fn crc_check_value() {
    assert_eq!(checksum(b"123456789"), 0x60e5_7f89_c2fb_a581);
    assert_eq!(checksum(b"123456789"), CRC_CHECK);
}

#[test]
fn crc_of_nothing_is_the_initial_register() {
    assert_eq!(checksum(b""), 0xffff);
}

#[test]
fn crc_hash_golden_values() {
    let k = kernel();
    assert_eq!(k.crc_hash(0x10), Ok(16252752));
    assert_eq!(k.crc_hash(0x11), Ok(16219989));
    assert_eq!(k.crc_hash(0x41), Ok(14646853));
    assert_eq!(k.crc_hash(0x4142), Ok(3747562570));
    assert_eq!(k.crc_hash(0xff), Ok(584712175945));
    assert_eq!(
        k.crc_hash(0x4141_4141_4141_4141),
        Ok(16493559405578053219)
    );
}

#[test]
fn crc_hash_of_adjacent_inputs_differs() {
    let k = kernel();
    let a = k.crc_hash(0x10);
    let b = k.crc_hash(0x11);
    assert!(a.is_ok());
    assert!(b.is_ok());
    assert_ne!(a, b);
}

#[test]
fn crc_hash_of_zero_and_one_has_no_canonical_text() {
    let k = kernel();
    assert_eq!(k.crc_hash(0), Err(KernelError::OddHexLength));
    assert_eq!(k.crc_hash(1), Err(KernelError::OddHexLength));
}

#[test]
fn pbkdf2_hash_golden_values() {
    let k = kernel();
    assert_eq!(k.pbkdf2_hash(0x10, 0x10), Ok(11451713392700073754));
    assert_eq!(k.pbkdf2_hash(0x41, 0x41), Ok(16274100686454668091));
    assert_eq!(k.pbkdf2_hash(0x41, 0x4242), Ok(10866574788173691552));
    assert_eq!(k.pbkdf2_hash(0xff, 0xff), Ok(762932050012223095));
    assert_eq!(
        k.pbkdf2_hash(0x4141_4141_4141_4141, 0x4141_4141_4141_4141),
        Ok(14163450312462562400)
    );
}

#[test]
fn pbkdf2_hash_of_one_and_one_is_stable() {
    let k = kernel();
    let first = k.pbkdf2_hash(1, 1);
    let second = k.pbkdf2_hash(1, 1);
    assert_eq!(first, second);
    assert_eq!(first, Err(KernelError::OddHexLength));
}

#[test]
fn pbkdf2_hash_is_repeatable() {
    let a = kernel();
    let b = CustomKernelImpl::new(FixedDraws(0, 0));
    let first = a.pbkdf2_hash(0x4142, 0x4344);
    assert!(first.is_ok());
    assert_eq!(first, a.pbkdf2_hash(0x4142, 0x4344));
    assert_eq!(first, b.pbkdf2_hash(0x4142, 0x4344));
}

#[test]
fn pbkdf2_hash_refuses_either_odd_operand() {
    let k = kernel();
    assert_eq!(k.pbkdf2_hash(1, 0x41), Err(KernelError::OddHexLength));
    assert_eq!(k.pbkdf2_hash(0x41, 1), Err(KernelError::OddHexLength));
}

#[test]
fn pbkdf2_hash_tells_password_from_salt() {
    let k = kernel();
    assert_ne!(k.pbkdf2_hash(0x41, 0x4242), k.pbkdf2_hash(0x4242, 0x41));
}

fn argon2_by_hand(password: &[u8], salt: &[u8]) -> u64 {
    let config = argon2::Config {
        ad: &[],
        hash_length: 6,
        lanes: 4,
        mem_cost: 65,
        secret: &[],
        thread_mode: argon2::ThreadMode::Sequential,
        time_cost: 1,
        variant: argon2::Variant::Argon2i,
        version: argon2::Version::Version13,
    };
    let encoded = argon2::hash_encoded(password, salt, &config).unwrap();
    let parts: Vec<&str> = encoded.split('$').collect();
    let digits: String = parts[5].bytes().map(|b| format!("{:02x}", b)).collect();
    u64::from_str_radix(&digits, 16).unwrap_or(0)
}

#[test]
fn argon2_hash_golden_value() {
    let k = kernel();
    assert_eq!(
        k.argon2_hash(0x4141_4141_4141_4141, 0x4141_4141_4141_4141),
        Ok(7816613349750436941)
    );
}

#[test]
fn argon2_hash_matches_the_steps_done_by_hand() {
    let k = kernel();
    assert_eq!(
        k.argon2_hash(0x4141_4141_4141_4141, 0x4242_4242_4242_4242),
        Ok(argon2_by_hand(b"AAAAAAAA", b"BBBBBBBB"))
    );
    assert_eq!(
        k.argon2_hash(0x41, 0x3031_3233_3435_3637),
        Ok(argon2_by_hand(b"A", b"01234567"))
    );
    assert_eq!(
        k.argon2_hash(0x41, 0xffff_ffff),
        Ok(argon2_by_hand(
            b"A",
            "\u{fffd}\u{fffd}\u{fffd}\u{fffd}".as_bytes()
        ))
    );
}

#[test]
fn argon2_hash_is_repeatable() {
    let k = kernel();
    let first = k.argon2_hash(0x41, 0x4242_4242_4242_4242);
    assert!(first.is_ok());
    assert_eq!(first, k.argon2_hash(0x41, 0x4242_4242_4242_4242));
    assert_ne!(first, k.argon2_hash(0x42, 0x4242_4242_4242_4242));
}

#[test]
fn argon2_hash_refuses_a_short_salt() {
    let k = kernel();
    assert_eq!(k.argon2_hash(0x41, 0x41), Err(KernelError::Argon2Rejected));
    assert_eq!(
        k.argon2_hash(0x4141_4141_4141_4141, 0x4242_4242_4242),
        Err(KernelError::Argon2Rejected)
    );
}

#[test]
fn argon2_hash_refuses_odd_operands_first() {
    let k = kernel();
    assert_eq!(k.argon2_hash(1, 1), Err(KernelError::OddHexLength));
    assert_eq!(
        k.argon2_hash(1, 0x4242_4242_4242_4242),
        Err(KernelError::OddHexLength)
    );
    assert_eq!(k.argon2_hash(0x41, 1), Err(KernelError::OddHexLength));
}

#[test]
fn add_draws_adds() {
    assert_eq!(add_draws(0, 0), 0);
    assert_eq!(add_draws(3, 4), 7);
    assert_eq!(
        add_draws(10_000_000_000_000_000, 5_000_000_000_000_000),
        15_000_000_000_000_000
    );
}

#[test]
fn add_draws_wraps_round() {
    assert_eq!(add_draws(u64::MAX, 1), 0);
    assert_eq!(add_draws(u64::MAX, u64::MAX), u64::MAX - 1);
    assert_eq!(add_draws(1 << 63, 1 << 63), 0);
}

#[test]
fn random_num_adds_the_draws_of_the_source() {
    assert_eq!(kernel().random_num(), Ok(7));
    assert_eq!(
        CustomKernelImpl::new(FixedDraws(u64::MAX, 2)).random_num(),
        Ok(1)
    );
}

#[test]
fn random_num_of_injected_draws_is_their_wrapped_sum() {
    let k = CustomKernelImpl::new(InjectedDraws { z0: 3, z1: 4 });
    assert_eq!(k.random_num(), Ok(7));
    assert_eq!(k.random_num(), Ok(7));
    assert_eq!(random_num(&k), Ok(7));
    let wrapping = CustomKernelImpl::new(InjectedDraws { z0: u64::MAX, z1: 2 });
    assert_eq!(wrapping.random_num(), Ok(1));
    assert_eq!(random_num(&wrapping), Ok(1));
    let large = CustomKernelImpl::new(InjectedDraws {
        z0: 85_000_000_000_000_000,
        z1: 12_345_678_901_234_567,
    });
    assert_eq!(random_num(&large), Ok(97_345_678_901_234_567));
}

#[test]
fn host_calls_hand_on_to_the_kernel() {
    let k = kernel();
    assert_eq!(blake_2_hash(&k, 0x41), k.blake_2_hash(0x41));
    assert_eq!(crc_hash(&k, 0x41), k.crc_hash(0x41));
    assert_eq!(pbkdf2_hash(&k, 0x41, 0x42), k.pbkdf2_hash(0x41, 0x42));
    assert_eq!(
        argon2_hash(&k, 0x41, 0x4242_4242_4242_4242),
        k.argon2_hash(0x41, 0x4242_4242_4242_4242)
    );
    assert_eq!(random_num(&k), Ok(7));
    assert_eq!(blake_2_hash(&k, 0), Err(KernelError::OddHexLength));
}

#[test]
fn kernel_gives_the_inner_kernel_back() {
    let k = CustomKernelImpl::new(FixedDraws(5, 6));
    let inner = k.into_inner();
    assert_eq!((inner.0, inner.1), (5, 6));
}
