use customsyscall::actor::Actor;
use customsyscall::error::{ActorError, KernelError};
use customsyscall::kernel::{CustomKernel, CustomKernelImpl, NormalSource};
use customsyscall::shared::{
    Argon2Params, Method, Pbkdf2Params, ARGON2_METHOD, BLAKE2_METHOD, CRC_METHOD, PBKDF2_METHOD,
    RAND_METHOD,
};

struct Draws;

impl NormalSource for Draws {
    fn normal_pair(&self) -> (u64, u64) {
        (40, 2)
    }
}

fn kernel() -> CustomKernelImpl<Draws> {
    CustomKernelImpl::new(Draws)
}

struct Untouchable;

impl CustomKernel for Untouchable {
    fn blake_2_hash(&self, _hash_integer: u64) -> Result<u64, KernelError> {
        panic!("host call made")
    }

    fn crc_hash(&self, _hash_integer: u64) -> Result<u64, KernelError> {
        panic!("host call made")
    }

    fn pbkdf2_hash(&self, _password: u64, _salt: u64) -> Result<u64, KernelError> {
        panic!("host call made")
    }

    fn argon2_hash(&self, _password: u64, _salt: u64) -> Result<u64, KernelError> {
        panic!("host call made")
    }

    fn random_num(&self) -> Result<u64, KernelError> {
        panic!("host call made")
    }
}

#[test]
fn actor_name() {
    assert_eq!(Actor::name(), "customsyscall");
}

#[test]
fn unrecognized_method_is_rejected_before_any_host_call() {
    for method in [0u64, 1, 2, BLAKE2_METHOD + 1, u64::MAX] {
        assert_eq!(
            Actor::invoke_method(&Untouchable, Ok(()), method, &[0x41]),
            Err(ActorError::UnhandledMessage { method })
        );
    }
}

#[test]
fn misshapen_payload_is_rejected_before_any_host_call() {
    let bad = Err(ActorError::IllegalArgument);
    assert_eq!(Actor::invoke_method(&Untouchable, Ok(()), BLAKE2_METHOD, &[]), bad);
    assert_eq!(Actor::invoke_method(&Untouchable, Ok(()), BLAKE2_METHOD, &[1, 2]), bad);
    assert_eq!(Actor::invoke_method(&Untouchable, Ok(()), CRC_METHOD, &[]), bad);
    assert_eq!(Actor::invoke_method(&Untouchable, Ok(()), PBKDF2_METHOD, &[1]), bad);
    assert_eq!(Actor::invoke_method(&Untouchable, Ok(()), PBKDF2_METHOD, &[1, 2, 3]), bad);
    assert_eq!(Actor::invoke_method(&Untouchable, Ok(()), ARGON2_METHOD, &[]), bad);
    assert_eq!(Actor::invoke_method(&Untouchable, Ok(()), RAND_METHOD, &[1]), bad);
}

#[test]
fn rejected_caller_reaches_no_host_call() {
    let rejected = Err(ActorError::Forbidden);
    assert_eq!(Actor::blake_2(&Untouchable, rejected, 0x41), Err(ActorError::Forbidden));
    assert_eq!(Actor::crc(&Untouchable, rejected, 0x41), Err(ActorError::Forbidden));
    assert_eq!(
        Actor::pbkdf2(&Untouchable, rejected, Pbkdf2Params { password: 0x41, salt: 0x41 }),
        Err(ActorError::Forbidden)
    );
    assert_eq!(
        Actor::argon2(&Untouchable, rejected, Argon2Params { password: 0x41, salt: 0x41 }),
        Err(ActorError::Forbidden)
    );
    assert_eq!(Actor::rand(&Untouchable, rejected), Err(ActorError::Forbidden));
    assert_eq!(
        Actor::invoke_method(&Untouchable, rejected, BLAKE2_METHOD, &[0x41]),
        Err(ActorError::Forbidden)
    );
    assert_eq!(
        Actor::invoke_method(&Untouchable, rejected, RAND_METHOD, &[]),
        Err(ActorError::Forbidden)
    );
}

#[test]
fn dispatch_gives_what_the_host_call_gives() {
    let k = kernel();
    assert_eq!(
        Actor::invoke_method(&k, Ok(()), BLAKE2_METHOD, &[0x41]),
        Ok(k.blake_2_hash(0x41).unwrap())
    );
    assert_eq!(
        Actor::invoke_method(&k, Ok(()), CRC_METHOD, &[0x4142]),
        Ok(k.crc_hash(0x4142).unwrap())
    );
    assert_eq!(
        Actor::invoke_method(&k, Ok(()), PBKDF2_METHOD, &[0x41, 0x4242]),
        Ok(k.pbkdf2_hash(0x41, 0x4242).unwrap())
    );
    assert_eq!(
        Actor::invoke_method(&k, Ok(()), ARGON2_METHOD, &[0x41, 0x4242_4242_4242_4242]),
        Ok(k.argon2_hash(0x41, 0x4242_4242_4242_4242).unwrap())
    );
    assert_eq!(Actor::invoke_method(&k, Ok(()), RAND_METHOD, &[]), Ok(42));
}

#[test]
fn dispatch_exact_values() {
    let k = kernel();
    assert_eq!(
        Actor::invoke_method(&k, Ok(()), BLAKE2_METHOD, &[0x41]),
        Ok(5098066250379462510)
    );
    assert_eq!(Actor::invoke_method(&k, Ok(()), CRC_METHOD, &[0x41]), Ok(14646853));
    assert_eq!(
        Actor::invoke_method(&k, Ok(()), PBKDF2_METHOD, &[0x41, 0x4242]),
        Ok(10866574788173691552)
    );
}

#[test]
fn dispatch_keeps_the_order_of_password_and_salt() {
    let k = kernel();
    assert_eq!(
        Actor::invoke_method(&k, Ok(()), PBKDF2_METHOD, &[0x4242, 0x41]),
        Ok(k.pbkdf2_hash(0x4242, 0x41).unwrap())
    );
    assert_ne!(
        Actor::invoke_method(&k, Ok(()), PBKDF2_METHOD, &[0x4242, 0x41]),
        Actor::invoke_method(&k, Ok(()), PBKDF2_METHOD, &[0x41, 0x4242])
    );
}

#[test]
fn failed_host_call_is_told_from_zero() {
    let k = kernel();
    assert_eq!(
        Actor::invoke_method(&k, Ok(()), BLAKE2_METHOD, &[0]),
        Err(ActorError::Computation(KernelError::OddHexLength))
    );
    assert_eq!(
        Actor::invoke_method(&k, Ok(()), ARGON2_METHOD, &[0x41, 0x41]),
        Err(ActorError::Computation(KernelError::Argon2Rejected))
    );
    assert_eq!(
        Actor::crc(&k, Ok(()), 1),
        Err(ActorError::Computation(KernelError::OddHexLength))
    );
}

#[test]
fn methods_give_what_the_host_call_gives() {
    let k = kernel();
    assert_eq!(Actor::blake_2(&k, Ok(()), 0x10), Ok(305724018751009438));
    assert_eq!(Actor::crc(&k, Ok(()), 0x10), Ok(16252752));
    assert_eq!(
        Actor::pbkdf2(&k, Ok(()), Pbkdf2Params { password: 0x10, salt: 0x10 }),
        Ok(11451713392700073754)
    );
    assert_eq!(
        Actor::argon2(
            &k,
            Ok(()),
            Argon2Params { password: 0x41, salt: 0x4242_4242_4242_4242 }
        ),
        Ok(k.argon2_hash(0x41, 0x4242_4242_4242_4242).unwrap())
    );
    assert_eq!(Actor::rand(&k, Ok(())), Ok(42));
}

#[test]
fn every_caller_is_accepted() {
    for caller in [0u64, 1, 99, u64::MAX] {
        assert_eq!(Actor::validate_immediate_caller_accept_any(caller), Ok(()));
    }
}

#[test]
fn unreadable_payload_is_refused_as_a_misshapen_one() {
    assert_eq!(Actor::refuse_unreadable(BLAKE2_METHOD), ActorError::IllegalArgument);
    assert_eq!(Actor::refuse_unreadable(RAND_METHOD), ActorError::IllegalArgument);
    assert_eq!(
        Actor::refuse_unreadable(5),
        ActorError::UnhandledMessage { method: 5 }
    );
    assert_eq!(
        Err(Actor::refuse_unreadable(5)),
        Actor::invoke_method(&Untouchable, Ok(()), 5, &[1, 2, 3])
    );
    assert_eq!(
        Err(Actor::refuse_unreadable(CRC_METHOD)),
        Actor::invoke_method(&Untouchable, Ok(()), CRC_METHOD, &[1, 2, 3])
    );
}

#[test]
fn route_resolves_method_and_shape() {
    assert_eq!(Actor::route(BLAKE2_METHOD, &[7]), Ok(Method::Blake2));
    assert_eq!(Actor::route(CRC_METHOD, &[7]), Ok(Method::Crc));
    assert_eq!(Actor::route(PBKDF2_METHOD, &[7, 8]), Ok(Method::Pbkdf2));
    assert_eq!(Actor::route(ARGON2_METHOD, &[7, 8]), Ok(Method::Argon2));
    assert_eq!(Actor::route(RAND_METHOD, &[]), Ok(Method::Rand));
    assert_eq!(Actor::route(RAND_METHOD, &[7]), Err(ActorError::IllegalArgument));
    assert_eq!(Actor::route(BLAKE2_METHOD, &[7, 8]), Err(ActorError::IllegalArgument));
    assert_eq!(Actor::route(PBKDF2_METHOD, &[7]), Err(ActorError::IllegalArgument));
    assert_eq!(Actor::route(9, &[7]), Err(ActorError::UnhandledMessage { method: 9 }));
    assert_eq!(Actor::route(9, &[]), Err(ActorError::UnhandledMessage { method: 9 }));
}

#[test]
fn reply_maps_the_outcome() {
    assert_eq!(Actor::reply(Ok(0)), Ok(0));
    assert_eq!(Actor::reply(Ok(u64::MAX)), Ok(u64::MAX));
    assert_eq!(
        Actor::reply(Err(KernelError::MalformedEncoding)),
        Err(ActorError::Computation(KernelError::MalformedEncoding))
    );
}

#[test]
fn method_numbers_round_trip() {
    for m in [Method::Blake2, Method::Crc, Method::Pbkdf2, Method::Argon2, Method::Rand] {
        assert_eq!(Method::from_u64(m.number()), Some(m));
    }
    assert_eq!(Method::from_u64(0), None);
    assert_eq!(Method::from_u64(BLAKE2_METHOD), Some(Method::Blake2));
    assert_eq!(Method::from_u64(RAND_METHOD), Some(Method::Rand));
}
