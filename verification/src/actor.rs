//! The actor: five methods, each of which checks the caller, hands its
//! parameters to the matching host call and returns what the host call
//! gave.
//!
//! A method call is one request and one response; the actor keeps no state
//! between calls. A host call that fails is reported as a failure of the
//! method, so that a caller can tell it from a result of zero.

use crate::error::{ActorError, KernelError};
use crate::kernel::CustomKernel;
use crate::shared::{Argon2Params, Method, Pbkdf2Params, CUSTOMSYSCALL_ACTOR_NAME};
use vstd::prelude::*;

verus! {

/// The actor that exposes the host calls.
pub struct Actor;

/// What a method returns for the outcome of its host call: the value as it
/// is, and a failure as a failure of the computation.
pub open spec fn reply_of(outcome: Result<u64, KernelError>) -> Result<u64, ActorError> {
    match outcome {
        Ok(value) => Ok(value),
        Err(e) => Err(ActorError::Computation(e)),
    }
}

/// What a method returns for the outcome of the caller check and of its
/// host call: a rejected caller is reported as it was rejected, whatever
/// the host call would have given.
pub open spec fn answer_of(
    caller_check: Result<(), ActorError>,
    outcome: Result<u64, KernelError>,
) -> Result<u64, ActorError> {
    match caller_check {
        Ok(_) => reply_of(outcome),
        Err(e) => Err(e),
    }
}

/// The number of integers in the payload of a method: one for `Blake2`
/// and `Crc`, the two fields of the record for `Pbkdf2` and `Argon2`, none
/// for `Rand`.
pub open spec fn fields_of(method: Method) -> nat {
    match method {
        Method::Blake2 => 1,
        Method::Crc => 1,
        Method::Pbkdf2 => 2,
        Method::Argon2 => 2,
        Method::Rand => 0,
    }
}

/// Where a call is routed: to the method with the number `method`, if
/// there is one and the payload has the shape of its parameters.
pub open spec fn routed(method: u64, params: Seq<u64>) -> Result<Method, ActorError> {
    match Method::with_number(method) {
        None => Err(ActorError::UnhandledMessage { method }),
        Some(m) => if params.len() == fields_of(m) {
            Ok(m)
        } else {
            Err(ActorError::IllegalArgument)
        },
    }
}

/// What the host call of `method` gives on `kernel` for a payload of the
/// method's shape, for the four methods whose host call is a function of
/// its arguments; `None` for `Rand`.
pub open spec fn host_call_of<K: CustomKernel>(kernel: &K, method: Method, params: Seq<u64>)
    -> Option<Result<u64, KernelError>> {
    match method {
        Method::Blake2 => Some(kernel.blake_2_hash_spec(params[0])),
        Method::Crc => Some(kernel.crc_hash_spec(params[0])),
        Method::Pbkdf2 => Some(kernel.pbkdf2_hash_spec(params[0], params[1])),
        Method::Argon2 => Some(kernel.argon2_hash_spec(params[0], params[1])),
        Method::Rand => None,
    }
}

/// The answer to a call, where the call determines it: a call that is not
/// routed is refused as it was not routed, a rejected caller is reported as
/// it was rejected, and any other call has the reply to its host call.
/// `None` for an accepted call of `Rand`, whose answer is not a function of
/// the call: it is the reply to whatever `random_num` gave.
pub open spec fn invoked<K: CustomKernel>(
    kernel: &K,
    caller_check: Result<(), ActorError>,
    method: u64,
    params: Seq<u64>,
) -> Option<Result<u64, ActorError>> {
    match routed(method, params) {
        Err(refusal) => Some(Err(refusal)),
        Ok(m) => match caller_check {
            Err(e) => Some(Err(e)),
            Ok(_) => match host_call_of(kernel, m, params) {
                Some(outcome) => Some(reply_of(outcome)),
                None => None,
            },
        },
    }
}

impl Actor {
    /// The name of the actor.
    pub fn name() -> (name: &'static str)
        ensures
            name == CUSTOMSYSCALL_ACTOR_NAME,
    {
        CUSTOMSYSCALL_ACTOR_NAME
    }

    /// The caller check of the five methods: every caller is accepted.
    pub fn validate_immediate_caller_accept_any(caller: u64) -> (caller_check: Result<
        (),
        ActorError,
    >)
        ensures
            caller_check is Ok,
    {
        Ok(())
    }

    /// The answer to a call whose payload could not be read: as with a
    /// payload of the wrong shape, a number that no method has is refused
    /// as such, and any other call for its payload.
    pub fn refuse_unreadable(method: u64) -> (refusal: ActorError)
        ensures
            refusal == match Method::with_number(method) {
                None => ActorError::UnhandledMessage { method },
                Some(_) => ActorError::IllegalArgument,
            },
            forall|params: Seq<u64>|
                params.len() > 2 ==> #[trigger] routed(method, params) == Err::<Method, ActorError>(
                    refusal,
                ),
    {
        match Method::from_u64(method) {
            None => ActorError::UnhandledMessage { method },
            Some(_) => ActorError::IllegalArgument,
        }
    }

    /// Turns the outcome of a host call into the return value of a method.
    pub fn reply(outcome: Result<u64, KernelError>) -> (answer: Result<u64, ActorError>)
        ensures
            answer == reply_of(outcome),
    {
        match outcome {
            Ok(value) => Ok(value),
            Err(e) => Err(ActorError::Computation(e)),
        }
    }

    /// The method `Blake2`: where the caller was accepted, the BLAKE2b hash
    /// that the kernel gives for `hash_integer`.
    pub fn blake_2<K: CustomKernel>(
        kernel: &K,
        caller_check: Result<(), ActorError>,
        hash_integer: u64,
    ) -> (answer: Result<u64, ActorError>)
        ensures
            answer == answer_of(caller_check, kernel.blake_2_hash_spec(hash_integer)),
    {
        match caller_check {
            Ok(_) => Actor::reply(kernel.blake_2_hash(hash_integer)),
            Err(e) => Err(e),
        }
    }

    /// The method `Crc`: where the caller was accepted, the checksum that
    /// the kernel gives for `hash_integer`.
    pub fn crc<K: CustomKernel>(
        kernel: &K,
        caller_check: Result<(), ActorError>,
        hash_integer: u64,
    ) -> (answer: Result<u64, ActorError>)
        ensures
            answer == answer_of(caller_check, kernel.crc_hash_spec(hash_integer)),
    {
        match caller_check {
            Ok(_) => Actor::reply(kernel.crc_hash(hash_integer)),
            Err(e) => Err(e),
        }
    }

    /// The method `Pbkdf2`: where the caller was accepted, the key that the
    /// kernel derives from the password and salt of `params`.
    pub fn pbkdf2<K: CustomKernel>(
        kernel: &K,
        caller_check: Result<(), ActorError>,
        params: Pbkdf2Params,
    ) -> (answer: Result<u64, ActorError>)
        ensures
            answer == answer_of(caller_check, kernel.pbkdf2_hash_spec(params.password, params.salt)),
    {
        match caller_check {
            Ok(_) => Actor::reply(kernel.pbkdf2_hash(params.password, params.salt)),
            Err(e) => Err(e),
        }
    }

    /// The method `Argon2`: where the caller was accepted, the Argon2 hash
    /// that the kernel gives for the password and salt of `params`.
    pub fn argon2<K: CustomKernel>(
        kernel: &K,
        caller_check: Result<(), ActorError>,
        params: Argon2Params,
    ) -> (answer: Result<u64, ActorError>)
        ensures
            answer == answer_of(caller_check, kernel.argon2_hash_spec(params.password, params.salt)),
    {
        match caller_check {
            Ok(_) => Actor::reply(kernel.argon2_hash(params.password, params.salt)),
            Err(e) => Err(e),
        }
    }

    /// The method `Rand`: where the caller was accepted, what the kernel's
    /// `random_num` gave on this call. Two calls need not agree.
    pub fn rand<K: CustomKernel>(kernel: &K, caller_check: Result<(), ActorError>) -> (answer:
        Result<u64, ActorError>)
        ensures
            caller_check matches Err(e) ==> answer == Err::<u64, ActorError>(e),
            caller_check is Ok ==> exists|outcome: Result<u64, KernelError>|
                kernel.random_num_spec(outcome) && answer == #[trigger] reply_of(outcome),
    {
        match caller_check {
            Ok(_) => {
                let outcome = kernel.random_num();
                let answer = Actor::reply(outcome);
                assert(kernel.random_num_spec(outcome) && answer == reply_of(outcome));
                answer
            },
            Err(e) => Err(e),
        }
    }

    /// Routes a call by its method number, without a look at the caller or
    /// the kernel. A number that no method has is refused with
    /// `UnhandledMessage`, and a payload that has not the shape of the
    /// method's parameters with `IllegalArgument`.
    pub fn route(method: u64, params: &[u64]) -> (route: Result<Method, ActorError>)
        ensures
            route == routed(method, params@),
    {
        match Method::from_u64(method) {
            None => Err(ActorError::UnhandledMessage { method }),
            Some(m) => {
                let expected: usize = match m {
                    Method::Blake2 => 1,
                    Method::Crc => 1,
                    Method::Pbkdf2 => 2,
                    Method::Argon2 => 2,
                    Method::Rand => 0,
                };
                if params.len() == expected {
                    Ok(m)
                } else {
                    Err(ActorError::IllegalArgument)
                }
            },
        }
    }

    /// Answers a call: routes it, and hands it to the method it was routed
    /// to. A call that is not routed is refused before the caller is looked
    /// at and before any host call is made.
    pub fn invoke_method<K: CustomKernel>(
        kernel: &K,
        caller_check: Result<(), ActorError>,
        method: u64,
        params: &[u64],
    ) -> (answer: Result<u64, ActorError>)
        ensures
            invoked(kernel, caller_check, method, params@) matches Some(expected) ==> answer
                == expected,
            invoked(kernel, caller_check, method, params@) is None ==> exists|
                outcome: Result<u64, KernelError>,
            |
                kernel.random_num_spec(outcome) && answer == #[trigger] reply_of(outcome),
    {
        match Actor::route(method, params) {
            Err(refusal) => Err(refusal),
            Ok(Method::Blake2) => Actor::blake_2(kernel, caller_check, params[0]),
            Ok(Method::Crc) => Actor::crc(kernel, caller_check, params[0]),
            Ok(Method::Pbkdf2) => Actor::pbkdf2(
                kernel,
                caller_check,
                Pbkdf2Params { password: params[0], salt: params[1] },
            ),
            Ok(Method::Argon2) => Actor::argon2(
                kernel,
                caller_check,
                Argon2Params { password: params[0], salt: params[1] },
            ),
            Ok(Method::Rand) => Actor::rand(kernel, caller_check),
        }
    }
}

/// A call through `invoke_method` gives what the host call gives when it is
/// made on the kernel directly with the same arguments: with the caller
/// accepted, the method returns a value exactly where the host call returns
/// it, and fails with the host call's failure exactly where that fails.
/// `Rand` is left out, since two calls of its host call need not agree.
pub proof fn lemma_dispatch_round_trip<K: CustomKernel>(
    kernel: &K,
    method: Method,
    params: Seq<u64>,
)
    requires
        method != Method::Rand,
        params.len() == fields_of(method),
    ensures
        host_call_of(kernel, method, params) is Some,
        invoked(kernel, Ok(()), method.number_of(), params) == Some(
            reply_of(host_call_of(kernel, method, params).unwrap()),
        ),
        host_call_of(kernel, method, params) matches Some(Ok(value)) ==> invoked(
            kernel,
            Ok(()),
            method.number_of(),
            params,
        ) == Some(Ok::<u64, ActorError>(value)),
        host_call_of(kernel, method, params) matches Some(Err(e)) ==> invoked(
            kernel,
            Ok(()),
            method.number_of(),
            params,
        ) == Some(Err::<u64, ActorError>(ActorError::Computation(e))),
{
}

} // verus!
