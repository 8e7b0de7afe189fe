//! Typed failures of the host calls, the syscall table and the actor.

use vstd::prelude::*;

verus! {

/// Why a host call could not compute its result.
#[derive(Debug, Clone, Copy, PartialEq, Eq, Structural)]
pub enum KernelError {
    /// The input has an odd number of hexadecimal digits, so its digits do
    /// not pair up into bytes and it has no canonical text.
    OddHexLength,
    /// Argon2 refused what it was given: the canonical salt is shorter than
    /// eight bytes.
    Argon2Rejected,
    /// An encoded Argon2 hash has fewer than six `$`-separated fields.
    MalformedEncoding,
}

/// Why a host call could not be bound to, or found under, its slot.
#[derive(Debug, Clone, Copy, PartialEq, Eq, Structural)]
pub enum LinkError {
    /// The slot already holds a binding.
    DuplicateBinding,
    /// No binding was registered under the slot.
    MissingBinding,
}

/// Why a method call on the actor failed.
#[derive(Debug, Clone, Copy, PartialEq, Eq, Structural)]
pub enum ActorError {
    /// The caller check rejected the immediate caller.
    Forbidden,
    /// No method of the actor has this number.
    UnhandledMessage { method: u64 },
    /// The payload does not have the shape that the method expects.
    IllegalArgument,
    /// The host call failed.
    Computation(KernelError),
}

} // verus!
