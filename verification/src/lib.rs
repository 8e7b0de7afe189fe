//! Deterministic cryptographic host calls for a WebAssembly virtual machine
//! kernel, and the actor that exposes them by method number.
//!
//! Every capability takes and returns unsigned 64-bit integers. An input is
//! first brought into its canonical text form by [`canonical::int_to_str`];
//! the kernel extension in [`kernel`] then hashes that text, and the actor in
//! [`actor`] routes a method number to the matching capability.

pub mod actor;
pub mod bigendian;
pub mod canonical;
pub mod encoded;
pub mod error;
pub mod events;
pub mod kernel;
pub mod primitives;
pub mod shared;
pub mod syscalls;
