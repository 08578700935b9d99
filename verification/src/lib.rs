//! A confidential-computing WebAssembly launcher, modelled and verified.
//!
//! The crate holds the decision logic of the launcher: the declarative
//! configuration of descriptor slots, the provisioning plan that turns the
//! configuration into a guest-visible descriptor table together with the
//! `FD_COUNT` / `FD_NAMES` environment bindings, the guest-memory access rules
//! of the attestation host call, the routing rules of the TLS stream and of
//! the syscall shim, the identity-binding rules of the certificate flow, and
//! the interpretation of the guest's termination. The surrounding process
//! (sockets, the TLS record engine, the WebAssembly engine) performs I/O and
//! hands plain values in and out.

pub mod attest;
pub mod config;
pub mod digits;
pub mod error;
pub mod identity;
pub mod memory;
pub mod names;
pub mod provision;
pub mod runtime;
pub mod stream;
pub mod syscall;
