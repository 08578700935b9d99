//! The platform attestor's admission rules. The platform backends
//! themselves are opaque `attest(nonce) -> report` capabilities of the host;
//! this module fixes which calls they may be asked to serve and which error
//! each refusal carries.

use vstd::prelude::*;
use crate::memory::MAX_NONCE_LEN;

verus! {

/// Why an attestation request was refused.
#[derive(Clone, Copy, Debug, PartialEq, Eq, Structural)]
pub enum AttestError {
    /// The host runs in no trusted execution environment.
    NoTee,
    /// The nonce is longer than a report can bind.
    NonceTooLong,
    /// The platform backend failed while producing the report.
    PlatformError,
}

/// Admission of an attestation request: a host without a TEE refuses every
/// request, an admissible request carries a nonce of at most
/// [`MAX_NONCE_LEN`] bytes.
/// Callers treat `NoTee` as a recoverable soft error; what the backend then
/// does with an admitted request is its own affair.
pub fn attest_gate(tee_present: bool, nonce_len: usize) -> (r: Result<(), AttestError>)
    ensures
        !tee_present ==> r == Err::<(), AttestError>(AttestError::NoTee),
        tee_present && nonce_len > 64 ==> r == Err::<(), AttestError>(AttestError::NonceTooLong),
        tee_present && nonce_len <= 64 ==> r is Ok,
{
    if !tee_present {
        Err(AttestError::NoTee)
    } else if nonce_len > MAX_NONCE_LEN {
        Err(AttestError::NonceTooLong)
    } else {
        Ok(())
    }
}

} // verus!
