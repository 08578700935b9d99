//! Errors of the launcher. All pre-entry failures are fatal to the
//! invocation; a guest fault carries the exit status so the caller can tell
//! a clean `exit 0` from every other termination.

use vstd::prelude::*;
use crate::digits::{i32_to_decimal, spec_decimal_signed};

verus! {

/// A fatal launcher error.
#[derive(Debug)]
pub enum Error {
    /// More descriptor slots than file descriptor numbers.
    TooManyFiles,
    /// The Steward could not issue a certificate chain for the attested CSR.
    StewardAttestation,
    /// The self-signed certificate could not be produced.
    SelfSignedCertificates,
    /// The execution engine could not be created.
    EngineSetup,
    /// The syscall shim could not be registered.
    LinkerSetup,
    /// The module bytes could not be compiled.
    ModuleCompile,
    /// The compiled module could not be linked into the store.
    ModuleLink,
    /// A listening socket could not be set up.
    ListenSetup,
    /// An outgoing connection could not be set up.
    ConnectSetup,
    /// An environment variable could not be pushed.
    EnvironmentSetup,
    /// An argument could not be pushed.
    ArgumentSetup,
    /// The module exports no default entry function.
    NoDefaultEntry,
    /// The guest trapped, or exited with a status other than zero.
    /// `exit_status` is the guest's exit status where the fault was an exit.
    GuestFault { exit_status: Option<i32> },
}

/// The description of each error. A guest fault that was an exit names the
/// exit status, so the cause of the failure keeps the code the guest chose.
pub open spec fn spec_message(e: Error) -> Seq<char> {
    match e {
        Error::TooManyFiles => "too many open files"@,
        Error::StewardAttestation => "failed to attest to Steward"@,
        Error::SelfSignedCertificates => "failed to generate self-signed certificates"@,
        Error::EngineSetup => "failed to create execution engine"@,
        Error::LinkerSetup => "failed to setup linker and add WASI"@,
        Error::ModuleCompile => "failed to compile Wasm module"@,
        Error::ModuleLink => "failed to link module"@,
        Error::ListenSetup => "failed to setup listening socket"@,
        Error::ConnectSetup => "failed to setup connection stream"@,
        Error::EnvironmentSetup => "failed to set environment variable"@,
        Error::ArgumentSetup => "failed to push argument"@,
        Error::NoDefaultEntry => "failed to get default function"@,
        Error::GuestFault { exit_status } => match exit_status {
            Some(s) => "guest exited with status "@ + spec_decimal_signed(s as int),
            None => "guest trapped"@,
        },
    }
}

impl Error {
    /// Describe the error.
    pub fn message(&self) -> (r: String)
        ensures
            r@ == spec_message(*self),
    {
        match self {
            Error::TooManyFiles => String::from_str("too many open files"),
            Error::StewardAttestation => String::from_str("failed to attest to Steward"),
            Error::SelfSignedCertificates => String::from_str(
                "failed to generate self-signed certificates",
            ),
            Error::EngineSetup => String::from_str("failed to create execution engine"),
            Error::LinkerSetup => String::from_str("failed to setup linker and add WASI"),
            Error::ModuleCompile => String::from_str("failed to compile Wasm module"),
            Error::ModuleLink => String::from_str("failed to link module"),
            Error::ListenSetup => String::from_str("failed to setup listening socket"),
            Error::ConnectSetup => String::from_str("failed to setup connection stream"),
            Error::EnvironmentSetup => String::from_str("failed to set environment variable"),
            Error::ArgumentSetup => String::from_str("failed to push argument"),
            Error::NoDefaultEntry => String::from_str("failed to get default function"),
            Error::GuestFault { exit_status } => match exit_status {
                Some(s) => {
                    let mut m = String::from_str("guest exited with status ");
                    let d = i32_to_decimal(*s);
                    m.append(d.as_str());
                    m
                },
                None => String::from_str("guest trapped"),
            },
        }
    }
}

} // verus!
