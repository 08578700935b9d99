//! The declarative workload configuration: which descriptor slots the guest
//! receives, which arguments and environment variables it sees, and whether a
//! Steward issuer is consulted for the workload identity.

use vstd::prelude::*;

verus! {

/// Transport protection of a configured network slot.
#[derive(Clone, Copy, PartialEq, Eq, Structural)]
pub enum Protocol {
    Plain,
    Tls,
}

/// One configured descriptor slot. Its index in [`Config::files`] is the
/// guest-visible file descriptor number. Every slot carries a name, used for
/// the `FD_NAMES` environment binding.
pub enum Slot {
    Null { name: String },
    Stdin { name: String },
    Stdout { name: String },
    Stderr { name: String },
    Listen { name: String, addr: String, port: u16, prot: Protocol },
    Connect { name: String, host: String, port: u16, prot: Protocol },
}

impl Slot {
    /// The slot's name as a sequence of characters.
    pub open spec fn spec_name(&self) -> Seq<char> {
        match self {
            Slot::Null { name } => name@,
            Slot::Stdin { name } => name@,
            Slot::Stdout { name } => name@,
            Slot::Stderr { name } => name@,
            Slot::Listen { name, .. } => name@,
            Slot::Connect { name, .. } => name@,
        }
    }

    /// The slot's name, as bound into `FD_NAMES`.
    pub fn name(&self) -> (r: &String)
        ensures
            r@ == self.spec_name(),
    {
        match self {
            Slot::Null { name } => name,
            Slot::Stdin { name } => name,
            Slot::Stdout { name } => name,
            Slot::Stderr { name } => name,
            Slot::Listen { name, .. } => name,
            Slot::Connect { name, .. } => name,
        }
    }
}

/// The workload configuration. `env` keeps the user's insertion order, so the
/// guest observes a deterministic environment.
pub struct Config {
    /// The Steward issuer URL; absence selects the self-signed identity path.
    pub steward: Option<String>,
    /// Guest arguments; `argv[0]` is synthesized at launch.
    pub args: Vec<String>,
    /// Environment variables, in presentation order, keys unique.
    pub env: Vec<(String, String)>,
    /// Descriptor slots; the index is the guest file descriptor.
    pub files: Vec<Slot>,
}

impl Config {
    /// Environment keys are pairwise distinct.
    pub open spec fn env_keys_unique(&self) -> bool {
        forall|i: int, j: int|
            0 <= i < j < self.env@.len() ==> self.env@[i].0@ != self.env@[j].0@
    }

    /// A well-formed configuration.
    pub open spec fn wf(&self) -> bool {
        self.env_keys_unique()
    }
}

impl Default for Config {
    /// The configuration assumed when a package carries none: self-signed
    /// identity, no arguments, no environment, no descriptor slots.
    fn default() -> (r: Self)
        ensures
            r.steward is None,
            r.args@.len() == 0,
            r.env@.len() == 0,
            r.files@.len() == 0,
            r.wf(),
    {
        Config { steward: None, args: Vec::new(), env: Vec::new(), files: Vec::new() }
    }
}

} // verus!
