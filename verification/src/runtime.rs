//! The runtime orchestrator's decisions: the fixed engine settings, the
//! launch plan computed from a configuration, the null-filled result vector
//! for the default entry, and the interpretation of the guest's termination.

use vstd::prelude::*;
use crate::config::Config;
use crate::digits::spec_decimal;
use crate::error::Error;
use crate::names::spec_join_names;
use crate::provision::{
    build_guest_argv, build_guest_env, descriptor_matches, provision_descriptors, spec_slot_names,
    Descriptor,
};

verus! {

/// The execution engine's knobs. They trade address-space headroom for a
/// small virtual-memory footprint and must be reproduced exactly.
pub struct EngineSettings {
    pub multi_memory: bool,
    pub static_memory_maximum_size: u64,
    pub static_memory_guard_size: u64,
    pub dynamic_memory_guard_size: u64,
    pub dynamic_memory_reserved_for_growth: u64,
}

/// The fixed engine settings.
pub open spec fn spec_engine_settings(s: EngineSettings) -> bool {
    &&& s.multi_memory == true
    &&& s.static_memory_maximum_size == 0
    &&& s.static_memory_guard_size == 0
    &&& s.dynamic_memory_guard_size == 0
    &&& s.dynamic_memory_reserved_for_growth == 16 * 1024 * 1024
}

/// Produce the fixed engine settings: multiple memories on, static memory
/// disabled, no guard pages, 16 MiB reserved for dynamic memory growth.
pub fn engine_settings() -> (r: EngineSettings)
    ensures
        spec_engine_settings(r),
{
    EngineSettings {
        multi_memory: true,
        static_memory_maximum_size: 0,
        static_memory_guard_size: 0,
        dynamic_memory_guard_size: 0,
        dynamic_memory_reserved_for_growth: 16 * 1024 * 1024,
    }
}

/// One value of the guest's calling convention.
pub enum WasmVal {
    I32(i32),
    I64(i64),
    /// A 32-bit float, carried as its bit pattern.
    F32Bits(u32),
    /// A 64-bit float, carried as its bit pattern.
    F64Bits(u64),
    /// The null reference, the placeholder before the entry runs.
    NullRef,
}

/// The result vector allocated before the default entry is invoked: one
/// null placeholder per declared result.
pub fn null_results(arity: usize) -> (r: Vec<WasmVal>)
    ensures
        r@.len() == arity,
        forall|i: int| 0 <= i < arity ==> #[trigger] r@[i] is NullRef,
{
    let mut r: Vec<WasmVal> = Vec::new();
    let mut i: usize = 0;
    while i < arity
        invariant
            i <= arity,
            r@.len() == i,
            forall|k: int| 0 <= k < i ==> #[trigger] r@[k] is NullRef,
        decreases arity - i,
    {
        r.push(WasmVal::NullRef);
        i = i + 1;
    }
    r
}

/// How the invocation of the guest's default entry ended.
pub enum GuestOutcome {
    /// The entry returned normally.
    Completed,
    /// The entry trapped; `exit_status` is the exit status where the trap
    /// was a guest exit, and `None` for every other trap.
    Fault { exit_status: Option<i32> },
}

/// Everything the surrounding process needs to start the guest, computed
/// from the configuration alone.
pub struct LaunchPlan {
    /// The fixed engine settings.
    pub settings: EngineSettings,
    /// The Steward issuer to consult, or `None` for the self-signed path.
    pub steward: Option<String>,
    /// The descriptor table entries, in file-descriptor order.
    pub descriptors: Vec<Descriptor>,
    /// The guest environment: `FD_COUNT`, `FD_NAMES`, then the user's
    /// variables in order.
    pub env: Vec<(String, String)>,
    /// The guest arguments: the synthetic `argv[0]`, then the user's
    /// arguments in order.
    pub argv: Vec<String>,
}

/// The launcher.
pub struct Runtime;

impl Runtime {
    /// Compute the launch plan for a configuration. Fails only when the
    /// slot list is too long for descriptor numbers; every admissible
    /// configuration yields a plan whose descriptor table mirrors the slots
    /// one to one, in order, and whose environment and argument lists are
    /// exactly what the guest must observe.
    pub fn plan(config: &Config) -> (r: Result<LaunchPlan, Error>)
        ensures
            r is Ok <==> config.files@.len() <= 0x1_0000_0000,
            r matches Err(e) ==> e is TooManyFiles,
            r matches Ok(p) ==> {
                &&& spec_engine_settings(p.settings)
                &&& p.steward is Some <==> config.steward is Some
                &&& p.steward matches Some(u) ==> config.steward matches Some(c) && u@ == c@
                &&& p.descriptors@.len() == config.files@.len()
                &&& forall|i: int|
                    0 <= i < config.files@.len() ==> descriptor_matches(
                        #[trigger] p.descriptors@[i],
                        config.files@[i],
                    )
                &&& p.env@.len() == 2 + config.env@.len()
                &&& p.env@[0].0@ == "FD_COUNT"@
                &&& p.env@[0].1@ == spec_decimal(config.files@.len())
                &&& p.env@[1].0@ == "FD_NAMES"@
                &&& p.env@[1].1@ == spec_join_names(spec_slot_names(config.files@))
                &&& forall|i: int|
                    0 <= i < config.env@.len() ==> #[trigger] p.env@[2 + i] == config.env@[i]
                &&& p.argv@.len() == 1 + config.args@.len()
                &&& p.argv@[0]@ == "main.wasm"@
                &&& forall|i: int|
                    0 <= i < config.args@.len() ==> #[trigger] p.argv@[1 + i] == config.args@[i]
            },
    {
        let descriptors = match provision_descriptors(&config.files) {
            Ok(d) => d,
            Err(e) => {
                return Err(e);
            },
        };
        let steward = match &config.steward {
            Some(u) => Some(u.clone()),
            None => None,
        };
        Ok(LaunchPlan {
            settings: engine_settings(),
            steward,
            descriptors,
            env: build_guest_env(&config.files, &config.env),
            argv: build_guest_argv(&config.args),
        })
    }

    /// Interpret the guest's termination: a normal return, and a trap that
    /// is a guest exit with status zero, both return the result vector;
    /// every other termination is a fault that keeps the exit status.
    pub fn conclude(outcome: GuestOutcome, results: Vec<WasmVal>) -> (r: Result<
        Vec<WasmVal>,
        Error,
    >)
        ensures
            outcome is Completed ==> r == Ok::<Vec<WasmVal>, Error>(results),
            outcome matches GuestOutcome::Fault { exit_status: s } ==> if s == Some(0i32) {
                r == Ok::<Vec<WasmVal>, Error>(results)
            } else {
                r == Err::<Vec<WasmVal>, Error>(Error::GuestFault { exit_status: s })
            },
    {
        match outcome {
            GuestOutcome::Completed => Ok(results),
            GuestOutcome::Fault { exit_status } => match exit_status {
                Some(s) => if s == 0 {
                    Ok(results)
                } else {
                    Err(Error::GuestFault { exit_status: Some(s) })
                },
                None => Err(Error::GuestFault { exit_status: None }),
            },
        }
    }
}

} // verus!

