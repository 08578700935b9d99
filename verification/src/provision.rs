//! Descriptor provisioning: turning the configured slots into the plan for
//! the guest-visible descriptor table, and assembling the environment and
//! argument lists the guest observes.

use vstd::prelude::*;
use crate::config::{Protocol, Slot};
use crate::digits::{
    lemma_parse_decimal_roundtrip, spec_decimal, spec_parse_decimal, u64_to_decimal,
};
use crate::error::Error;
use crate::names::{
    has_no_colon, join_names, lemma_split_join, spec_join_names, spec_split_colon, views_of,
};

verus! {

/// What kind of host object backs one descriptor-table entry.
pub enum DescriptorKind {
    /// A sink: end of file on read, writes discarded.
    NullDevice,
    /// The host's standard input stream.
    HostStdin,
    /// The host's standard output stream.
    HostStdout,
    /// The host's standard error stream.
    HostStderr,
    /// A TCP listener bound to `addr:port`, handing out raw streams.
    TcpListener { addr: String, port: u16 },
    /// A TCP listener bound to `addr:port` whose accepted streams complete a
    /// TLS server handshake with the workload identity before the guest sees
    /// them.
    TlsListener { addr: String, port: u16 },
    /// An outgoing TCP stream to `host:port`.
    TcpConnect { host: String, port: u16 },
    /// An outgoing TCP stream to `host:port`, wrapped in a TLS client
    /// handshake against `host` with the workload identity.
    TlsConnect { host: String, port: u16 },
}

/// One planned descriptor-table entry.
pub struct Descriptor {
    /// The slot name, as bound into `FD_NAMES`.
    pub name: String,
    /// The host object to construct for this entry.
    pub kind: DescriptorKind,
}

/// The entry planned for a slot: the name carries over, and the kind follows
/// the slot's tag and its transport protection.
pub open spec fn descriptor_matches(d: Descriptor, s: Slot) -> bool {
    d.name@ == s.spec_name() && match s {
        Slot::Null { .. } => d.kind is NullDevice,
        Slot::Stdin { .. } => d.kind is HostStdin,
        Slot::Stdout { .. } => d.kind is HostStdout,
        Slot::Stderr { .. } => d.kind is HostStderr,
        Slot::Listen { addr, port, prot, .. } => match prot {
            Protocol::Tls => {
                &&& d.kind matches DescriptorKind::TlsListener { addr: a, port: p }
                &&& a@ == addr@
                &&& p == port
            },
            Protocol::Plain => {
                &&& d.kind matches DescriptorKind::TcpListener { addr: a, port: p }
                &&& a@ == addr@
                &&& p == port
            },
        },
        Slot::Connect { host, port, prot, .. } => match prot {
            Protocol::Tls => {
                &&& d.kind matches DescriptorKind::TlsConnect { host: h, port: p }
                &&& h@ == host@
                &&& p == port
            },
            Protocol::Plain => {
                &&& d.kind matches DescriptorKind::TcpConnect { host: h, port: p }
                &&& h@ == host@
                &&& p == port
            },
        },
    }
}

/// The names of the slots, in slot order.
pub open spec fn spec_slot_names(files: Seq<Slot>) -> Seq<Seq<char>> {
    files.map_values(|s: Slot| s.spec_name())
}

/// Collect the slot names, in slot order.
pub fn slot_names(files: &Vec<Slot>) -> (r: Vec<String>)
    ensures
        r@.len() == files@.len(),
        forall|i: int| 0 <= i < files@.len() ==> #[trigger] r@[i]@ == files@[i].spec_name(),
{
    let mut r: Vec<String> = Vec::new();
    let mut i: usize = 0;
    while i < files.len()
        invariant
            i <= files@.len(),
            r@.len() == i,
            forall|k: int| 0 <= k < i ==> #[trigger] r@[k]@ == files@[k].spec_name(),
        decreases files@.len() - i,
    {
        r.push(files[i].name().clone());
        i = i + 1;
    }
    r
}

/// The value of the `FD_COUNT` binding: the slot count in decimal.
pub fn fd_count_value(files: &Vec<Slot>) -> (r: String)
    ensures
        r@ == spec_decimal(files@.len()),
{
    u64_to_decimal(files.len() as u64)
}

/// The value of the `FD_NAMES` binding: the slot names joined with `':'`.
pub fn fd_names_value(files: &Vec<Slot>) -> (r: String)
    ensures
        r@ == spec_join_names(spec_slot_names(files@)),
{
    let names = slot_names(files);
    let r = join_names(&names);
    proof {
        assert(views_of(names@) =~= spec_slot_names(files@));
    }
    r
}

/// Plan the descriptor table: entry `i` is built from `files[i]`, so the
/// table is exactly as long as the slot list and every entry keeps its
/// slot's name. Fails only when a slot index does not fit a descriptor
/// number.
pub fn provision_descriptors(files: &Vec<Slot>) -> (r: Result<Vec<Descriptor>, Error>)
    ensures
        r is Ok <==> files@.len() <= 0x1_0000_0000,
        r matches Ok(t) ==> {
            &&& t@.len() == files@.len()
            &&& forall|i: int|
                0 <= i < files@.len() ==> descriptor_matches(#[trigger] t@[i], files@[i])
        },
        r matches Err(e) ==> e is TooManyFiles,
{
    let mut out: Vec<Descriptor> = Vec::new();
    let mut fd: usize = 0;
    while fd < files.len()
        invariant
            fd <= files@.len(),
            out@.len() == fd,
            fd <= 0x1_0000_0000,
            forall|k: int| 0 <= k < fd ==> descriptor_matches(#[trigger] out@[k], files@[k]),
        decreases files@.len() - fd,
    {
        if fd > 0xffff_ffff as usize {
            return Err(Error::TooManyFiles);
        }
        let d = match &files[fd] {
            Slot::Null { name } => Descriptor { name: name.clone(), kind: DescriptorKind::NullDevice },
            Slot::Stdin { name } => Descriptor { name: name.clone(), kind: DescriptorKind::HostStdin },
            Slot::Stdout { name } => Descriptor { name: name.clone(), kind: DescriptorKind::HostStdout },
            Slot::Stderr { name } => Descriptor { name: name.clone(), kind: DescriptorKind::HostStderr },
            Slot::Listen { name, addr, port, prot } => {
                let kind = match prot {
                    Protocol::Tls => DescriptorKind::TlsListener { addr: addr.clone(), port: *port },
                    Protocol::Plain => DescriptorKind::TcpListener { addr: addr.clone(), port: *port },
                };
                Descriptor { name: name.clone(), kind }
            },
            Slot::Connect { name, host, port, prot } => {
                let kind = match prot {
                    Protocol::Tls => DescriptorKind::TlsConnect { host: host.clone(), port: *port },
                    Protocol::Plain => DescriptorKind::TcpConnect { host: host.clone(), port: *port },
                };
                Descriptor { name: name.clone(), kind }
            },
        };
        out.push(d);
        fd = fd + 1;
    }
    Ok(out)
}

/// The guest can recover the slot list's shape from its environment:
/// `FD_COUNT` — rendered by [`fd_count_value`] — parses back to the number
/// of slots, and splitting `FD_NAMES` — rendered by [`fd_names_value`] —
/// on `':'` yields exactly the slot names, in order. The splitting half
/// asks for at least one slot and colon-free names: with no slots
/// `FD_NAMES` is empty, and splitting the empty string yields one empty
/// field, not an empty list.
pub proof fn lemma_fd_bindings_recoverable(files: Seq<Slot>)
    requires
        files.len() >= 1,
        forall|i: int| 0 <= i < files.len() ==> has_no_colon(#[trigger] files[i].spec_name()),
    ensures
        spec_parse_decimal(spec_decimal(files.len())) == files.len(),
        spec_split_colon(spec_join_names(spec_slot_names(files))) == spec_slot_names(files),
{
    lemma_parse_decimal_roundtrip(files.len());
    let names = spec_slot_names(files);
    assert(forall|i: int| 0 <= i < names.len() ==> has_no_colon(#[trigger] names[i]));
    lemma_split_join(names);
}

/// The environment presented to the guest: `FD_COUNT`, then `FD_NAMES`,
/// then every user-supplied variable in configuration order.
pub fn build_guest_env(files: &Vec<Slot>, user_env: &Vec<(String, String)>) -> (r: Vec<
    (String, String),
>)
    ensures
        r@.len() == 2 + user_env@.len(),
        r@[0].0@ == "FD_COUNT"@,
        r@[0].1@ == spec_decimal(files@.len()),
        r@[1].0@ == "FD_NAMES"@,
        r@[1].1@ == spec_join_names(spec_slot_names(files@)),
        forall|i: int| 0 <= i < user_env@.len() ==> #[trigger] r@[2 + i] == user_env@[i],
{
    let mut r: Vec<(String, String)> = Vec::new();
    r.push((String::from_str("FD_COUNT"), fd_count_value(files)));
    r.push((String::from_str("FD_NAMES"), fd_names_value(files)));
    let mut i: usize = 0;
    while i < user_env.len()
        invariant
            i <= user_env@.len(),
            r@.len() == 2 + i,
            r@[0].0@ == "FD_COUNT"@,
            r@[0].1@ == spec_decimal(files@.len()),
            r@[1].0@ == "FD_NAMES"@,
            r@[1].1@ == spec_join_names(spec_slot_names(files@)),
            forall|k: int| 0 <= k < i ==> #[trigger] r@[2 + k] == user_env@[k],
        decreases user_env@.len() - i,
    {
        let pair = &user_env[i];
        r.push((pair.0.clone(), pair.1.clone()));
        i = i + 1;
    }
    r
}

/// The arguments presented to the guest: a synthetic `argv[0]` naming the
/// module, then every configured argument in order.
pub fn build_guest_argv(args: &Vec<String>) -> (r: Vec<String>)
    ensures
        r@.len() == 1 + args@.len(),
        r@[0]@ == "main.wasm"@,
        forall|i: int| 0 <= i < args@.len() ==> #[trigger] r@[1 + i] == args@[i],
{
    let mut r: Vec<String> = Vec::new();
    r.push(String::from_str("main.wasm"));
    let mut i: usize = 0;
    while i < args.len()
        invariant
            i <= args@.len(),
            r@.len() == 1 + i,
            r@[0]@ == "main.wasm"@,
            forall|k: int| 0 <= k < i ==> #[trigger] r@[1 + k] == args@[k],
        decreases args@.len() - i,
    {
        r.push(args[i].clone());
        i = i + 1;
    }
    r
}

} // verus!
