use wasmldr::attest::{attest_gate, AttestError};
use wasmldr::config::{Config, Protocol, Slot};
use wasmldr::digits::{i32_to_decimal, u64_to_decimal};
use wasmldr::error::Error;
use wasmldr::identity::{make_csr, selfsigned_chain, steward_request, tls_identity, KeyPair};
use wasmldr::memory::{read, read_nonce};
use wasmldr::provision::DescriptorKind;
use wasmldr::runtime::{engine_settings, null_results, GuestOutcome, Runtime, WasmVal};
use wasmldr::stream::{
    conclude_accept, fold_read_end, listener_route, refusal_error, split_handles, stream_route,
    Channel, HandshakeOutcome, ListenerRoute, ReadEnd, SocketOp, StreamError, StreamRoute,
};
use wasmldr::syscall::{route_syscall, Syscall, SyscallRoute};

fn cfg(files: Vec<Slot>, env: Vec<(String, String)>, args: Vec<String>) -> Config {
    Config { steward: None, args, env, files }
}

fn s(x: &str) -> String {
    String::from(x)
}

#[test]
fn descriptor_table_mirrors_slots() {
    let files = vec![
        Slot::Null { name: s("nil") },
        Slot::Stdout { name: s("out") },
        Slot::Listen { name: s("srv"), addr: s("127.0.0.1"), port: 0, prot: Protocol::Tls },
        Slot::Connect { name: s("peer"), host: s("example.test"), port: 443, prot: Protocol::Tls },
        Slot::Listen { name: s("raw"), addr: s("0.0.0.0"), port: 8080, prot: Protocol::Plain },
    ];
    let plan = Runtime::plan(&cfg(files, vec![], vec![])).unwrap();
    assert_eq!(plan.descriptors.len(), 5);
    assert_eq!(plan.descriptors[0].name.as_str(), "nil");
    assert_eq!(plan.descriptors[1].name.as_str(), "out");
    assert_eq!(plan.descriptors[2].name.as_str(), "srv");
    assert_eq!(plan.descriptors[3].name.as_str(), "peer");
    assert_eq!(plan.descriptors[4].name.as_str(), "raw");
    assert!(matches!(plan.descriptors[0].kind, DescriptorKind::NullDevice));
    assert!(matches!(plan.descriptors[1].kind, DescriptorKind::HostStdout));
    match &plan.descriptors[2].kind {
        DescriptorKind::TlsListener { addr, port } => {
            assert_eq!(addr.as_str(), "127.0.0.1");
            assert_eq!(*port, 0);
        }
        _ => panic!("wrong kind for srv"),
    }
    match &plan.descriptors[3].kind {
        DescriptorKind::TlsConnect { host, port } => {
            assert_eq!(host.as_str(), "example.test");
            assert_eq!(*port, 443);
        }
        _ => panic!("wrong kind for peer"),
    }
    assert!(matches!(plan.descriptors[4].kind, DescriptorKind::TcpListener { .. }));
}

#[test]
fn fd_count_and_names_bindings() {
    let files = vec![
        Slot::Null { name: s("a") },
        Slot::Stdin { name: s("b") },
        Slot::Stderr { name: s("c") },
    ];
    let plan = Runtime::plan(&cfg(files, vec![], vec![])).unwrap();
    assert_eq!(plan.env[0].0.as_str(), "FD_COUNT");
    assert_eq!(plan.env[0].1.as_str(), "3");
    assert_eq!(plan.env[1].0.as_str(), "FD_NAMES");
    assert_eq!(plan.env[1].1.as_str(), "a:b:c");
    let names: Vec<&str> = plan.env[1].1.split(':').collect();
    assert_eq!(names, vec!["a", "b", "c"]);
    assert_eq!(plan.env[0].1.parse::<usize>().unwrap(), 3);
}

#[test]
fn argv_starts_with_module_name() {
    let plan = Runtime::plan(&cfg(vec![], vec![], vec![s("x"), s("y")])).unwrap();
    assert_eq!(plan.argv.len(), 3);
    assert_eq!(plan.argv[0].as_str(), "main.wasm");
    assert_eq!(plan.argv[1].as_str(), "x");
    assert_eq!(plan.argv[2].as_str(), "y");
}

#[test]
fn empty_files_give_empty_bindings() {
    let plan = Runtime::plan(&cfg(vec![], vec![], vec![])).unwrap();
    assert_eq!(plan.descriptors.len(), 0);
    assert_eq!(plan.env[0].1.as_str(), "0");
    assert_eq!(plan.env[1].1.as_str(), "");
    assert_eq!(plan.env.len(), 2);
}

#[test]
fn env_and_args_plumbing() {
    let files = vec![Slot::Stdout { name: s("out") }];
    let env = vec![(s("K"), s("V"))];
    let args = vec![s("a"), s("b")];
    let plan = Runtime::plan(&cfg(files, env, args)).unwrap();
    assert_eq!(plan.argv, vec![s("main.wasm"), s("a"), s("b")]);
    assert_eq!(plan.env.len(), 3);
    assert_eq!(plan.env[0], (s("FD_COUNT"), s("1")));
    assert_eq!(plan.env[1], (s("FD_NAMES"), s("out")));
    assert_eq!(plan.env[2], (s("K"), s("V")));
}

#[test]
fn steward_url_carries_over() {
    let mut c = cfg(vec![], vec![], vec![]);
    c.steward = Some(s("https://steward.example"));
    let plan = Runtime::plan(&c).unwrap();
    assert_eq!(plan.steward.as_deref(), Some("https://steward.example"));
    let plain = Runtime::plan(&cfg(vec![], vec![], vec![])).unwrap();
    assert!(plain.steward.is_none());
}

#[test]
fn engine_settings_are_fixed() {
    let k = engine_settings();
    assert!(k.multi_memory);
    assert_eq!(k.static_memory_maximum_size, 0);
    assert_eq!(k.static_memory_guard_size, 0);
    assert_eq!(k.dynamic_memory_guard_size, 0);
    assert_eq!(k.dynamic_memory_reserved_for_growth, 16 * 1024 * 1024);
}

#[test]
fn exit_zero_returns_results() {
    let results = null_results(0);
    let r = Runtime::conclude(GuestOutcome::Fault { exit_status: Some(0) }, results);
    assert!(matches!(r, Ok(v) if v.is_empty()));
    let r2 = Runtime::conclude(GuestOutcome::Completed, null_results(2));
    match r2 {
        Ok(v) => {
            assert_eq!(v.len(), 2);
            assert!(v.iter().all(|x| matches!(x, WasmVal::NullRef)));
        }
        Err(_) => panic!("completed run must return the result vector"),
    }
}

#[test]
fn exit_one_fails_with_the_code() {
    let r = Runtime::conclude(GuestOutcome::Fault { exit_status: Some(1) }, null_results(0));
    match r {
        Err(Error::GuestFault { exit_status }) => {
            assert_eq!(exit_status, Some(1));
            let msg = Error::GuestFault { exit_status }.message();
            assert!(msg.contains("1"), "cause must include the exit code: {msg}");
            assert_eq!(msg.as_str(), "guest exited with status 1");
        }
        _ => panic!("exit 1 must fail"),
    }
}

#[test]
fn plain_trap_fails_without_status() {
    let r = Runtime::conclude(GuestOutcome::Fault { exit_status: None }, null_results(0));
    match r {
        Err(Error::GuestFault { exit_status }) => {
            assert_eq!(exit_status, None);
            assert_eq!(Error::GuestFault { exit_status }.message().as_str(), "guest trapped");
        }
        _ => panic!("a trap must fail the invocation"),
    }
}

#[test]
fn decimal_rendering() {
    assert_eq!(u64_to_decimal(0).as_str(), "0");
    assert_eq!(u64_to_decimal(7).as_str(), "7");
    assert_eq!(u64_to_decimal(40961).as_str(), "40961");
    assert_eq!(u64_to_decimal(u64::MAX).as_str(), "18446744073709551615");
    assert_eq!(i32_to_decimal(-7).as_str(), "-7");
    assert_eq!(i32_to_decimal(i32::MIN).as_str(), "-2147483648");
}

#[test]
fn unsupported_syscalls_trap_by_name() {
    match route_syscall(&Syscall::SockSend) {
        SyscallRoute::Trap { message } => {
            assert!(message.contains("sock_send unsupported"));
        }
        SyscallRoute::Delegate => panic!("sock_send must trap"),
    }
    match route_syscall(&Syscall::ProcRaise) {
        SyscallRoute::Trap { message } => assert_eq!(message.as_str(), "proc_raise unsupported"),
        SyscallRoute::Delegate => panic!("proc_raise must trap"),
    }
    match route_syscall(&Syscall::SockRecv) {
        SyscallRoute::Trap { message } => assert_eq!(message.as_str(), "sock_recv unsupported"),
        SyscallRoute::Delegate => panic!("sock_recv must trap"),
    }
    match route_syscall(&Syscall::SockShutdown) {
        SyscallRoute::Trap { message } => {
            assert_eq!(message.as_str(), "sock_shutdown unsupported")
        }
        SyscallRoute::Delegate => panic!("sock_shutdown must trap"),
    }
    assert!(matches!(route_syscall(&Syscall::FdRead), SyscallRoute::Delegate));
    assert!(matches!(route_syscall(&Syscall::PollOneoff), SyscallRoute::Delegate));
    assert!(matches!(route_syscall(&Syscall::ProcExit), SyscallRoute::Delegate));
    assert!(matches!(route_syscall(&Syscall::RandomGet), SyscallRoute::Delegate));
}

#[test]
fn stream_routing_rules() {
    assert!(matches!(stream_route(&SocketOp::ReadVectored), StreamRoute::TlsRead));
    assert!(matches!(stream_route(&SocketOp::WriteVectored), StreamRoute::TlsWrite));
    assert!(matches!(stream_route(&SocketOp::Seek), StreamRoute::BadDescriptor));
    assert!(matches!(stream_route(&SocketOp::Peek), StreamRoute::BadDescriptor));
    assert!(matches!(stream_route(&SocketOp::ReadVectoredAt), StreamRoute::BadDescriptor));
    assert!(matches!(stream_route(&SocketOp::WriteVectoredAt), StreamRoute::BadDescriptor));
    assert!(matches!(stream_route(&SocketOp::GetFilestat), StreamRoute::Mirror));
    assert!(matches!(stream_route(&SocketOp::Readable), StreamRoute::Mirror));
    assert!(matches!(listener_route(&SocketOp::SockAccept), ListenerRoute::AcceptTls));
    assert!(matches!(listener_route(&SocketOp::ReadVectored), ListenerRoute::Mirror));
    assert_eq!(
        refusal_error(&stream_route(&SocketOp::Seek)),
        Some(StreamError::BadDescriptor)
    );
    assert_eq!(refusal_error(&stream_route(&SocketOp::ReadVectored)), None);
}

#[test]
fn clean_close_reads_zero() {
    assert_eq!(fold_read_end(&ReadEnd::UnexpectedEof), Ok(0));
    assert_eq!(fold_read_end(&ReadEnd::Delivered { n: 11 }), Ok(11));
    assert!(matches!(fold_read_end(&ReadEnd::Failed), Err(StreamError::Io)));
}

#[test]
fn channel_delivers_plaintext_in_order() {
    let mut ch = Channel::new();
    ch.peer_deliver(&b"hello world".to_vec());
    let first = ch.guest_read(5);
    assert_eq!(first, b"hello");
    let rest = ch.guest_read(100);
    assert_eq!(rest, b" world");
    ch.peer_close();
    let after_close = ch.guest_read(16);
    assert!(after_close.is_empty());
    ch.guest_write(&b"PING".to_vec());
    ch.guest_write(&b"PONG".to_vec());
    assert_eq!(ch.guest_sent, b"PINGPONG");
}

#[test]
fn peer_close_mid_read_is_end_of_stream() {
    let mut ch = Channel::new();
    // records for "PONG" arrive together with the peer's clean close
    let got = wasmldr::stream::stream_read(&mut ch, &b"PONG".to_vec(), true, 4);
    assert_eq!(got, b"PONG");
    // the next read finds nothing pending on a closed stream: zero bytes
    let got = wasmldr::stream::stream_read(&mut ch, &vec![], false, 16);
    assert!(got.is_empty());
    assert!(ch.peer_closed);
}

#[test]
fn stream_handles_close_once() {
    let h = split_handles(17);
    assert_eq!(h.io.fd, 17);
    assert_eq!(h.mirror.fd, 17);
    assert!(!h.io.closes_on_drop);
    assert!(h.mirror.closes_on_drop);
}

#[test]
fn accept_hands_out_only_completed_handshakes() {
    let ok = conclude_accept(&HandshakeOutcome::Complete, 9).unwrap();
    assert_eq!(ok.io.fd, 9);
    assert!(!ok.io.closes_on_drop && ok.mirror.closes_on_drop);
    assert!(matches!(
        conclude_accept(&HandshakeOutcome::Failed, 9),
        Err(StreamError::Io)
    ));
}

#[test]
fn guest_memory_read_bounds() {
    let mem: Vec<u8> = (0u8..16).collect();
    assert_eq!(read(&mem, 4, 4), Some(vec![4, 5, 6, 7]));
    assert_eq!(read(&mem, 0, 16), Some((0u8..16).collect()));
    assert_eq!(read(&mem, 13, 4), None);
    assert_eq!(read(&mem, -1, 1), None);
    assert_eq!(read(&mem, 0, -1), None);
    assert_eq!(read(&mem, 16, 0), Some(vec![]));
}

#[test]
fn guest_memory_write_is_bounded_and_silent() {
    let mut mem = vec![0xAAu8; 256];
    // an out-of-range target leaves every byte untouched
    wasmldr::memory::write(&mut mem, 200, 100, &vec![1u8; 100]);
    assert_eq!(mem, vec![0xAAu8; 256]);
    // a capped write places min(|data|, cap) bytes and nothing else
    wasmldr::memory::write(&mut mem, 10, 2, &vec![1u8, 2, 3, 4]);
    assert_eq!(&mem[..10], &[0xAAu8; 10][..]);
    assert_eq!(&mem[10..12], &[1u8, 2][..]);
    assert_eq!(&mem[12..], &vec![0xAAu8; 244][..]);
}

#[test]
fn oversize_nonce_is_a_silent_no_op() {
    let mem = vec![0xAAu8; 256];
    assert_eq!(read_nonce(&mem, 0, 65), None);
    assert_eq!(mem, vec![0xAAu8; 256]);
    assert_eq!(read_nonce(&mem, 0, 16), Some(vec![0xAAu8; 16]));
}

#[test]
fn attestation_no_op_on_bare_metal() {
    // a non-TEE host refuses every request, so the host call writes nothing
    assert_eq!(attest_gate(false, 16), Err(AttestError::NoTee));
    let mem = vec![0xAAu8; 256];
    let nonce = read_nonce(&mem, 0, 16).unwrap();
    assert_eq!(nonce.len(), 16);
    assert_eq!(mem, vec![0xAAu8; 256]);
}

#[test]
fn attest_gate_admission() {
    assert_eq!(attest_gate(true, 64), Ok(()));
    assert_eq!(attest_gate(true, 0), Ok(()));
    assert_eq!(attest_gate(true, 65), Err(AttestError::NonceTooLong));
    assert_eq!(attest_gate(false, 0), Err(AttestError::NoTee));
}

#[test]
fn identity_key_binding() {
    let kp = KeyPair { public_der: vec![0x30, 0x59, 0x13, 0x37], secret_handle: 1 };
    let csr = make_csr(&kp);
    assert_eq!(csr.public_key_der, kp.public_der);
    let req = steward_request(csr, vec![0xAB; 32]);
    assert_eq!(req.csr.public_key_der, kp.public_der);
    assert_eq!(req.attestation, vec![0xAB; 32]);
    let chain = selfsigned_chain(&kp);
    assert_eq!(chain.certs.len(), 1);
    assert_eq!(chain.certs[0].subject_public_key_der, kp.public_der);
    let ident = tls_identity(chain, &kp);
    assert_eq!(ident.key_public_der, kp.public_der);
    assert_eq!(ident.chain.certs[0].subject_public_key_der, ident.key_public_der);
}

#[test]
fn error_messages() {
    assert_eq!(Error::TooManyFiles.message().as_str(), "too many open files");
    assert_eq!(
        Error::StewardAttestation.message().as_str(),
        "failed to attest to Steward"
    );
    assert_eq!(
        Error::SelfSignedCertificates.message().as_str(),
        "failed to generate self-signed certificates"
    );
    assert_eq!(
        Error::GuestFault { exit_status: Some(-3) }.message().as_str(),
        "guest exited with status -3"
    );
}

#[test]
fn slot_names_accessor() {
    let slot = Slot::Listen { name: s("srv"), addr: s("::1"), port: 443, prot: Protocol::Plain };
    assert_eq!(slot.name().as_str(), "srv");
    assert_eq!(Slot::Null { name: s("nil") }.name().as_str(), "nil");
}

#[test]
fn default_config_is_empty() {
    let c = Config::default();
    assert!(c.steward.is_none());
    assert!(c.args.is_empty());
    assert!(c.env.is_empty());
    assert!(c.files.is_empty());
}
