//! The TLS stream and listener: which file operations go to the TLS state,
//! which are refused, and which are answered by the mirror handle; the
//! plaintext ordering the stream guarantees; the mapping of a clean peer
//! close to a zero-byte read; and the single-close rule for the two handles
//! over one socket descriptor.

use vstd::prelude::*;

verus! {

/// An error surfaced by a stream operation.
#[derive(Clone, Copy, Debug, PartialEq, Eq, Structural)]
pub enum StreamError {
    /// An I/O failure, cause chain preserved by the surrounding process.
    Io,
    /// The operation is not meaningful on a socket.
    BadDescriptor,
}

/// The file operations of the sandboxed descriptor interface, as they
/// arrive at a stream or listener.
pub enum SocketOp {
    SockAccept,
    Datasync,
    Sync,
    GetFiletype,
    GetFdflags,
    SetFdflags,
    GetFilestat,
    SetFilestatSize,
    Advise,
    Allocate,
    SetTimes,
    ReadVectored,
    ReadVectoredAt,
    WriteVectored,
    WriteVectoredAt,
    Seek,
    Peek,
    NumReadyBytes,
    Isatty,
    Readable,
    Writable,
}

/// Where a TLS stream sends one operation.
pub enum StreamRoute {
    /// Through the TLS state: pull and process records, then deliver
    /// plaintext.
    TlsRead,
    /// Through the TLS state: accept plaintext, then drain records.
    TlsWrite,
    /// Refused: sockets are not seekable.
    BadDescriptor,
    /// Answered by the mirror handle over the same socket descriptor.
    Mirror,
}

/// A stream's routing: vectored reads and writes run the TLS state;
/// positioned reads and writes, seek and peek are refused; everything else
/// is answered by the mirror handle.
pub open spec fn spec_stream_route(op: SocketOp) -> StreamRoute {
    match op {
        SocketOp::ReadVectored => StreamRoute::TlsRead,
        SocketOp::WriteVectored => StreamRoute::TlsWrite,
        SocketOp::ReadVectoredAt => StreamRoute::BadDescriptor,
        SocketOp::WriteVectoredAt => StreamRoute::BadDescriptor,
        SocketOp::Seek => StreamRoute::BadDescriptor,
        SocketOp::Peek => StreamRoute::BadDescriptor,
        _ => StreamRoute::Mirror,
    }
}

/// Route one operation on a TLS stream.
pub fn stream_route(op: &SocketOp) -> (r: StreamRoute)
    ensures
        r == spec_stream_route(*op),
{
    match op {
        SocketOp::ReadVectored => StreamRoute::TlsRead,
        SocketOp::WriteVectored => StreamRoute::TlsWrite,
        SocketOp::ReadVectoredAt => StreamRoute::BadDescriptor,
        SocketOp::WriteVectoredAt => StreamRoute::BadDescriptor,
        SocketOp::Seek => StreamRoute::BadDescriptor,
        SocketOp::Peek => StreamRoute::BadDescriptor,
        _ => StreamRoute::Mirror,
    }
}

/// The error a stream reports for an operation its routing refuses:
/// seeking a socket is a bad-file-descriptor error, and nothing else is
/// refused outright.
pub fn refusal_error(r: &StreamRoute) -> (e: Option<StreamError>)
    ensures
        r is BadDescriptor <==> e == Some(StreamError::BadDescriptor),
        !(r is BadDescriptor) ==> e is None,
{
    match r {
        StreamRoute::BadDescriptor => Some(StreamError::BadDescriptor),
        _ => None,
    }
}

/// Where a TLS listener sends one operation.
pub enum ListenerRoute {
    /// Accept a connection and complete the TLS server handshake before
    /// the guest sees the new stream.
    AcceptTls,
    /// Answered by the mirror handle over the listening descriptor.
    Mirror,
}

/// A listener's routing: only accept runs the TLS handshake; every other
/// operation is answered by the mirror handle.
pub open spec fn spec_listener_route(op: SocketOp) -> ListenerRoute {
    match op {
        SocketOp::SockAccept => ListenerRoute::AcceptTls,
        _ => ListenerRoute::Mirror,
    }
}

/// Route one operation on a TLS listener.
pub fn listener_route(op: &SocketOp) -> (r: ListenerRoute)
    ensures
        r == spec_listener_route(*op),
{
    match op {
        SocketOp::SockAccept => ListenerRoute::AcceptTls,
        _ => ListenerRoute::Mirror,
    }
}

/// How the plaintext reader of the TLS state ended one vectored read.
pub enum ReadEnd {
    /// It delivered `n` bytes.
    Delivered { n: u64 },
    /// It hit an unexpected end of the record stream: the peer closed.
    UnexpectedEof,
    /// It failed for any other reason.
    Failed,
}

/// Fold the plaintext reader's ending into the guest's result: a clean
/// close from the peer is a zero-byte read, not an error.
pub fn fold_read_end(e: &ReadEnd) -> (r: Result<u64, StreamError>)
    ensures
        e matches ReadEnd::Delivered { n } ==> r == Ok::<u64, StreamError>(*n),
        e is UnexpectedEof ==> r == Ok::<u64, StreamError>(0u64),
        e is Failed ==> r == Err::<u64, StreamError>(StreamError::Io),
{
    match e {
        ReadEnd::Delivered { n } => Ok(*n),
        ReadEnd::UnexpectedEof => Ok(0),
        ReadEnd::Failed => Err(StreamError::Io),
    }
}

/// The plaintext channel of one TLS stream: what the peer's records have
/// decrypted to so far, how much of it the guest has been handed, what the
/// guest has written, and whether the peer has closed.
pub struct Channel {
    /// Plaintext decrypted from the peer's records, in arrival order.
    pub peer_sent: Vec<u8>,
    /// How many of those bytes the guest has been handed.
    pub delivered: usize,
    /// Plaintext accepted from the guest, in write order.
    pub guest_sent: Vec<u8>,
    /// Whether the peer has closed its write direction cleanly.
    pub peer_closed: bool,
}

impl Channel {
    /// The guest never receives bytes the peer has not sent.
    pub open spec fn wf(&self) -> bool {
        self.delivered <= self.peer_sent@.len()
    }

    /// The bytes handed to the guest so far.
    pub open spec fn delivered_bytes(&self) -> Seq<u8> {
        self.peer_sent@.take(self.delivered as int)
    }

    /// An idle channel for a fresh stream.
    pub fn new() -> (r: Channel)
        ensures
            r.wf(),
            r.peer_sent@.len() == 0,
            r.delivered == 0,
            r.guest_sent@.len() == 0,
            !r.peer_closed,
    {
        Channel { peer_sent: Vec::new(), delivered: 0, guest_sent: Vec::new(), peer_closed: false }
    }

    /// Record plaintext decrypted from newly processed records.
    pub fn peer_deliver(&mut self, data: &Vec<u8>)
        requires
            old(self).wf(),
        ensures
            final(self).wf(),
            final(self).peer_sent@ == old(self).peer_sent@ + data@,
            final(self).delivered == old(self).delivered,
            final(self).guest_sent == old(self).guest_sent,
            final(self).peer_closed == old(self).peer_closed,
    {
        let mut i: usize = 0;
        while i < data.len()
            invariant
                old(self).wf(),
                i <= data@.len(),
                self.peer_sent@ == old(self).peer_sent@ + data@.take(i as int),
                self.delivered == old(self).delivered,
                self.guest_sent == old(self).guest_sent,
                self.peer_closed == old(self).peer_closed,
            decreases data@.len() - i,
        {
            self.peer_sent.push(data[i]);
            proof {
                assert(old(self).peer_sent@ + data@.take(i as int) + seq![data@[i as int]]
                    =~= old(self).peer_sent@ + data@.take(i + 1));
            }
            i = i + 1;
        }
        proof {
            assert(data@.take(data@.len() as int) =~= data@);
        }
    }

    /// Record a clean close of the peer's write direction.
    pub fn peer_close(&mut self)
        requires
            old(self).wf(),
        ensures
            final(self).wf(),
            final(self).peer_closed,
            final(self).peer_sent == old(self).peer_sent,
            final(self).delivered == old(self).delivered,
            final(self).guest_sent == old(self).guest_sent,
    {
        self.peer_closed = true;
    }

    /// Deliver up to `want` plaintext bytes to the guest: exactly the next
    /// pending bytes, in order. With nothing pending the read delivers
    /// zero bytes — in particular after a clean close by the peer.
    pub fn guest_read(&mut self, want: usize) -> (out: Vec<u8>)
        requires
            old(self).wf(),
        ensures
            final(self).wf(),
            final(self).peer_sent == old(self).peer_sent,
            final(self).guest_sent == old(self).guest_sent,
            final(self).peer_closed == old(self).peer_closed,
            ({
                let avail = old(self).peer_sent@.len() - old(self).delivered;
                let n = if want <= avail {
                    want as int
                } else {
                    avail
                };
                &&& out@ == old(self).peer_sent@.subrange(
                    old(self).delivered as int,
                    old(self).delivered + n,
                )
                &&& final(self).delivered == old(self).delivered + n
            }),
            old(self).delivered == old(self).peer_sent@.len() ==> out@.len() == 0,
    {
        let avail = self.peer_sent.len() - self.delivered;
        let n = if want <= avail {
            want
        } else {
            avail
        };
        let start = self.delivered;
        let mut out: Vec<u8> = Vec::new();
        let mut i: usize = 0;
        while i < n
            invariant
                start + n <= self.peer_sent@.len(),
                start + n <= usize::MAX,
                i <= n,
                out@.len() == i,
                forall|k: int| 0 <= k < i ==> out@[k] == self.peer_sent@[start + k],
                self.peer_sent == old(self).peer_sent,
                self.guest_sent == old(self).guest_sent,
                self.peer_closed == old(self).peer_closed,
                self.delivered == start,
            decreases n - i,
        {
            out.push(self.peer_sent[start + i]);
            i = i + 1;
        }
        self.delivered = self.delivered + n;
        proof {
            assert(out@ =~= old(self).peer_sent@.subrange(
                start as int,
                start as int + n as int,
            ));
        }
        out
    }

    /// Accept plaintext from the guest: it is appended, so it reaches the
    /// peer in write order.
    pub fn guest_write(&mut self, data: &Vec<u8>)
        requires
            old(self).wf(),
        ensures
            final(self).wf(),
            final(self).guest_sent@ == old(self).guest_sent@ + data@,
            final(self).peer_sent == old(self).peer_sent,
            final(self).delivered == old(self).delivered,
            final(self).peer_closed == old(self).peer_closed,
    {
        let mut i: usize = 0;
        while i < data.len()
            invariant
                i <= data@.len(),
                self.guest_sent@ == old(self).guest_sent@ + data@.take(i as int),
                self.peer_sent == old(self).peer_sent,
                self.delivered == old(self).delivered,
                self.peer_closed == old(self).peer_closed,
                old(self).wf(),
            decreases data@.len() - i,
        {
            self.guest_sent.push(data[i]);
            proof {
                assert(old(self).guest_sent@ + data@.take(i as int) + seq![data@[i as int]]
                    =~= old(self).guest_sent@ + data@.take(i + 1));
            }
            i = i + 1;
        }
        proof {
            assert(data@.take(data@.len() as int) =~= data@);
        }
    }
}

/// One whole vectored read on a TLS stream, over the plaintext channel:
/// first the plaintext of any newly processed records arrives (with the
/// peer's clean close, where one was seen), then up to `want` of the
/// pending bytes are delivered in order. A read that finds nothing
/// pending delivers zero bytes; after a clean close by the peer that is
/// the non-error end-of-stream the guest observes.
pub fn stream_read(
    ch: &mut Channel,
    decrypted: &Vec<u8>,
    peer_closed_now: bool,
    want: usize,
) -> (out: Vec<u8>)
    requires
        old(ch).wf(),
    ensures
        final(ch).wf(),
        final(ch).peer_sent@ == old(ch).peer_sent@ + decrypted@,
        final(ch).guest_sent == old(ch).guest_sent,
        final(ch).peer_closed == (old(ch).peer_closed || peer_closed_now),
        ({
            let pending = old(ch).peer_sent@ + decrypted@;
            let avail = pending.len() - old(ch).delivered;
            let n = if want <= avail {
                want as int
            } else {
                avail
            };
            &&& out@ == pending.subrange(old(ch).delivered as int, old(ch).delivered + n)
            &&& final(ch).delivered == old(ch).delivered + n
        }),
        old(ch).delivered == old(ch).peer_sent@.len() && decrypted@.len() == 0 ==> out@.len()
            == 0,
{
    ch.peer_deliver(decrypted);
    if peer_closed_now {
        ch.peer_close();
    }
    ch.guest_read(want)
}

/// For any interleaving of reads and writes on one stream, the plaintext
/// handed to the guest is a prefix of what the peer wrote, in order; the
/// plaintext accepted from the guest is kept in write order (see
/// [`Channel::guest_write`]).
pub proof fn lemma_delivered_is_prefix(c: Channel)
    requires
        c.wf(),
    ensures
        c.delivered_bytes().is_prefix_of(c.peer_sent@),
{
    assert(c.delivered_bytes() =~= c.peer_sent@.subrange(0, c.delivered as int));
}

/// One of the two views a stream keeps of its socket descriptor.
pub struct FdView {
    /// The OS file descriptor.
    pub fd: i32,
    /// Whether this view closes the descriptor when it is dropped.
    pub closes_on_drop: bool,
}

/// The two views a TLS stream keeps of one socket descriptor: the I/O view
/// the TLS state reads and writes under the stream's lock, with its close
/// suppressed, and the mirror view that answers stat and poll calls and
/// owns the close.
pub struct StreamHandles {
    /// The I/O view; never closes.
    pub io: FdView,
    /// The mirror view; closes the descriptor.
    pub mirror: FdView,
}

impl StreamHandles {
    /// Both views watch the same descriptor and exactly the mirror closes
    /// it.
    pub open spec fn wf(&self) -> bool {
        &&& self.io.fd == self.mirror.fd
        &&& !self.io.closes_on_drop
        &&& self.mirror.closes_on_drop
    }

    /// How many of the two views close the descriptor on teardown.
    pub open spec fn spec_close_count(&self) -> int {
        (if self.io.closes_on_drop {
            1int
        } else {
            0int
        }) + (if self.mirror.closes_on_drop {
            1int
        } else {
            0int
        })
    }
}

/// Split one socket descriptor into the stream's two views: the I/O view
/// with its close suppressed, and the closing mirror view.
pub fn split_handles(fd: i32) -> (r: StreamHandles)
    ensures
        r.wf(),
        r.io.fd == fd,
{
    StreamHandles {
        io: FdView { fd, closes_on_drop: false },
        mirror: FdView { fd, closes_on_drop: true },
    }
}

/// Tearing a TLS stream down closes the underlying OS descriptor exactly
/// once: of its two views, the mirror alone closes.
pub proof fn lemma_stream_closes_fd_once(h: StreamHandles)
    requires
        h.wf(),
    ensures
        h.spec_close_count() == 1,
{
}

/// How driving the TLS handshake on an accepted connection ended.
pub enum HandshakeOutcome {
    /// The handshake completed.
    Complete,
    /// The handshake, or the accept itself, failed.
    Failed,
}

/// Conclude an accept on a TLS listener: the guest receives a new stream —
/// its two descriptor views well-formed — exactly when the handshake
/// completed; every failure surfaces as an I/O error.
pub fn conclude_accept(h: &HandshakeOutcome, fd: i32) -> (r: Result<StreamHandles, StreamError>)
    ensures
        h is Complete <==> r is Ok,
        r matches Ok(s) ==> s.wf() && s.io.fd == fd,
        r matches Err(e) ==> e is Io,
{
    match h {
        HandshakeOutcome::Complete => Ok(split_handles(fd)),
        HandshakeOutcome::Failed => Err(StreamError::Io),
    }
}

} // verus!
