//! The two pump state machines of the forwarder engine.
//!
//! Each active session runs two pumps. Pump A reads bursts of bytes from the
//! local stream, frames them, and writes the frames to the pipe; pump B
//! decodes frames from the pipe and writes the payloads to the local stream.
//! The pumps here are pure state machines: the caller performs each read or
//! write and reports its outcome, and the machine decides — exactly as the
//! error policy prescribes — whether to retry, to frame and forward, to wait
//! for a replacement stream, or to terminate the session.
//!
//! Policy, by error class: transient faults (interrupted, would-block, timed
//! out) are retried at the same step; a local peer gone (orderly end of
//! stream, connection reset, broken pipe on the stream side) makes a listener
//! wait for a replacement stream and is fatal for a connector; a remote peer
//! gone (any failure or end of stream on the pipe side) is fatal for the
//! whole session; anything else is fatal.

use crate::framing::FrameParser;
use crate::framing::FrameStep;
use crate::framing::MAX_PAYLOAD;
use crate::framing::spec_frame_bytes;
use crate::msg_header::FLAG_NONE;
use crate::msg_header::FLAG_RECONN;
use vstd::prelude::*;

verus! {

/// Relies on `core::mem::replace`: it moves `src` into `*dest` and returns
/// the value that was in `*dest` before, nothing else.
pub assume_specification<T>[ core::mem::replace ](dest: &mut T, src: T) -> (prev: T)
    ensures
        prev == *old(dest),
        *final(dest) == src,
;

/// Which side of the transport this pump serves.
///
/// A listener owns the local `SSH_AUTH_SOCK` socket in the client VM and can
/// replace a dead local stream with a freshly accepted one; a connector
/// bridges the vault VM's `ssh-agent` socket and treats a dead stream as
/// fatal.
#[derive(Clone, Copy, PartialEq, Eq, Structural)]
pub enum Role {
    Listener,
    Connector,
}

/// The classes of I/O failure the engine distinguishes.
#[derive(Clone, Copy, PartialEq, Eq, Structural)]
pub enum IoErrorKind {
    Interrupted,
    WouldBlock,
    TimedOut,
    BrokenPipe,
    ConnectionReset,
    UnexpectedEof,
    Other,
}

/// A transient failure, retried at the same call site: the short stream
/// timeouts make these routine.
pub open spec fn spec_is_minor(kind: IoErrorKind) -> bool {
    ||| kind is Interrupted
    ||| kind is WouldBlock
    ||| kind is TimedOut
}

/// True exactly for the transient failure classes (interrupted, would-block,
/// timed out).
pub fn is_io_err_minor(kind: IoErrorKind) -> (minor: bool)
    ensures
        minor == spec_is_minor(kind),
{
    match kind {
        IoErrorKind::Interrupted => true,
        IoErrorKind::WouldBlock => true,
        IoErrorKind::TimedOut => true,
        _ => false,
    }
}

/// A failure that means the peer on the local stream is gone: an orderly end
/// of stream is reported separately as [`ReadOutcome::Closed`].
pub open spec fn spec_is_peer_gone(kind: IoErrorKind) -> bool {
    ||| kind is ConnectionReset
    ||| kind is BrokenPipe
}

/// The reconnect signal is bit 0 of the flags byte.
pub open spec fn spec_is_reconn(flags: u8) -> bool {
    flags & FLAG_RECONN == FLAG_RECONN
}

/// What one read call returned.
pub enum ReadOutcome {
    /// The bytes read; never empty.
    Bytes(Vec<u8>),
    /// Orderly end of stream (a read of zero bytes).
    Closed,
    /// The error class of a failed read.
    Failed(IoErrorKind),
}

/// What one write call returned.
pub enum WriteOutcome {
    /// Number of bytes accepted; possibly fewer than offered.
    Wrote(usize),
    /// The error class of a failed write.
    Failed(IoErrorKind),
}

/// Pump A's position in its cycle.
pub enum PumpAState {
    /// Ready to read the next burst from the local stream.
    Idle,
    /// A frame is being written to the pipe; `cursor` bytes of it are
    /// already accepted.
    Writing { frame: Vec<u8>, cursor: usize },
    /// Listener only: the local stream is gone; the supervisor must install
    /// a replacement before the pump resumes.
    ReconnectWait,
    /// The pump has exited; the session is over.
    Terminated,
}

impl PumpAState {
    /// The frame being written, empty in any other state.
    pub open spec fn frame(&self) -> Seq<u8> {
        match self {
            PumpAState::Writing { frame, .. } => frame@,
            _ => Seq::empty(),
        }
    }

    /// How much of the frame is already accepted, zero in any other state.
    pub open spec fn cursor(&self) -> int {
        match self {
            PumpAState::Writing { cursor, .. } => *cursor as int,
            _ => 0,
        }
    }

    /// The frame bytes not yet accepted by the pipe.
    pub open spec fn remaining(&self) -> Seq<u8> {
        self.frame().skip(self.cursor())
    }
}

/// The socket-to-pipe pump: reads bursts from the local stream and forwards
/// each as one frame.
pub struct PumpA {
    pub role: Role,
    pub state: PumpAState,
}

impl PumpA {
    /// The cursor never passes the frame, and only a listener ever waits for
    /// a replacement stream.
    pub open spec fn wf(&self) -> bool {
        &&& self.state.cursor() <= self.state.frame().len()
        &&& self.role is Connector ==> !(self.state is ReconnectWait)
    }

    /// A fresh pump, ready to read.
    pub fn new(role: Role) -> (p: PumpA)
        ensures
            p.role == role,
            p.state is Idle,
            p.wf(),
    {
        PumpA { role, state: PumpAState::Idle }
    }

    /// The kill flag was observed, or an unrecoverable local fault (such as
    /// a failed flush) occurred: the pump exits, whatever it was doing.
    pub fn terminate(&mut self)
        ensures
            final(self).state is Terminated,
            final(self).role == old(self).role,
            final(self).wf(),
    {
        self.state = PumpAState::Terminated;
    }

    /// Apply the read policy to the outcome of one read from the local
    /// stream.
    ///
    /// Bytes become a frame to write; an orderly close or a peer-gone error
    /// sends a listener into replacement wait and terminates a connector; a
    /// transient failure is retried; anything else is fatal.
    pub fn on_sock_read(&mut self, outcome: ReadOutcome)
        requires
            old(self).state is Idle,
            old(self).wf(),
            outcome matches ReadOutcome::Bytes(d) ==> 1 <= d@.len() <= MAX_PAYLOAD,
        ensures
            final(self).role == old(self).role,
            final(self).wf(),
            match outcome {
                ReadOutcome::Bytes(d) => {
                    &&& final(self).state is Writing
                    &&& final(self).state.frame() == spec_frame_bytes(d@, FLAG_NONE)
                    &&& final(self).state.cursor() == 0
                },
                ReadOutcome::Closed => if old(self).role is Listener {
                    final(self).state is ReconnectWait
                } else {
                    final(self).state is Terminated
                },
                ReadOutcome::Failed(k) => if spec_is_minor(k) {
                    final(self).state is Idle
                } else if spec_is_peer_gone(k) {
                    if old(self).role is Listener {
                        final(self).state is ReconnectWait
                    } else {
                        final(self).state is Terminated
                    }
                } else {
                    final(self).state is Terminated
                },
            },
    {
        match outcome {
            ReadOutcome::Bytes(d) => {
                let frame = crate::framing::encode_frame(&d, FLAG_NONE);
                self.state = PumpAState::Writing { frame, cursor: 0 };
            },
            ReadOutcome::Closed => {
                self.local_peer_gone();
            },
            ReadOutcome::Failed(k) => {
                if is_io_err_minor(k) {
                    self.state = PumpAState::Idle;
                } else {
                    match k {
                        IoErrorKind::ConnectionReset => self.local_peer_gone(),
                        IoErrorKind::BrokenPipe => self.local_peer_gone(),
                        _ => { self.state = PumpAState::Terminated },
                    }
                }
            },
        }
    }

    /// Apply the write policy to the outcome of one write of the remaining
    /// frame bytes to the pipe.
    ///
    /// Accepted bytes advance the cursor; once the whole frame is accepted
    /// the pump flushes and reads again. A transient failure is retried. Any
    /// other failure means the peer daemon is gone: the session terminates,
    /// whatever the role.
    pub fn on_pipe_write(&mut self, outcome: WriteOutcome)
        requires
            old(self).state is Writing,
            old(self).wf(),
            outcome matches WriteOutcome::Wrote(n) ==> n <= old(self).state.remaining().len(),
        ensures
            final(self).role == old(self).role,
            final(self).wf(),
            match outcome {
                WriteOutcome::Wrote(n) => if old(self).state.cursor() + n
                    == old(self).state.frame().len() {
                    final(self).state is Idle
                } else {
                    &&& final(self).state is Writing
                    &&& final(self).state.frame() == old(self).state.frame()
                    &&& final(self).state.cursor() == old(self).state.cursor() + n
                },
                WriteOutcome::Failed(k) => if spec_is_minor(k) {
                    final(self).state == old(self).state
                } else {
                    final(self).state is Terminated
                },
            },
    {
        let state = core::mem::replace(&mut self.state, PumpAState::Idle);
        match state {
            PumpAState::Writing { frame, cursor } => {
                match outcome {
                    WriteOutcome::Wrote(n) => {
                        proof {
                            assert(old(self).state.frame() == frame@);
                            assert(old(self).state.remaining().len() == frame@.len() - cursor);
                        }
                        let total: usize = frame.len();
                        let cursor = cursor + n;
                        if cursor == total {
                            self.state = PumpAState::Idle;
                        } else {
                            self.state = PumpAState::Writing { frame, cursor };
                        }
                    },
                    WriteOutcome::Failed(k) => {
                        if is_io_err_minor(k) {
                            self.state = PumpAState::Writing { frame, cursor };
                        } else {
                            self.state = PumpAState::Terminated;
                        }
                    },
                }
            },
            _ => {
                proof {
                    assert(false);
                }
            },
        }
    }

    /// The supervisor installed a replacement stream. The listener announces
    /// it to the peer with an empty reconnect-signal frame, so the far side
    /// can discard any in-flight half-frame, then resumes reading.
    pub fn on_replacement(&mut self)
        requires
            old(self).state is ReconnectWait,
            old(self).wf(),
        ensures
            final(self).role == old(self).role,
            final(self).wf(),
            final(self).state is Writing,
            final(self).state.frame() == spec_frame_bytes(Seq::<u8>::empty(), FLAG_RECONN),
            final(self).state.cursor() == 0,
    {
        let empty: Vec<u8> = Vec::new();
        let frame = crate::framing::encode_frame(&empty, FLAG_RECONN);
        self.state = PumpAState::Writing { frame, cursor: 0 };
    }

    fn local_peer_gone(&mut self)
        requires
            old(self).wf(),
        ensures
            final(self).role == old(self).role,
            final(self).wf(),
            old(self).role is Listener ==> final(self).state is ReconnectWait,
            old(self).role is Connector ==> final(self).state is Terminated,
    {
        match self.role {
            Role::Listener => { self.state = PumpAState::ReconnectWait },
            Role::Connector => { self.state = PumpAState::Terminated },
        }
    }
}

/// What taking a frame from pump B's parser decided.
pub enum TakeResult {
    /// No whole frame buffered: read more pipe bytes.
    NeedBytes,
    /// A payload is ready to be written to the local stream.
    Deliver,
    /// A reconnect signal was consumed; buffered bytes were discarded.
    ReconnSignal,
    /// The peer announced an impossible frame: the session is over.
    Corrupt,
}

/// Pump B's position in its cycle.
pub enum PumpBState {
    /// Ready to feed pipe bytes to the parser and take frames from it.
    Receiving,
    /// A payload is being written to the local stream; `cursor` bytes of it
    /// are already accepted.
    Writing { payload: Vec<u8>, cursor: usize },
    /// Listener only: the local stream is gone; the supervisor must install
    /// a replacement before the pump resumes.
    ReconnectWait,
    /// Connector only: a reconnect signal arrived; a fresh stream to the
    /// agent must be connected before the pump resumes.
    AgentSwap,
    /// The pump has exited; the session is over.
    Terminated,
}

impl PumpBState {
    /// The payload being written, empty in any other state.
    pub open spec fn payload(&self) -> Seq<u8> {
        match self {
            PumpBState::Writing { payload, .. } => payload@,
            _ => Seq::empty(),
        }
    }

    /// How much of the payload is already accepted, zero in any other state.
    pub open spec fn cursor(&self) -> int {
        match self {
            PumpBState::Writing { cursor, .. } => *cursor as int,
            _ => 0,
        }
    }

    /// The payload bytes not yet accepted by the local stream.
    pub open spec fn remaining(&self) -> Seq<u8> {
        self.payload().skip(self.cursor())
    }
}

/// The pipe-to-socket pump: decodes frames from the pipe and writes each
/// payload to the local stream.
pub struct PumpB {
    pub role: Role,
    pub state: PumpBState,
    pub parser: FrameParser,
}

impl PumpB {
    /// The cursor never passes the payload; only a listener waits for a
    /// replacement stream, and only a connector swaps agent streams.
    pub open spec fn wf(&self) -> bool {
        &&& self.state.cursor() <= self.state.payload().len()
        &&& self.role is Connector ==> !(self.state is ReconnectWait)
        &&& self.role is Listener ==> !(self.state is AgentSwap)
    }

    /// A fresh pump with an empty parser, ready to receive.
    pub fn new(role: Role) -> (p: PumpB)
        ensures
            p.role == role,
            p.state is Receiving,
            p.parser@ == Seq::<u8>::empty(),
            p.wf(),
    {
        PumpB { role, state: PumpBState::Receiving, parser: FrameParser::new() }
    }

    /// The kill flag was observed, or an unrecoverable local fault occurred:
    /// the pump exits, whatever it was doing.
    pub fn terminate(&mut self)
        ensures
            final(self).state is Terminated,
            final(self).role == old(self).role,
            final(self).wf(),
    {
        self.state = PumpBState::Terminated;
    }

    /// Apply the read policy to the outcome of one read from the pipe.
    ///
    /// Bytes are buffered in the parser. The pipe carries the peer daemon:
    /// end of stream or any non-transient failure there ends the session,
    /// whatever the role.
    pub fn on_pipe_read(&mut self, outcome: ReadOutcome)
        requires
            old(self).state is Receiving,
            old(self).wf(),
        ensures
            final(self).role == old(self).role,
            final(self).wf(),
            match outcome {
                ReadOutcome::Bytes(d) => {
                    &&& final(self).state is Receiving
                    &&& final(self).parser@ == old(self).parser@ + d@
                },
                ReadOutcome::Closed => final(self).state is Terminated,
                ReadOutcome::Failed(k) => if spec_is_minor(k) {
                    final(self).state is Receiving && final(self).parser@ == old(self).parser@
                } else {
                    final(self).state is Terminated
                },
            },
    {
        match outcome {
            ReadOutcome::Bytes(d) => {
                self.parser.feed(d.as_slice());
            },
            ReadOutcome::Closed => {
                self.state = PumpBState::Terminated;
            },
            ReadOutcome::Failed(k) => {
                if !is_io_err_minor(k) {
                    self.state = PumpBState::Terminated;
                }
            },
        }
    }

    /// Try to take one whole frame out of the parser and decide what it
    /// means.
    ///
    /// An ordinary payload moves the pump to writing it out. A reconnect
    /// signal discards everything buffered — the in-flight half-frame the
    /// signal warns about — and makes a connector fetch a fresh agent
    /// stream. An oversize announcement ends the session.
    pub fn take_frame(&mut self) -> (r: TakeResult)
        requires
            old(self).state is Receiving,
            old(self).wf(),
        ensures
            final(self).role == old(self).role,
            final(self).wf(),
            match r {
                TakeResult::NeedBytes => {
                    &&& final(self).state is Receiving
                    &&& final(self).parser@ == old(self).parser@
                    &&& !crate::framing::spec_frame_ready(old(self).parser@)
                    &&& !crate::framing::spec_oversize(old(self).parser@)
                },
                TakeResult::Deliver => {
                    &&& crate::framing::spec_frame_ready(old(self).parser@)
                    &&& !spec_is_reconn(
                        old(self).parser@[crate::msg_header::FLAGS_INDEX as int],
                    )
                    &&& final(self).state is Writing
                    &&& final(self).state.payload() == old(self).parser@.subrange(
                        crate::msg_header::HEADER_LEN as int,
                        crate::msg_header::HEADER_LEN + crate::msg_header::spec_header_len(
                            old(self).parser@,
                        ),
                    )
                    &&& final(self).state.cursor() == 0
                    &&& final(self).parser@ == old(self).parser@.skip(
                        crate::msg_header::HEADER_LEN + crate::msg_header::spec_header_len(
                            old(self).parser@,
                        ),
                    )
                },
                TakeResult::ReconnSignal => {
                    &&& crate::framing::spec_frame_ready(old(self).parser@)
                    &&& spec_is_reconn(old(self).parser@[crate::msg_header::FLAGS_INDEX as int])
                    &&& final(self).parser@ == Seq::<u8>::empty()
                    &&& if old(self).role is Connector {
                        final(self).state is AgentSwap
                    } else {
                        final(self).state is Receiving
                    }
                },
                TakeResult::Corrupt => {
                    &&& crate::framing::spec_oversize(old(self).parser@)
                    &&& final(self).state is Terminated
                },
            },
    {
        match self.parser.next_frame() {
            FrameStep::NeedMore => TakeResult::NeedBytes,
            FrameStep::Frame { flags, payload } => {
                if flags & FLAG_RECONN == FLAG_RECONN {
                    self.parser.reset();
                    match self.role {
                        Role::Connector => { self.state = PumpBState::AgentSwap },
                        Role::Listener => { self.state = PumpBState::Receiving },
                    }
                    TakeResult::ReconnSignal
                } else {
                    self.state = PumpBState::Writing { payload, cursor: 0 };
                    TakeResult::Deliver
                }
            },
            FrameStep::Oversize => {
                self.state = PumpBState::Terminated;
                TakeResult::Corrupt
            },
        }
    }

    /// Apply the write policy to the outcome of one write of the remaining
    /// payload bytes to the local stream.
    ///
    /// Accepted bytes advance the cursor; once the whole payload is accepted
    /// the pump flushes and receives again. A transient failure is retried.
    /// A peer-gone failure drops the in-flight payload — and whatever the
    /// parser had buffered — and sends a listener into replacement wait;
    /// for a connector it is fatal, as is any other failure.
    pub fn on_sock_write(&mut self, outcome: WriteOutcome)
        requires
            old(self).state is Writing,
            old(self).wf(),
            outcome matches WriteOutcome::Wrote(n) ==> n <= old(self).state.remaining().len(),
        ensures
            final(self).role == old(self).role,
            final(self).wf(),
            match outcome {
                WriteOutcome::Wrote(n) => {
                    &&& (if old(self).state.cursor() + n == old(self).state.payload().len() {
                        final(self).state is Receiving
                    } else {
                        &&& final(self).state is Writing
                        &&& final(self).state.payload() == old(self).state.payload()
                        &&& final(self).state.cursor() == old(self).state.cursor() + n
                    })
                    &&& final(self).parser@ == old(self).parser@
                },
                WriteOutcome::Failed(k) => if spec_is_minor(k) {
                    final(self).state == old(self).state && final(self).parser@ == old(
                        self,
                    ).parser@
                } else if spec_is_peer_gone(k) {
                    if old(self).role is Listener {
                        final(self).state is ReconnectWait && final(self).parser@
                            == Seq::<u8>::empty()
                    } else {
                        final(self).state is Terminated
                    }
                } else {
                    final(self).state is Terminated
                },
            },
    {
        let state = core::mem::replace(&mut self.state, PumpBState::Receiving);
        match state {
            PumpBState::Writing { payload, cursor } => {
                match outcome {
                    WriteOutcome::Wrote(n) => {
                        proof {
                            assert(old(self).state.payload() == payload@);
                            assert(old(self).state.remaining().len() == payload@.len() - cursor);
                        }
                        let total: usize = payload.len();
                        let cursor = cursor + n;
                        if cursor == total {
                            self.state = PumpBState::Receiving;
                        } else {
                            self.state = PumpBState::Writing { payload, cursor };
                        }
                    },
                    WriteOutcome::Failed(k) => {
                        if is_io_err_minor(k) {
                            self.state = PumpBState::Writing { payload, cursor };
                        } else {
                            match k {
                                IoErrorKind::ConnectionReset => self.local_peer_gone(),
                                IoErrorKind::BrokenPipe => self.local_peer_gone(),
                                _ => { self.state = PumpBState::Terminated },
                            }
                        }
                    },
                }
            },
            _ => {
                proof {
                    assert(false);
                }
            },
        }
    }

    /// The supervisor installed a replacement stream: resume receiving. The
    /// payload that was being written stays dropped; the client re-issues
    /// its request on the new stream.
    pub fn on_replacement(&mut self)
        requires
            old(self).state is ReconnectWait,
            old(self).wf(),
        ensures
            final(self).role == old(self).role,
            final(self).wf(),
            final(self).state is Receiving,
            final(self).parser@ == old(self).parser@,
    {
        self.state = PumpBState::Receiving;
    }

    /// A fresh stream to the agent is connected: resume receiving.
    pub fn on_agent_connected(&mut self)
        requires
            old(self).state is AgentSwap,
            old(self).wf(),
        ensures
            final(self).role == old(self).role,
            final(self).wf(),
            final(self).state is Receiving,
            final(self).parser@ == old(self).parser@,
    {
        self.state = PumpBState::Receiving;
    }

    fn local_peer_gone(&mut self)
        requires
            old(self).wf(),
        ensures
            final(self).role == old(self).role,
            final(self).wf(),
            old(self).role is Listener ==> final(self).state is ReconnectWait
                && final(self).parser@ == Seq::<u8>::empty(),
            old(self).role is Connector ==> final(self).state is Terminated,
    {
        match self.role {
            Role::Listener => {
                self.parser.reset();
                self.state = PumpBState::ReconnectWait;
            },
            Role::Connector => { self.state = PumpBState::Terminated },
        }
    }
}

/// The two pumps cooperate byte-transparently: the frame pump A builds from
/// a burst of local bytes is, at the receiving side, one whole ordinary
/// frame whose payload is exactly that burst, and it leaves nothing behind
/// in the parser. With [`crate::framing::lemma_byte_transparency`], a whole
/// sequence of bursts crosses the pipe unchanged and in order.
pub proof fn lemma_pumps_relay_each_burst(burst: Seq<u8>)
    requires
        1 <= burst.len() <= MAX_PAYLOAD,
    ensures
        ({
            let frame = spec_frame_bytes(burst, FLAG_NONE);
            &&& crate::framing::spec_frame_ready(frame)
            &&& !spec_is_reconn(frame[crate::msg_header::FLAGS_INDEX as int])
            &&& frame.subrange(
                crate::msg_header::HEADER_LEN as int,
                crate::msg_header::HEADER_LEN + crate::msg_header::spec_header_len(frame),
            ) == burst
            &&& frame.skip(
                crate::msg_header::HEADER_LEN + crate::msg_header::spec_header_len(frame),
            ) == Seq::<u8>::empty()
        }),
{
    crate::msg_header::lemma_header_round_trip(burst.len() as u64, FLAG_NONE);
    let header = crate::msg_header::spec_header_bytes(burst.len() as u64, FLAG_NONE);
    let frame = spec_frame_bytes(burst, FLAG_NONE);
    assert(frame.subrange(0, crate::msg_header::LENGTH_LEN as int) =~= header.subrange(
        0,
        crate::msg_header::LENGTH_LEN as int,
    ));
    assert(crate::msg_header::spec_header_len(frame) == burst.len());
    assert(frame[crate::msg_header::FLAGS_INDEX as int] == FLAG_NONE);
    assert(FLAG_NONE & FLAG_RECONN != FLAG_RECONN) by (bit_vector);
    assert(frame.subrange(
        crate::msg_header::HEADER_LEN as int,
        crate::msg_header::HEADER_LEN + crate::msg_header::spec_header_len(frame),
    ) =~= burst);
    assert(frame.skip(
        crate::msg_header::HEADER_LEN + crate::msg_header::spec_header_len(frame),
    ) =~= Seq::<u8>::empty());
}

} // verus!
