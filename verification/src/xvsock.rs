//! The event channel between the host and the guest agent: the events it
//! carries, how a message is framed on the stream, and the decisions the
//! sending side takes about its connection.

use vstd::prelude::*;
use crate::text::{chars_of, parse_u64, parse_unsigned};

verus! {

/// An event sent between the host and the guest agent.
#[derive(Debug)]
pub enum XVsockEventEnum {
    ButtonEvent { x: u16, y: u16, button: u16, pressed: bool },
    MotionEvent { x: u16, y: u16 },
    ConfigureEvent { width: u16, height: u16 },
    ClipboardUpdateRequest { buf: Vec<u8> },
    ClipboardRequestEvent,
    GuestWindowOpened { width: u16, height: u16 },
}

/// The vsock port the agent listens on.
pub const VSOCK_PORT: u32 = 8001;

/// How long, in milliseconds, the sender waits between two connection
/// attempts.
pub const VSOCK_CONNECT_DELAY_MS: u64 = 2000;

/// The largest message body the receiver reads.
pub const FRAME_CAPACITY: usize = 1000;

/// The four little-endian bytes of `v`, the encoding of a `u32` that the
/// channel uses for a message's length.
pub open spec fn le_bytes(v: u32) -> Seq<u8> {
    seq![
        (v % 256) as u8,
        ((v / 256) % 256) as u8,
        ((v / 65536) % 256) as u8,
        ((v / 16777216) % 256) as u8,
    ]
}

/// The `u32` whose little-endian bytes start `b`.
pub open spec fn le_value(b: Seq<u8>) -> u32 {
    (b[0] + b[1] * 256 + b[2] * 65536 + b[3] * 16777216) as u32
}

/// `bincode::serialize` of a `u32`: with bincode's default options (fixed
/// width integers, little endian, no size limit) it is the four
/// little-endian bytes of the value, and it cannot fail.
#[verifier::external_body]
fn bincode_serialize_u32(v: u32) -> (r: Vec<u8>)
    ensures
        r@ == le_bytes(v),
{
    bincode::serialize(&v).expect("a u32 always serializes")
}

/// `bincode::deserialize` of a `u32`: with bincode's default options it
/// reads the first four bytes as a little-endian value, ignores any bytes
/// after them, and fails when there are fewer than four.
#[verifier::external_body]
fn bincode_deserialize_u32(bytes: &[u8]) -> (r: Option<u32>)
    ensures
        match r {
            Some(v) => bytes@.len() >= 4 && v == le_value(bytes@),
            None => bytes@.len() < 4,
        },
{
    bincode::deserialize::<u32>(bytes).ok()
}

/// The header that goes before a message body of `payload_len` bytes: its
/// length as a `u32` (taken modulo 2^32), in the channel's encoding.
pub fn frame_header(payload_len: usize) -> (r: Vec<u8>)
    ensures
        r@ == le_bytes((payload_len as nat % 0x1_0000_0000) as u32),
{
    let size: u32 = ((payload_len as u64) % 0x1_0000_0000u64) as u32;
    bincode_serialize_u32(size)
}

/// The length of the message body announced by a header: `None` when the
/// header is too short to hold a length, or announces more than
/// `FRAME_CAPACITY` bytes.
pub fn frame_body_len(header: &[u8]) -> (r: Option<usize>)
    ensures
        match r {
            Some(n) => header@.len() >= 4 && n == le_value(header@) && n <= FRAME_CAPACITY,
            None => header@.len() < 4 || le_value(header@) > FRAME_CAPACITY,
        },
{
    match bincode_deserialize_u32(header) {
        Some(v) => {
            if v as usize <= FRAME_CAPACITY {
                Some(v as usize)
            } else {
                None
            }
        },
        None => None,
    }
}

/// The receiver reads back the length the sender framed, for every body
/// that fits in the receiver's buffer.
pub proof fn lemma_frame_roundtrip(payload_len: usize)
    requires
        payload_len <= FRAME_CAPACITY,
    ensures
        ({
            let h = le_bytes((payload_len as nat % 0x1_0000_0000) as u32);
            h.len() == 4 && le_value(h) == payload_len
        }),
{
    let v = (payload_len as nat % 0x1_0000_0000) as u32;
    assert(v == payload_len);
    let h = le_bytes(v);
    assert(h[0] == v % 256);
    assert(h[1] == (v / 256) % 256);
    assert(h[2] == 0);
    assert(h[3] == 0);
}

/// Whether the sender, not connected, tries to connect again: only once
/// more than `VSOCK_CONNECT_DELAY_MS` milliseconds have passed since its
/// last attempt.
pub fn should_reconnect(connected: bool, elapsed_ms: u64) -> (r: bool)
    ensures
        r == (!connected && elapsed_ms > VSOCK_CONNECT_DELAY_MS),
{
    !connected && elapsed_ms > VSOCK_CONNECT_DELAY_MS
}

/// A duration of `secs` seconds and `nanos` nanoseconds in whole
/// milliseconds.
pub fn elapsed_millis(secs: u64, nanos: u32) -> (r: u64)
    requires
        secs * 1000 + nanos / 1_000_000 <= u64::MAX,
    ensures
        r == secs * 1000 + nanos / 1_000_000,
{
    secs * 1000 + (nanos as u64) / 1_000_000
}

/// How writing a message to the stream ended.
#[derive(Debug, Clone, Copy, PartialEq, Eq, Structural)]
pub enum WriteOutcome {
    Written,
    BrokenPipe,
    OtherError,
}

/// Whether the sender keeps its connection after a write: it drops it only
/// when the peer has gone (a broken pipe).
pub fn keeps_connection(outcome: WriteOutcome) -> (r: bool)
    ensures
        r == (outcome != WriteOutcome::BrokenPipe),
{
    match outcome {
        WriteOutcome::BrokenPipe => false,
        _ => true,
    }
}

/// The event that answers a clipboard request: the clipboard's content
/// when it could be read, an empty buffer otherwise.
pub fn clipboard_update(loaded: Option<Vec<u8>>) -> (r: XVsockEventEnum)
    ensures
        r matches XVsockEventEnum::ClipboardUpdateRequest { buf } && buf@ == (match loaded {
            Some(b) => b@,
            None => Seq::<u8>::empty(),
        }),
{
    match loaded {
        Some(buf) => XVsockEventEnum::ClipboardUpdateRequest { buf },
        None => XVsockEventEnum::ClipboardUpdateRequest { buf: Vec::new() },
    }
}

/// The guest's context id as the environment gives it: a decimal number
/// that fits in a `u64`, read as `str::parse` reads it.
pub fn parse_vm_cid(text: &str) -> (r: Option<u64>)
    ensures
        parse_unsigned(text@, u64::MAX as nat) == (match r {
            Some(v) => Some(v as nat),
            None => None::<nat>,
        }),
{
    parse_u64(&chars_of(text))
}


/// What the sender has learnt at a point of sending one event.
#[derive(Debug, Clone, Copy, PartialEq, Eq, Structural)]
pub enum SendEvent {
    /// A send begins; `elapsed_ms` is the time since the last connection
    /// attempt.
    Start { connected: bool, elapsed_ms: u64 },
    /// A connection attempt ended.
    Connected { connected: bool },
    /// The event was written to the stream, with this outcome.
    Wrote(WriteOutcome),
}

/// What the sender does next.
#[derive(Debug, Clone, Copy, PartialEq, Eq, Structural)]
pub enum SendAction {
    /// Record the time of this attempt and try to connect.
    Connect,
    /// Write the framed event to the stream.
    Write,
    /// Report that there is no connection; the event is dropped.
    ReportNotOpened,
    /// The send is over; keep the connection or drop it.
    Finish { keep_connection: bool },
}

/// The sender's next step: without a connection it tries to connect once the
/// delay has passed, and drops the event when still not connected; with one
/// it writes the event, and drops the connection only on a broken pipe.
pub open spec fn send_next(event: SendEvent) -> SendAction {
    match event {
        SendEvent::Start { connected, elapsed_ms } => if connected {
            SendAction::Write
        } else if elapsed_ms > VSOCK_CONNECT_DELAY_MS {
            SendAction::Connect
        } else {
            SendAction::ReportNotOpened
        },
        SendEvent::Connected { connected } => if connected {
            SendAction::Write
        } else {
            SendAction::ReportNotOpened
        },
        SendEvent::Wrote(outcome) => SendAction::Finish {
            keep_connection: outcome != WriteOutcome::BrokenPipe,
        },
    }
}

/// Decides the sender's next step.
pub fn send_step(event: SendEvent) -> (r: SendAction)
    ensures
        r == send_next(event),
        event matches SendEvent::Start { connected, elapsed_ms } ==> ({
            &&& connected ==> r == SendAction::Write
            &&& (r == SendAction::Connect) == (!connected && elapsed_ms > VSOCK_CONNECT_DELAY_MS)
        }),
{
    match event {
        SendEvent::Start { connected, elapsed_ms } => {
            if connected {
                SendAction::Write
            } else if should_reconnect(connected, elapsed_ms) {
                SendAction::Connect
            } else {
                SendAction::ReportNotOpened
            }
        },
        SendEvent::Connected { connected } => {
            if connected {
                SendAction::Write
            } else {
                SendAction::ReportNotOpened
            }
        },
        SendEvent::Wrote(outcome) => SendAction::Finish { keep_connection: keeps_connection(outcome) },
    }
}


/// A sender that is connected when a send begins writes the event on its
/// open stream, however long ago it last tried to connect; it tries to
/// connect only when it has no connection and more than
/// `VSOCK_CONNECT_DELAY_MS` milliseconds have passed since its last attempt,
/// and otherwise drops the event.
pub proof fn lemma_send_start(connected: bool, elapsed_ms: u64)
    ensures
        connected ==> send_next(SendEvent::Start { connected, elapsed_ms }) == SendAction::Write,
        (send_next(SendEvent::Start { connected, elapsed_ms }) == SendAction::Connect) == (!connected
            && elapsed_ms > VSOCK_CONNECT_DELAY_MS),
        (send_next(SendEvent::Start { connected, elapsed_ms }) == SendAction::ReportNotOpened) == (
        !connected && elapsed_ms <= VSOCK_CONNECT_DELAY_MS),
{
}

} // verus!
