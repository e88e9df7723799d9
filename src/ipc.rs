//! The wire protocol: messages between client and server, and their length-prefixed frames.

use vstd::prelude::*;

use crate::error::Error;
use crate::key::Key;
use crate::registry::RebindOutcome;

verus! {

/// A structured payload carried by a success reply.
#[verifier::external_type_specification]
#[verifier::external_body]
pub struct ExValue(serde_json::Value);

/// A request from a client to the server.
#[derive(Debug, Clone)]
pub enum IPCRequest {
    /// End the session; in single-client mode this also stops the server.
    Shutdown,
    /// Replace every active hotkey by `keys`, all or none.
    Rebind { keys: Vec<Key> },
}

/// A message from the server to a client: a reply to a request, or a hotkey event.
#[derive(Debug, Clone)]
pub enum IPCResponse {
    /// The request succeeded.
    Success { message: String, data: Option<serde_json::Value> },
    /// The request failed.
    Error { message: String },
    /// A registered hotkey was pressed; sent whenever it happens, not as a reply.
    HotkeyTriggered { identifier: String },
}

/// The largest payload a frame may announce: 16 MiB.
pub const MAX_FRAME_LEN: usize = 16777216;

/// The four big-endian bytes of `n`, which is below 2^32.
pub open spec fn be_bytes(n: nat) -> Seq<u8> {
    seq![
        ((n / 16777216) % 256) as u8,
        ((n / 65536) % 256) as u8,
        ((n / 256) % 256) as u8,
        (n % 256) as u8,
    ]
}

/// The number that four big-endian bytes denote.
pub open spec fn be_value(b: Seq<u8>) -> nat {
    (b[0] as nat) * 16777216 + (b[1] as nat) * 65536 + (b[2] as nat) * 256 + (b[3] as nat)
}

/// The frame of a payload: its length in four big-endian bytes, then the payload.
pub open spec fn frame(payload: Seq<u8>) -> Seq<u8> {
    be_bytes(payload.len()) + payload
}

/// Why no frame could be read.
#[derive(Debug, Clone, Copy, PartialEq, Eq, Structural)]
pub enum FrameError {
    /// Fewer bytes are at hand than the frame needs.
    Incomplete,
    /// The announced length exceeds the limit.
    TooLarge,
}

/// The length announced by the start of `bytes`.
pub open spec fn announced(bytes: Seq<u8>) -> Result<nat, FrameError> {
    if bytes.len() < 4 {
        Err(FrameError::Incomplete)
    } else if be_value(bytes) > MAX_FRAME_LEN {
        Err(FrameError::TooLarge)
    } else {
        Ok(be_value(bytes))
    }
}

/// The payload of the frame at the start of `bytes` and the number of bytes it spans.
pub open spec fn unframe(bytes: Seq<u8>) -> Result<(Seq<u8>, nat), FrameError> {
    match announced(bytes) {
        Err(e) => Err(e),
        Ok(n) => if bytes.len() < 4 + n {
            Err(FrameError::Incomplete)
        } else {
            Ok((bytes.subrange(4, 4 + n as int), 4 + n))
        },
    }
}

/// Frame a payload for sending.
pub fn encode_frame(payload: &[u8]) -> (r: Vec<u8>)
    requires
        payload@.len() <= u32::MAX,
    ensures
        r@ == frame(payload@),
{
    let n = payload.len() as u32;
    let mut out: Vec<u8> = Vec::new();
    out.push((n / 16777216) as u8);
    out.push(((n / 65536) % 256) as u8);
    out.push(((n / 256) % 256) as u8);
    out.push((n % 256) as u8);
    let mut i: usize = 0;
    while i < payload.len()
        invariant
            n == payload@.len(),
            i <= payload@.len(),
            out@ == be_bytes(n as nat) + payload@.take(i as int),
        decreases payload@.len() - i,
    {
        out.push(payload[i]);
        assert(payload@.take(i + 1) =~= payload@.take(i as int).push(payload@[i as int]));
        i = i + 1;
    }
    assert(payload@.take(i as int) =~= payload@);
    out
}

/// The payload length announced by a frame's first four bytes.
pub fn frame_length(prefix: &[u8]) -> (r: Result<usize, FrameError>)
    ensures
        match announced(prefix@) {
            Ok(n) => r == Ok::<usize, FrameError>(n as usize),
            Err(e) => r == Err::<usize, FrameError>(e),
        },
{
    if prefix.len() < 4 {
        return Err(FrameError::Incomplete);
    }
    let n: u64 = (prefix[0] as u64) * 16777216 + (prefix[1] as u64) * 65536 + (prefix[2] as u64)
        * 256 + (prefix[3] as u64);
    if n > MAX_FRAME_LEN as u64 {
        Err(FrameError::TooLarge)
    } else {
        Ok(n as usize)
    }
}

/// Read the frame at the start of `bytes`: its payload and how many bytes it spans.
///
/// No payload is returned from a short read: all announced bytes must be at hand.
pub fn decode_frame(bytes: &[u8]) -> (r: Result<(Vec<u8>, usize), FrameError>)
    ensures
        match unframe(bytes@) {
            Ok((p, used)) => r matches Ok((q, u)) && q@ == p && u == used,
            Err(e) => r == Err::<(Vec<u8>, usize), FrameError>(e),
        },
{
    let n = match frame_length(bytes) {
        Ok(n) => n,
        Err(e) => {
            return Err(e);
        },
    };
    if bytes.len() - 4 < n {
        return Err(FrameError::Incomplete);
    }
    let mut payload: Vec<u8> = Vec::new();
    let mut i: usize = 0;
    while i < n
        invariant
            n <= MAX_FRAME_LEN,
            4 + n <= bytes@.len(),
            i <= n,
            payload@ == bytes@.subrange(4, 4 + i),
        decreases n - i,
    {
        payload.push(bytes[4 + i]);
        assert(bytes@.subrange(4, 4 + i + 1) =~= bytes@.subrange(4, 4 + i).push(bytes@[4 + i]));
        i = i + 1;
    }
    Ok((payload, 4 + n))
}

/// Reading back a framed payload gives the payload, whatever bytes follow the frame.
pub proof fn lemma_frame_round_trip(payload: Seq<u8>, rest: Seq<u8>)
    requires
        payload.len() <= MAX_FRAME_LEN,
    ensures
        unframe(frame(payload) + rest) == Ok::<(Seq<u8>, nat), FrameError>(
            (payload, payload.len() + 4),
        ),
{
    let n = payload.len();
    let b = frame(payload) + rest;
    assert(b.take(4) =~= be_bytes(n));
    assert(be_value(b) == n) by (nonlinear_arith)
        requires
            n <= 16777216,
            b[0] == ((n / 16777216) % 256) as u8,
            b[1] == ((n / 65536) % 256) as u8,
            b[2] == ((n / 256) % 256) as u8,
            b[3] == (n % 256) as u8,
    ;
    assert(b.subrange(4, 4 + n as int) =~= payload);
}

/// What the server does with one request.
#[derive(Debug)]
pub enum SessionStep {
    /// Send `response`; end the session after it when `close` holds.
    Reply { response: IPCResponse, close: bool },
    /// Clear the registry, try every key with the operating system, then finish the rebind.
    Rebind { keys: Vec<Key> },
}

/// Decide how the server handles a request.
pub fn on_request(request: IPCRequest) -> (r: SessionStep)
    ensures
        request is Shutdown ==> (r matches SessionStep::Reply { response, close } && close && (
        response matches IPCResponse::Success { message, data } && message@ == "Shutting down"@
            && data is None)),
        request matches IPCRequest::Rebind { keys } ==> (r matches SessionStep::Rebind { keys: k }
            && k@ == keys@),
{
    match request {
        IPCRequest::Shutdown => SessionStep::Reply {
            response: IPCResponse::Success {
                message: String::from_str("Shutting down"),
                data: None,
            },
            close: true,
        },
        IPCRequest::Rebind { keys } => SessionStep::Rebind { keys },
    }
}

/// The reply to a rebind, from how it ended.
pub fn rebind_reply(outcome: &RebindOutcome) -> (r: IPCResponse)
    ensures
        match outcome.reply {
            Ok(m) => r matches IPCResponse::Success { message, data } && message@ == m@
                && data is None,
            Err(m) => r matches IPCResponse::Error { message } && message@ == m@,
        },
{
    match &outcome.reply {
        Ok(m) => IPCResponse::Success { message: m.clone(), data: None },
        Err(m) => IPCResponse::Error { message: m.clone() },
    }
}

/// The reply when the previous hotkeys could not be released.
pub fn unbind_failed_reply(reason: &str) -> (r: IPCResponse)
    ensures
        r matches IPCResponse::Error { message } && message@ == "Failed to unbind existing hotkeys: "@
            + reason@,
{
    IPCResponse::Error {
        message: String::from_str("Failed to unbind existing hotkeys: ").concat(reason),
    }
}

/// The event sent when the hotkey registered as `identifier` is pressed.
pub fn triggered(identifier: String) -> (r: IPCResponse)
    ensures
        r == (IPCResponse::HotkeyTriggered { identifier }),
{
    IPCResponse::HotkeyTriggered { identifier }
}

/// How a client reads a message that arrives while it awaits a reply.
#[derive(Debug)]
pub enum Incoming {
    /// The reply: the request succeeded, or failed with the error.
    Reply(Result<(), Error>),
    /// A hotkey event, to deliver while the reply is still awaited.
    Event(String),
}

/// Classify a message received while awaiting the reply to a request.
pub fn classify_reply(response: IPCResponse) -> (r: Incoming)
    ensures
        response is Success ==> r matches Incoming::Reply(Ok(())),
        response matches IPCResponse::Error { message } ==> (r matches Incoming::Reply(Err(
            Error::Ipc(m),
        )) && m == message),
        response matches IPCResponse::HotkeyTriggered { identifier } ==> (r matches Incoming::Event(
            i,
        ) && i == identifier),
{
    match response {
        IPCResponse::Success { .. } => Incoming::Reply(Ok(())),
        IPCResponse::Error { message } => Incoming::Reply(Err(Error::Ipc(message))),
        IPCResponse::HotkeyTriggered { identifier } => Incoming::Event(identifier),
    }
}

/// Where a client dials the server.
#[derive(Debug, Clone)]
pub struct IPCClient {
    pub socket_path: String,
}

impl IPCClient {
    /// A client for the server listening at `socket_path`.
    pub fn new(socket_path: &str) -> (r: IPCClient)
        ensures
            r.socket_path@ == socket_path@,
    {
        IPCClient { socket_path: String::from_str(socket_path) }
    }
}

} // verus!
