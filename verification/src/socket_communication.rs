//! Remote actuator backend: the greeting that opens a session with the peer, the
//! length-prefixed frame that carries a marker and its payload, and the exchange that
//! decides how each of them proceeds.

use vstd::prelude::*;
use vstd::string::StringSliceAdditionalSpecFns;
use vstd::utf8::encode_utf8;
use crate::errors::{DeviceError, DeviceErrorView};
use crate::transport::{IoOutcome, IoOutcomeView};

verus! {

/// Time limit, in seconds, of a connection attempt and of the wait for the acknowledgment.
pub const CONNECT_TIMEOUT_SECS: u64 = 5;

/// Number of bytes of the acknowledgment.
pub const ACK_LEN: usize = 3;

/// The greeting, `INIT`.
pub open spec fn greeting() -> Seq<u8> {
    seq![73u8, 78u8, 73u8, 84u8]
}

/// The acknowledgment of the greeting, `ACK`.
pub open spec fn acknowledgment() -> Seq<u8> {
    seq![65u8, 67u8, 75u8]
}

/// The four bytes of `n`, most significant first.
pub open spec fn be_bytes(n: u32) -> Seq<u8> {
    seq![
        (n / 0x100_0000) as u8,
        (n / 0x1_0000 % 0x100) as u8,
        (n / 0x100 % 0x100) as u8,
        (n % 0x100) as u8,
    ]
}

/// Whether a marker and a payload of these sizes fit the length fields of a frame.
pub open spec fn fits_frame(token: Seq<u8>, blob: Seq<u8>) -> bool {
    token.len() <= u32::MAX && blob.len() <= u32::MAX
}

/// The frame of one message: the length of the marker, the marker, the length of the
/// payload, the payload. Nothing ends the frame but its two lengths.
pub open spec fn message_frame(token: Seq<u8>, blob: Seq<u8>) -> Seq<u8> {
    be_bytes(token.len() as u32) + token + be_bytes(blob.len() as u32) + blob
}

/// One step of a conversation with the remote peer. Each variant but the last names the
/// input/output that the driver performs next; the driver then reports the outcome to
/// [`RemoteExchange::advance`].
#[derive(Debug, PartialEq, Eq)]
pub enum RemoteExchange {
    /// Connect to `host` at `port` within `CONNECT_TIMEOUT_SECS`. What follows is the
    /// write of `request`, and the wait for the acknowledgment where `expects_ack` is set.
    Connect { host: String, port: u16, request: Vec<u8>, expects_ack: bool },
    /// Write all of `request` to the connection.
    Send { request: Vec<u8>, expects_ack: bool },
    /// Read exactly `ACK_LEN` bytes within `CONNECT_TIMEOUT_SECS`.
    AwaitAck,
    /// The conversation is over, with this result.
    Done(Result<(), DeviceError>),
}

/// Mathematical model of a [`RemoteExchange`].
pub enum RemoteExchangeView {
    Connect { host: Seq<char>, port: u16, request: Seq<u8>, expects_ack: bool },
    Send { request: Seq<u8>, expects_ack: bool },
    AwaitAck,
    Done(Result<(), DeviceErrorView>),
}

impl View for RemoteExchange {
    type V = RemoteExchangeView;

    open spec fn view(&self) -> RemoteExchangeView {
        match self {
            RemoteExchange::Connect { host, port, request, expects_ack } => {
                RemoteExchangeView::Connect {
                    host: host@,
                    port: *port,
                    request: request@,
                    expects_ack: *expects_ack,
                }
            },
            RemoteExchange::Send { request, expects_ack } => RemoteExchangeView::Send {
                request: request@,
                expects_ack: *expects_ack,
            },
            RemoteExchange::AwaitAck => RemoteExchangeView::AwaitAck,
            RemoteExchange::Done(Ok(())) => RemoteExchangeView::Done(Ok(())),
            RemoteExchange::Done(Err(e)) => RemoteExchangeView::Done(Err(e@)),
        }
    }
}

impl RemoteExchangeView {
    /// The step that follows when the pending input/output ended with `outcome`.
    ///
    /// A connection that cannot be made ends the conversation: with `Timeout` when the
    /// attempt ran out of time, with `Unavailable` otherwise. A failed write ends it with
    /// `Timeout` or `Io`. The reply to the greeting is accepted only if it is exactly the
    /// acknowledgment; every other end of the read is `HandshakeFailed`. A finished
    /// conversation stays finished.
    pub open spec fn advance(self, outcome: IoOutcomeView) -> RemoteExchangeView {
        match self {
            RemoteExchangeView::Connect { host, port, request, expects_ack } => match outcome {
                IoOutcomeView::Done(_) => RemoteExchangeView::Send { request, expects_ack },
                IoOutcomeView::TimedOut => RemoteExchangeView::Done(Err(DeviceErrorView::Timeout)),
                IoOutcomeView::Failed(reason) => RemoteExchangeView::Done(
                    Err(DeviceErrorView::Unavailable(host, reason)),
                ),
            },
            RemoteExchangeView::Send { request, expects_ack } => match outcome {
                IoOutcomeView::Done(_) => if expects_ack {
                    RemoteExchangeView::AwaitAck
                } else {
                    RemoteExchangeView::Done(Ok(()))
                },
                IoOutcomeView::TimedOut => RemoteExchangeView::Done(Err(DeviceErrorView::Timeout)),
                IoOutcomeView::Failed(reason) => RemoteExchangeView::Done(
                    Err(DeviceErrorView::Io(reason)),
                ),
            },
            RemoteExchangeView::AwaitAck => if outcome == IoOutcomeView::Done(acknowledgment()) {
                RemoteExchangeView::Done(Ok(()))
            } else {
                RemoteExchangeView::Done(Err(DeviceErrorView::HandshakeFailed))
            },
            RemoteExchangeView::Done(result) => RemoteExchangeView::Done(result),
        }
    }
}

/// Whether `reply` is exactly the acknowledgment.
pub fn is_acknowledgment(reply: &Vec<u8>) -> (accepted: bool)
    ensures
        accepted == (reply@ == acknowledgment()),
{
    let accepted = reply.len() == 3 && reply[0] == 65u8 && reply[1] == 67u8 && reply[2] == 75u8;
    proof {
        if accepted {
            assert(reply@ =~= acknowledgment());
        }
    }
    accepted
}

/// Appends the four bytes of `n`, most significant first.
fn push_be_bytes(out: &mut Vec<u8>, n: u32)
    ensures
        final(out)@ == old(out)@ + be_bytes(n),
{
    out.push((n / 0x100_0000) as u8);
    out.push((n / 0x1_0000 % 0x100) as u8);
    out.push((n / 0x100 % 0x100) as u8);
    out.push((n % 0x100) as u8);
    proof {
        assert(out@ =~= old(out)@ + be_bytes(n));
    }
}

/// Appends `bytes`.
fn push_all(out: &mut Vec<u8>, bytes: &[u8])
    ensures
        final(out)@ == old(out)@ + bytes@,
{
    let mut i: usize = 0;
    while i < bytes.len()
        invariant
            i <= bytes@.len(),
            out@ == old(out)@ + bytes@.subrange(0, i as int),
        decreases bytes@.len() - i,
    {
        out.push(bytes[i]);
        i = i + 1;
        proof {
            assert(out@ =~= old(out)@ + bytes@.subrange(0, i as int));
        }
    }
    proof {
        assert(bytes@.subrange(0, i as int) =~= bytes@);
    }
}

/// Frames one message. There is no frame for a marker or a payload whose length does not
/// fit the 32 bits of its length field.
pub fn frame_message(token: &[u8], blob: &[u8]) -> (frame: Option<Vec<u8>>)
    ensures
        frame is Some <==> fits_frame(token@, blob@),
        frame matches Some(bytes) ==> bytes@ == message_frame(token@, blob@),
{
    if token.len() > 0xffff_ffff || blob.len() > 0xffff_ffff {
        return None;
    }
    let mut bytes: Vec<u8> = Vec::new();
    push_be_bytes(&mut bytes, token.len() as u32);
    push_all(&mut bytes, token);
    push_be_bytes(&mut bytes, blob.len() as u32);
    push_all(&mut bytes, blob);
    proof {
        assert(bytes@ =~= message_frame(token@, blob@));
    }
    Some(bytes)
}

/// The remote backend. It keeps no connection: every conversation opens its own.
#[derive(Debug, Clone, Copy, PartialEq, Eq)]
pub struct SocketCommunication {}

impl SocketCommunication {
    /// A remote backend.
    pub fn new() -> (backend: SocketCommunication)
        ensures
            backend == (SocketCommunication {  }),
    {
        SocketCommunication {  }
    }

    /// Begins the delivery of a marker and its payload to the peer at `ip_address:port`:
    /// connect, then write the frame of the message. A message that has no frame fails at
    /// once, before any connection is made.
    pub fn send_to_mobile_phone(
        &self,
        ip_address: String,
        port: u16,
        kaomoji: String,
        audio_buffer: Vec<u8>,
    ) -> (exchange: RemoteExchange)
        ensures
            fits_frame(encode_utf8(kaomoji@), audio_buffer@) ==> exchange@ == (
            RemoteExchangeView::Connect {
                host: ip_address@,
                port,
                request: message_frame(encode_utf8(kaomoji@), audio_buffer@),
                expects_ack: false,
            }),
            !fits_frame(encode_utf8(kaomoji@), audio_buffer@) ==> exchange@
                == RemoteExchangeView::Done(Err(DeviceErrorView::Io("message too long"@))),
    {
        match frame_message(kaomoji.as_str().as_bytes(), audio_buffer.as_slice()) {
            Some(request) => RemoteExchange::Connect {
                host: ip_address,
                port,
                request,
                expects_ack: false,
            },
            None => RemoteExchange::Done(Err(DeviceError::Io("message too long".to_owned()))),
        }
    }

    /// Judges a liveness probe, which is a connection attempt within
    /// `CONNECT_TIMEOUT_SECS` and nothing more: the peer is alive exactly when the
    /// connection was made.
    pub fn check_mobile_phone_status(&self, connected: &IoOutcome) -> (alive: bool)
        ensures
            alive == (connected@ is Done),
    {
        match connected {
            IoOutcome::Done(_) => true,
            _ => false,
        }
    }

    /// Begins the handshake with the peer at `ip_address:port`: connect, write the
    /// greeting, then wait for the acknowledgment.
    pub fn initialize_mobile_phone_connection(&self, ip_address: String, port: u16) -> (exchange:
        RemoteExchange)
        ensures
            exchange@ == (RemoteExchangeView::Connect {
                host: ip_address@,
                port,
                request: greeting(),
                expects_ack: true,
            }),
    {
        let mut request: Vec<u8> = Vec::new();
        request.push(73u8);
        request.push(78u8);
        request.push(73u8);
        request.push(84u8);
        proof {
            assert(request@ =~= greeting());
        }
        RemoteExchange::Connect { host: ip_address, port, request, expects_ack: true }
    }
}

impl RemoteExchange {
    /// Takes the outcome of the pending input/output and decides what follows.
    pub fn advance(self, outcome: IoOutcome) -> (next: RemoteExchange)
        ensures
            next@ == self@.advance(outcome@),
    {
        match self {
            RemoteExchange::Connect { host, port, request, expects_ack } => match outcome {
                IoOutcome::Done(_) => RemoteExchange::Send { request, expects_ack },
                IoOutcome::TimedOut => RemoteExchange::Done(Err(DeviceError::Timeout)),
                IoOutcome::Failed(reason) => RemoteExchange::Done(
                    Err(DeviceError::Unavailable(host, reason)),
                ),
            },
            RemoteExchange::Send { request, expects_ack } => match outcome {
                IoOutcome::Done(_) => if expects_ack {
                    RemoteExchange::AwaitAck
                } else {
                    RemoteExchange::Done(Ok(()))
                },
                IoOutcome::TimedOut => RemoteExchange::Done(Err(DeviceError::Timeout)),
                IoOutcome::Failed(reason) => RemoteExchange::Done(Err(DeviceError::Io(reason))),
            },
            RemoteExchange::AwaitAck => match outcome {
                IoOutcome::Done(reply) => if is_acknowledgment(&reply) {
                    RemoteExchange::Done(Ok(()))
                } else {
                    RemoteExchange::Done(Err(DeviceError::HandshakeFailed))
                },
                _ => RemoteExchange::Done(Err(DeviceError::HandshakeFailed)),
            },
            RemoteExchange::Done(result) => RemoteExchange::Done(result),
        }
    }

    /// The result of the conversation, once it is over.
    pub fn result(&self) -> (result: Option<&Result<(), DeviceError>>)
        ensures
            match self {
                RemoteExchange::Done(r) => result == Some(r),
                _ => result is None,
            },
    {
        match self {
            RemoteExchange::Done(r) => Some(r),
            _ => None,
        }
    }
}

/// A handshake succeeds only on the exact acknowledgment. Whatever else the read of the
/// reply brings (other bytes, too few or too many of them, a timeout, an error), the
/// conversation ends in `HandshakeFailed`.
pub proof fn lemma_handshake_needs_exact_ack(outcome: IoOutcomeView)
    ensures
        RemoteExchangeView::AwaitAck.advance(outcome) == RemoteExchangeView::Done(Ok(()))
            <==> outcome == IoOutcomeView::Done(acknowledgment()),
        outcome != IoOutcomeView::Done(acknowledgment()) ==> RemoteExchangeView::AwaitAck.advance(
            outcome,
        ) == RemoteExchangeView::Done(Err(DeviceErrorView::HandshakeFailed)),
{
}

/// A conversation is over after three outcomes at most, and it never succeeds in
/// silence: a message is delivered exactly when the connection was made and the frame
/// written, and a handshake succeeds exactly when, on top of that, the reply read was
/// the acknowledgment.
pub proof fn lemma_conversation_outcome(
    host: Seq<char>,
    port: u16,
    request: Seq<u8>,
    expects_ack: bool,
    connected: IoOutcomeView,
    written: IoOutcomeView,
    answered: IoOutcomeView,
)
    ensures
        (RemoteExchangeView::Connect { host, port, request, expects_ack }).advance(
            connected,
        ).advance(written).advance(answered) matches RemoteExchangeView::Done(result) && (result
            is Ok <==> (connected is Done && written is Done && (expects_ack ==> answered
            == IoOutcomeView::Done(acknowledgment())))),
{
}

/// The four bytes of a length determine the length.
pub proof fn lemma_be_bytes_injective(a: u32, b: u32)
    requires
        be_bytes(a) == be_bytes(b),
    ensures
        a == b,
{
    assert(be_bytes(a)[0] == be_bytes(b)[0]);
    assert(be_bytes(a)[1] == be_bytes(b)[1]);
    assert(be_bytes(a)[2] == be_bytes(b)[2]);
    assert(be_bytes(a)[3] == be_bytes(b)[3]);
}

/// A frame is eight bytes longer than the marker and the payload it carries.
pub proof fn lemma_frame_len(token: Seq<u8>, blob: Seq<u8>)
    ensures
        message_frame(token, blob).len() == 8 + token.len() + blob.len(),
{
}

/// Frames need no terminator: a frame that begins another frame is that frame, and
/// carries the same marker and the same payload. A receiver that reads the two lengths
/// therefore cuts a stream of frames in one way only.
pub proof fn lemma_frames_are_prefix_free(
    token: Seq<u8>,
    blob: Seq<u8>,
    other_token: Seq<u8>,
    other_blob: Seq<u8>,
)
    requires
        fits_frame(token, blob),
        fits_frame(other_token, other_blob),
        message_frame(token, blob).is_prefix_of(message_frame(other_token, other_blob)),
    ensures
        token == other_token,
        blob == other_blob,
{
    let f = message_frame(token, blob);
    let g = message_frame(other_token, other_blob);
    lemma_frame_len(token, blob);
    lemma_frame_len(other_token, other_blob);
    assert(forall|i: int| 0 <= i < f.len() ==> f[i] == g[i]);
    let n = token.len() as u32;
    let m = other_token.len() as u32;
    assert(be_bytes(n) =~= be_bytes(m)) by {
        assert forall|i: int| 0 <= i < 4 implies be_bytes(n)[i] == be_bytes(m)[i] by {
            assert(f[i] == be_bytes(n)[i]);
            assert(g[i] == be_bytes(m)[i]);
        }
    }
    lemma_be_bytes_injective(n, m);
    assert(token =~= other_token) by {
        assert forall|i: int| 0 <= i < token.len() implies token[i] == other_token[i] by {
            assert(f[4 + i] == token[i]);
            assert(g[4 + i] == other_token[i]);
        }
    }
    let p = blob.len() as u32;
    let q = other_blob.len() as u32;
    let at = 4 + token.len();
    assert(be_bytes(p) =~= be_bytes(q)) by {
        assert forall|i: int| 0 <= i < 4 implies be_bytes(p)[i] == be_bytes(q)[i] by {
            assert(f[at + i] == be_bytes(p)[i]);
            assert(g[at + i] == be_bytes(q)[i]);
        }
    }
    lemma_be_bytes_injective(p, q);
    assert(blob =~= other_blob) by {
        assert forall|i: int| 0 <= i < blob.len() implies blob[i] == other_blob[i] by {
            assert(f[at + 4 + i] == blob[i]);
            assert(g[at + 4 + i] == other_blob[i]);
        }
    }
}

} // verus!
