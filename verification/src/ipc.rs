//! The local IPC between client and service: every message is a `u32`
//! big-endian length prefix followed by that many bytes of JSON. Commands are
//! one-shot connections; status is streamed over one long-lived subscription.
//! The service decides here what each command asks of it.

use vstd::prelude::*;

use crate::proto::{Command, UpstreamSel};

verus! {

/// The four big-endian bytes of `n`.
pub open spec fn be32(n: u32) -> Seq<u8> {
    seq![(n >> 24u32) as u8, ((n >> 16u32) & 0xffu32) as u8, ((n >> 8u32) & 0xffu32) as u8, (n & 0xffu32) as u8]
}

/// The number whose big-endian bytes are `b0 b1 b2 b3`.
pub open spec fn be32_value(b0: u8, b1: u8, b2: u8, b3: u8) -> u32 {
    ((b0 as u32) << 24u32) | ((b1 as u32) << 16u32) | ((b2 as u32) << 8u32) | (b3 as u32)
}

proof fn lemma_be32_roundtrip(n: u32)
    ensures
        be32_value(
            (n >> 24u32) as u8,
            ((n >> 16u32) & 0xffu32) as u8,
            ((n >> 8u32) & 0xffu32) as u8,
            (n & 0xffu32) as u8,
        ) == n,
{
    assert(((((n >> 24u32) as u8) as u32) << 24u32) | (((((n >> 16u32) & 0xffu32) as u8) as u32)
        << 16u32) | (((((n >> 8u32) & 0xffu32) as u8) as u32) << 8u32) | (((n & 0xffu32) as u8) as u32)
        == n) by (bit_vector);
}

/// The frame that carries `body`: its length as four big-endian bytes, then
/// the body.
pub open spec fn frame(body: Seq<u8>) -> Seq<u8> {
    be32(body.len() as u32) + body
}

/// Frames a message body.
pub fn encode_frame(body: &Vec<u8>) -> (r: Vec<u8>)
    requires
        body@.len() <= u32::MAX,
    ensures
        r@ == frame(body@),
{
    let n = body.len() as u32;
    let mut out: Vec<u8> = Vec::new();
    out.push((n >> 24u32) as u8);
    out.push(((n >> 16u32) & 0xffu32) as u8);
    out.push(((n >> 8u32) & 0xffu32) as u8);
    out.push((n & 0xffu32) as u8);
    crate::ipc::extend_bytes(&mut out, body);
    proof {
        assert(out@ =~= frame(body@));
    }
    out
}

/// Appends `extra` to `out`.
pub fn extend_bytes(out: &mut Vec<u8>, extra: &Vec<u8>)
    ensures
        final(out)@ == old(out)@ + extra@,
{
    let n = extra.len();
    let mut i: usize = 0;
    let ghost start = out@;
    while i < n
        invariant
            n == extra@.len(),
            i <= n,
            out@ =~= start + extra@.take(i as int),
        decreases n - i,
    {
        out.push(extra[i]);
        i = i + 1;
    }
    proof {
        assert(extra@.take(n as int) =~= extra@);
    }
}

/// The body length a frame header announces.
pub fn frame_body_len(header: [u8; 4]) -> (r: u32)
    ensures
        r == be32_value(header@[0], header@[1], header@[2], header@[3]),
{
    ((header[0] as u32) << 24u32) | ((header[1] as u32) << 16u32) | ((header[2] as u32) << 8u32)
        | (header[3] as u32)
}

/// The result of reading one frame from the front of a buffer.
pub enum FrameRead {
    /// The buffer does not yet hold a whole frame.
    Incomplete,
    /// A whole frame: its body, and how many bytes of the buffer it took.
    Complete { body: Vec<u8>, consumed: usize },
}

/// The frame at the front of `buf`, if all of it is there: `(body, bytes taken)`.
pub open spec fn frame_at_front(buf: Seq<u8>) -> Option<(Seq<u8>, int)> {
    if buf.len() < 4 {
        None
    } else {
        let n = be32_value(buf[0], buf[1], buf[2], buf[3]) as int;
        if buf.len() < 4 + n {
            None
        } else {
            Some((buf.subrange(4, 4 + n), 4 + n))
        }
    }
}

/// Reads one frame from the front of `buf`.
pub fn decode_frame(buf: &Vec<u8>) -> (r: FrameRead)
    ensures
        match frame_at_front(buf@) {
            None => r is Incomplete,
            Some((body, used)) => r matches FrameRead::Complete { body: b, consumed } && b@ == body
                && consumed == used,
        },
{
    if buf.len() < 4 {
        return FrameRead::Incomplete;
    }
    let n = frame_body_len([buf[0], buf[1], buf[2], buf[3]]);
    proof {
        assert([buf@[0], buf@[1], buf@[2], buf@[3]]@[0] == buf@[0]);
    }
    if buf.len() - 4 < n as usize {
        return FrameRead::Incomplete;
    }
    let end = 4 + n as usize;
    let mut body: Vec<u8> = Vec::new();
    let mut i: usize = 4;
    while i < end
        invariant
            4 <= i <= end <= buf@.len(),
            body@ =~= buf@.subrange(4, i as int),
        decreases end - i,
    {
        body.push(buf[i]);
        i = i + 1;
    }
    FrameRead::Complete { body, consumed: end }
}

/// Reading a frame gives back the body that was framed, whatever follows it.
pub proof fn law_frame_roundtrip(body: Seq<u8>, rest: Seq<u8>)
    requires
        body.len() <= u32::MAX,
    ensures
        frame_at_front(frame(body) + rest) == Some((body, 4 + body.len() as int)),
{
    let n = body.len() as u32;
    lemma_be32_roundtrip(n);
    let buf = frame(body) + rest;
    assert(buf.subrange(4, 4 + body.len() as int) =~= body);
}

/// What the service does for a command.
pub enum ServiceAction {
    /// Reply `Pong`.
    ReplyPong,
    /// Reply with the current status.
    ReplyStatus,
    /// Start streaming status changes on this connection, then reply with the
    /// current status.
    SubscribeAndReplyStatus,
    /// Connect to this upstream; reply with the resulting status.
    Connect(UpstreamSel),
    /// Disconnect; reply with the resulting status.
    Disconnect,
}

/// Routes a command to what the service does for it.
pub fn route_command(cmd: Command) -> (r: ServiceAction)
    ensures
        match cmd {
            Command::Ping => r is ReplyPong,
            Command::GetStatus => r is ReplyStatus,
            Command::Subscribe => r is SubscribeAndReplyStatus,
            Command::Connect { upstream } => r matches ServiceAction::Connect(u) && u == upstream,
            Command::Disconnect => r is Disconnect,
        },
{
    match cmd {
        Command::Ping => ServiceAction::ReplyPong,
        Command::GetStatus => ServiceAction::ReplyStatus,
        Command::Subscribe => ServiceAction::SubscribeAndReplyStatus,
        Command::Connect { upstream } => ServiceAction::Connect(upstream),
        Command::Disconnect => ServiceAction::Disconnect,
    }
}

} // verus!
