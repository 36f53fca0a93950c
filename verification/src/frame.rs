//! Length-prefixed message frames: `[u32 big-endian length][payload]`.
//!
//! The payload is the JSON encoding of a [`ChatMessage`]; turning a message
//! into those bytes and back is done at the edge of the program. This module
//! frames payload bytes, checks the size limit, and cuts a payload back out
//! of a frame.

use vstd::prelude::*;
use crate::text::{decimal, push_decimal, push_str, string_of};

verus! {

/// Maximum payload size allowed for a single frame (1 MiB).
pub const MAX_FRAME_PAYLOAD_SIZE: usize = 1048576;

/// Number of bytes in the length prefix.
pub const HEADER_LEN: usize = 4;

/// The four big-endian bytes of `n`.
pub open spec fn be_bytes(n: nat) -> Seq<u8> {
    seq![
        ((n / 0x1000000) % 0x100) as u8,
        ((n / 0x10000) % 0x100) as u8,
        ((n / 0x100) % 0x100) as u8,
        (n % 0x100) as u8,
    ]
}

/// The number that four big-endian bytes spell.
pub open spec fn be_value(b: Seq<u8>) -> nat
    recommends
        b.len() >= 4,
{
    (b[0] as nat) * 0x1000000 + (b[1] as nat) * 0x10000 + (b[2] as nat) * 0x100 + (b[3] as nat)
}

/// Reading back the prefix written for a 32-bit length gives that length.
pub proof fn lemma_be_round_trip(n: nat)
    requires
        n < 0x1_0000_0000,
    ensures
        be_value(be_bytes(n)) == n,
{
    let b = be_bytes(n);
    assert(b[0] as nat == (n / 0x1000000) % 0x100);
    assert(b[1] as nat == (n / 0x10000) % 0x100);
    assert(b[2] as nat == (n / 0x100) % 0x100);
    assert(b[3] as nat == n % 0x100);
    assert(n == ((n / 0x1000000) % 0x100) * 0x1000000 + ((n / 0x10000) % 0x100) * 0x10000 + ((n
        / 0x100) % 0x100) * 0x100 + n % 0x100) by (nonlinear_arith)
        requires
            n < 0x1_0000_0000,
    ;
}

/// The frame that carries `payload`.
pub open spec fn frame_of(payload: Seq<u8>) -> Seq<u8> {
    be_bytes(payload.len()) + payload
}

/// The length prefix of a frame is the payload length as a big-endian `u32`:
/// its byte `k` is the length shifted right by `8 * (3 - k)` bits, masked to
/// 8 bits, so the four bytes read as `b0 * 2^24 + b1 * 2^16 + b2 * 2^8 + b3`
/// give the length back. The payload follows unchanged.
pub proof fn lemma_frame_prefix_is_big_endian(payload: Seq<u8>)
    requires
        payload.len() <= MAX_FRAME_PAYLOAD_SIZE,
    ensures
        ({
            let f = frame_of(payload);
            let n = payload.len();
            &&& f.len() == HEADER_LEN + n
            &&& f[0] as nat == (n / 0x1000000) % 0x100
            &&& f[1] as nat == (n / 0x10000) % 0x100
            &&& f[2] as nat == (n / 0x100) % 0x100
            &&& f[3] as nat == n % 0x100
            &&& (f[0] as int) * 0x1000000 + (f[1] as int) * 0x10000 + (f[2] as int) * 0x100 + (
            f[3] as int) == n
            &&& f.subrange(HEADER_LEN as int, f.len() as int) == payload
        }),
{
    let f = frame_of(payload);
    let n = payload.len();
    assert(f[0] as nat == (n / 0x1000000) % 0x100);
    assert(f[1] as nat == (n / 0x10000) % 0x100);
    assert(f[2] as nat == (n / 0x100) % 0x100);
    assert(f[3] as nat == n % 0x100);
    assert(n == ((n / 0x1000000) % 0x100) * 0x1000000 + ((n / 0x10000) % 0x100) * 0x10000 + ((n
        / 0x100) % 0x100) * 0x100 + n % 0x100) by (nonlinear_arith)
        requires
            n <= MAX_FRAME_PAYLOAD_SIZE,
    ;
    assert(f.subrange(HEADER_LEN as int, f.len() as int) =~= payload);
}

/// Application chat message payload.
#[derive(Debug, Clone, PartialEq, Eq)]
pub struct ChatMessage {
    pub text: String,
    pub timestamp: u64,
}

impl ChatMessage {
    /// A message with the given text and Unix timestamp (seconds).
    pub fn new(text: &str, timestamp: u64) -> (msg: ChatMessage)
        ensures
            msg.text@ == text@,
            msg.timestamp == timestamp,
    {
        ChatMessage { text: text.to_owned(), timestamp }
    }
}

/// Why a frame could not be written or read.
#[derive(Debug, Clone, Copy, PartialEq, Eq)]
pub enum FrameError {
    /// The Session failed underneath the frame.
    Session,
    /// A payload (written or announced) exceeds `max` bytes.
    FrameTooLarge { size: usize, max: usize },
    /// The payload is not the JSON of a chat message.
    Json,
    /// The bytes ended before the frame did.
    UnexpectedEof,
}

/// What decoding `bytes` as one frame yields: the payload, or the error.
pub open spec fn decode_result(bytes: Seq<u8>) -> Result<Seq<u8>, FrameError> {
    if bytes.len() < HEADER_LEN {
        Err(FrameError::UnexpectedEof)
    } else if be_value(bytes) > MAX_FRAME_PAYLOAD_SIZE {
        Err(FrameError::FrameTooLarge { size: be_value(bytes) as usize, max: MAX_FRAME_PAYLOAD_SIZE })
    } else if bytes.len() < HEADER_LEN + be_value(bytes) {
        Err(FrameError::UnexpectedEof)
    } else {
        Ok(bytes.subrange(HEADER_LEN as int, HEADER_LEN + be_value(bytes)))
    }
}

/// Frame `payload`: prefix it with its length as a big-endian `u32`.
///
/// A payload longer than [`MAX_FRAME_PAYLOAD_SIZE`] is refused.
pub fn encode_frame(payload: &[u8]) -> (res: Result<Vec<u8>, FrameError>)
    ensures
        payload@.len() > MAX_FRAME_PAYLOAD_SIZE ==> res == Err::<Vec<u8>, FrameError>(
            FrameError::FrameTooLarge { size: payload@.len() as usize, max: MAX_FRAME_PAYLOAD_SIZE },
        ),
        payload@.len() <= MAX_FRAME_PAYLOAD_SIZE ==> (res matches Ok(frame) && frame@ == frame_of(payload@)),
        payload@.len() <= MAX_FRAME_PAYLOAD_SIZE ==> (res matches Ok(frame)
            && frame@.len() == HEADER_LEN + payload@.len()
            && (frame@[0] as int) * 0x1000000 + (frame@[1] as int) * 0x10000 + (frame@[2] as int)
                * 0x100 + (frame@[3] as int) == payload@.len()
            && frame@.subrange(HEADER_LEN as int, frame@.len() as int) == payload@),
{
    let len = payload.len();
    if len > MAX_FRAME_PAYLOAD_SIZE {
        return Err(FrameError::FrameTooLarge { size: len, max: MAX_FRAME_PAYLOAD_SIZE });
    }
    let mut buf: Vec<u8> = Vec::with_capacity(HEADER_LEN + len);
    buf.push(((len / 0x1000000) % 0x100) as u8);
    buf.push(((len / 0x10000) % 0x100) as u8);
    buf.push(((len / 0x100) % 0x100) as u8);
    buf.push((len % 0x100) as u8);
    assert(buf@ == be_bytes(len as nat));
    let mut i: usize = 0;
    while i < len
        invariant
            i <= len,
            len == payload@.len(),
            buf@ == be_bytes(len as nat) + payload@.subrange(0, i as int),
        decreases len - i,
    {
        buf.push(payload[i]);
        i = i + 1;
        assert(payload@.subrange(0, i as int) == payload@.subrange(0, i - 1).push(payload@[i - 1]));
    }
    assert(payload@.subrange(0, len as int) == payload@);
    proof {
        lemma_frame_prefix_is_big_endian(payload@);
        assert(buf@.subrange(HEADER_LEN as int, buf@.len() as int) =~= payload@);
    }
    Ok(buf)
}

/// Read the length announced by the first four bytes of `bytes`.
fn announced_len(bytes: &[u8]) -> (n: usize)
    requires
        bytes@.len() >= HEADER_LEN,
    ensures
        n == be_value(bytes@),
{
    (bytes[0] as usize) * 0x1000000 + (bytes[1] as usize) * 0x10000 + (bytes[2] as usize) * 0x100
        + (bytes[3] as usize)
}

/// Decode one complete frame from `bytes` and hand back its payload.
///
/// `bytes` must hold the 4-byte length prefix and the whole payload; bytes
/// after the payload are ignored.
pub fn decode_frame(bytes: &[u8]) -> (res: Result<Vec<u8>, FrameError>)
    ensures
        match res {
            Ok(payload) => decode_result(bytes@) == Ok::<Seq<u8>, FrameError>(payload@),
            Err(e) => decode_result(bytes@) == Err::<Seq<u8>, FrameError>(e),
        },
        bytes@.len() < HEADER_LEN ==> res == Err::<Vec<u8>, FrameError>(FrameError::UnexpectedEof),
        bytes@.len() >= HEADER_LEN ==> ({
            let n = (bytes@[0] as int) * 0x1000000 + (bytes@[1] as int) * 0x10000 + (bytes@[2] as int)
                * 0x100 + (bytes@[3] as int);
            &&& n > MAX_FRAME_PAYLOAD_SIZE ==> res == Err::<Vec<u8>, FrameError>(
                FrameError::FrameTooLarge { size: n as usize, max: MAX_FRAME_PAYLOAD_SIZE },
            )
            &&& n <= MAX_FRAME_PAYLOAD_SIZE && bytes@.len() < HEADER_LEN + n ==> res == Err::<
                Vec<u8>,
                FrameError,
            >(FrameError::UnexpectedEof)
            &&& n <= MAX_FRAME_PAYLOAD_SIZE && bytes@.len() >= HEADER_LEN + n ==> (res matches Ok(
                payload,
            ) && payload@ == bytes@.subrange(HEADER_LEN as int, HEADER_LEN + n))
        }),
{
    if bytes.len() < HEADER_LEN {
        return Err(FrameError::UnexpectedEof);
    }
    let n = announced_len(bytes);
    if n > MAX_FRAME_PAYLOAD_SIZE {
        return Err(FrameError::FrameTooLarge { size: n, max: MAX_FRAME_PAYLOAD_SIZE });
    }
    if bytes.len() - HEADER_LEN < n {
        return Err(FrameError::UnexpectedEof);
    }
    let mut payload: Vec<u8> = Vec::with_capacity(n);
    let mut i: usize = 0;
    while i < n
        invariant
            i <= n,
            HEADER_LEN + n <= bytes@.len(),
            bytes@.len() == bytes.len(),
            payload@ == bytes@.subrange(HEADER_LEN as int, HEADER_LEN + i),
        decreases n - i,
    {
        payload.push(bytes[HEADER_LEN + i]);
        i = i + 1;
    }
    Ok(payload)
}

/// Four bytes are the big-endian prefix of the number they spell.
pub proof fn lemma_be_bytes_of_value(b: Seq<u8>)
    requires
        b.len() == 4,
    ensures
        be_bytes(be_value(b)) == b,
{
    let n = be_value(b);
    let (b0, b1, b2, b3) = (b[0] as nat, b[1] as nat, b[2] as nat, b[3] as nat);
    assert((n / 0x1000000) % 0x100 == b0 && (n / 0x10000) % 0x100 == b1 && (n / 0x100) % 0x100
        == b2 && n % 0x100 == b3) by (nonlinear_arith)
        requires
            n == b0 * 0x1000000 + b1 * 0x10000 + b2 * 0x100 + b3,
            b0 < 0x100,
            b1 < 0x100,
            b2 < 0x100,
            b3 < 0x100,
    ;
    assert(be_bytes(n) =~= b);
}

/// Frames are self-delimiting: decoding the frame of a payload that fits,
/// followed by any further bytes, gives back exactly that payload.
pub proof fn lemma_decode_encode(payload: Seq<u8>, rest: Seq<u8>)
    requires
        payload.len() <= MAX_FRAME_PAYLOAD_SIZE,
    ensures
        decode_result(frame_of(payload) + rest) == Ok::<Seq<u8>, FrameError>(payload),
{
    let bytes = frame_of(payload) + rest;
    lemma_be_round_trip(payload.len());
    assert(bytes.subrange(0, 4) =~= be_bytes(payload.len()));
    assert(be_value(bytes) == be_value(be_bytes(payload.len())));
    assert(bytes.subrange(HEADER_LEN as int, HEADER_LEN + payload.len()) =~= payload);
}

/// Whatever a frame decodes to, the bytes it was read from begin with the
/// frame of that payload, and the payload fits the limit.
pub proof fn lemma_encode_decode(bytes: Seq<u8>)
    requires
        decode_result(bytes) is Ok,
    ensures
        ({
            let payload = decode_result(bytes)->Ok_0;
            &&& payload.len() <= MAX_FRAME_PAYLOAD_SIZE
            &&& bytes.subrange(0, HEADER_LEN + payload.len()) == frame_of(payload)
        }),
{
    let payload = decode_result(bytes)->Ok_0;
    let head = bytes.subrange(0, 4);
    assert(be_value(head) == be_value(bytes));
    lemma_be_bytes_of_value(head);
    assert(bytes.subrange(0, HEADER_LEN + payload.len()) =~= frame_of(payload));
}

/// Progress of reading a frame's 4-byte length prefix after one `recv`.
#[derive(Debug, Clone, Copy, PartialEq, Eq)]
pub enum HeaderStep {
    /// The Session ended cleanly before any byte of a new frame.
    Closed,
    /// The Session ended inside the length prefix.
    Truncated,
    /// This many prefix bytes are in; read more.
    Partial(usize),
    /// The whole prefix is in.
    Complete,
}

/// What follows a `recv` that delivered `received` more bytes of the length
/// prefix, `already` bytes of which had arrived before.
pub open spec fn header_step_spec(already: nat, received: nat) -> HeaderStep {
    if received == 0 {
        if already == 0 {
            HeaderStep::Closed
        } else {
            HeaderStep::Truncated
        }
    } else if already + received < HEADER_LEN {
        HeaderStep::Partial((already + received) as usize)
    } else {
        HeaderStep::Complete
    }
}

/// Where reading the length prefix stands after `recv` returned the byte
/// counts `counts` in turn, `already` bytes being in at the start: `None`
/// while more is to be read, otherwise the step that ended it.
pub open spec fn read_header(already: nat, counts: Seq<nat>) -> Option<HeaderStep>
    decreases counts.len(),
{
    if counts.len() == 0 {
        None
    } else {
        match header_step_spec(already, counts[0]) {
            HeaderStep::Partial(n) => read_header(n as nat, counts.drop_first()),
            step => Some(step),
        }
    }
}

/// The sum of `counts`.
pub open spec fn total(counts: Seq<nat>) -> nat
    decreases counts.len(),
{
    if counts.len() == 0 {
        0
    } else {
        counts[0] + total(counts.drop_first())
    }
}

/// However the stream hands out the length prefix, in pieces of any
/// non-zero sizes that add up to the rest of the prefix, reading it ends
/// complete, exactly with the last piece.
pub proof fn lemma_header_any_chunking(already: nat, counts: Seq<nat>)
    requires
        already < HEADER_LEN,
        counts.len() > 0,
        forall|k: int| 0 <= k < counts.len() ==> #[trigger] counts[k] > 0,
        already + total(counts) == HEADER_LEN,
    ensures
        read_header(already, counts) == Some(HeaderStep::Complete),
    decreases counts.len(),
{
    let rest = counts.drop_first();
    if counts.len() > 1 {
        assert(rest[0] == counts[1]);
        assert(total(rest) > 0);
        assert forall|k: int| 0 <= k < rest.len() implies #[trigger] rest[k] > 0 by {
            assert(rest[k] == counts[k + 1]);
        }
        lemma_header_any_chunking(already + counts[0], rest);
    } else {
        assert(total(rest) == 0);
    }
}

/// Reading the length prefix ends clean (`Closed`) only when the stream ends
/// before the first byte of it; ending later is `Truncated`.
pub proof fn lemma_header_close(already: nat, counts: Seq<nat>)
    requires
        already < HEADER_LEN,
        read_header(already, counts) is Some,
        read_header(already, counts)->Some_0 is Closed,
    ensures
        already == 0,
        counts[0] == 0,
    decreases counts.len(),
{
    if counts[0] > 0 {
        let n = already + counts[0];
        if n < HEADER_LEN {
            lemma_header_close(n, counts.drop_first());
        }
    }
}

/// Decide what follows a `recv` that delivered `received` more bytes of the
/// length prefix, `already` bytes of which had arrived before.
pub fn header_step(already: usize, received: usize) -> (step: HeaderStep)
    requires
        already < HEADER_LEN,
        received <= HEADER_LEN - already,
    ensures
        received == 0 && already == 0 ==> step == HeaderStep::Closed,
        received == 0 && already > 0 ==> step == HeaderStep::Truncated,
        received > 0 && already + received < HEADER_LEN ==> step == HeaderStep::Partial(
            (already + received) as usize,
        ),
        received > 0 && already + received == HEADER_LEN ==> step == HeaderStep::Complete,
        step == header_step_spec(already as nat, received as nat),
{
    if received == 0 {
        if already == 0 {
            HeaderStep::Closed
        } else {
            HeaderStep::Truncated
        }
    } else if already + received < HEADER_LEN {
        HeaderStep::Partial(already + received)
    } else {
        HeaderStep::Complete
    }
}

/// Check the length announced by a complete 4-byte prefix: the payload size
/// to read next, or the refusal of an oversized frame.
pub fn payload_len(header: &[u8]) -> (res: Result<usize, FrameError>)
    requires
        header@.len() == HEADER_LEN,
    ensures
        be_value(header@) <= MAX_FRAME_PAYLOAD_SIZE ==> res == Ok::<usize, FrameError>(
            be_value(header@) as usize,
        ),
        be_value(header@) > MAX_FRAME_PAYLOAD_SIZE ==> res == Err::<usize, FrameError>(
            FrameError::FrameTooLarge { size: be_value(header@) as usize, max: MAX_FRAME_PAYLOAD_SIZE },
        ),
        ({
            let n = (header@[0] as int) * 0x1000000 + (header@[1] as int) * 0x10000 + (header@[2] as int)
                * 0x100 + (header@[3] as int);
            &&& n <= MAX_FRAME_PAYLOAD_SIZE ==> res == Ok::<usize, FrameError>(n as usize)
            &&& n > MAX_FRAME_PAYLOAD_SIZE ==> res == Err::<usize, FrameError>(
                FrameError::FrameTooLarge { size: n as usize, max: MAX_FRAME_PAYLOAD_SIZE },
            )
        }),
{
    let n = announced_len(header);
    if n > MAX_FRAME_PAYLOAD_SIZE {
        Err(FrameError::FrameTooLarge { size: n, max: MAX_FRAME_PAYLOAD_SIZE })
    } else {
        Ok(n)
    }
}

/// The text shown for a frame error.
pub open spec fn frame_error_text(e: FrameError) -> Seq<char> {
    match e {
        FrameError::Session => "session I/O failed"@,
        FrameError::FrameTooLarge { size, max } => "frame length exceeds maximum allowed limit ("@
            + decimal(size as nat) + " > "@ + decimal(max as nat) + ")"@,
        FrameError::Json => "failed to serialize/deserialize frame JSON"@,
        FrameError::UnexpectedEof => "unexpected EOF while reading frame"@,
    }
}

impl FrameError {
    /// The text shown for this error.
    pub fn message(&self) -> (text: String)
        ensures
            text@ == frame_error_text(*self),
    {
        match self {
            FrameError::Session => string_of("session I/O failed"),
            FrameError::FrameTooLarge { size, max } => {
                let mut t = string_of("frame length exceeds maximum allowed limit (");
                push_decimal(&mut t, *size as u64);
                push_str(&mut t, " > ");
                push_decimal(&mut t, *max as u64);
                push_str(&mut t, ")");
                t
            },
            FrameError::Json => string_of("failed to serialize/deserialize frame JSON"),
            FrameError::UnexpectedEof => string_of("unexpected EOF while reading frame"),
        }
    }
}

/// Reading a frame from a stream agrees with decoding it whole: once the
/// 4-byte prefix is in, `payload_len` refuses exactly the frames that
/// `decode_frame` refuses as too large, and otherwise the payload is the next
/// `n` bytes, as `decode_frame` gives it when they are all there.
pub proof fn lemma_stream_read_agrees_with_decode(bytes: Seq<u8>)
    requires
        bytes.len() >= HEADER_LEN,
    ensures
        ({
            let n = be_value(bytes.take(HEADER_LEN as int));
            &&& n > MAX_FRAME_PAYLOAD_SIZE ==> decode_result(bytes) == Err::<Seq<u8>, FrameError>(
                FrameError::FrameTooLarge { size: n as usize, max: MAX_FRAME_PAYLOAD_SIZE },
            )
            &&& n <= MAX_FRAME_PAYLOAD_SIZE && bytes.len() >= HEADER_LEN + n ==> decode_result(bytes)
                == Ok::<Seq<u8>, FrameError>(bytes.subrange(HEADER_LEN as int, HEADER_LEN + n))
            &&& n <= MAX_FRAME_PAYLOAD_SIZE && bytes.len() < HEADER_LEN + n ==> decode_result(bytes)
                == Err::<Seq<u8>, FrameError>(FrameError::UnexpectedEof)
        }),
{
    assert(be_value(bytes.take(HEADER_LEN as int)) == be_value(bytes));
}

/// Reading a frame from a stream: whatever sizes the stream hands the
/// 4-byte length prefix out in (non-zero, adding up to 4), the prefix read
/// completes, `payload_len` of it is the payload's length, and the next that
/// many bytes are the payload; the bytes after it stay for the next frame.
pub proof fn lemma_read_frame_any_chunking(payload: Seq<u8>, rest: Seq<u8>, counts: Seq<nat>)
    requires
        payload.len() <= MAX_FRAME_PAYLOAD_SIZE,
        counts.len() > 0,
        forall|k: int| 0 <= k < counts.len() ==> #[trigger] counts[k] > 0,
        total(counts) == HEADER_LEN,
    ensures
        ({
            let bytes = frame_of(payload) + rest;
            &&& read_header(0, counts) == Some(HeaderStep::Complete)
            &&& be_value(bytes.take(HEADER_LEN as int)) == payload.len()
            &&& bytes.subrange(HEADER_LEN as int, HEADER_LEN + payload.len()) == payload
            &&& bytes.skip(HEADER_LEN + payload.len()) == rest
            &&& decode_result(bytes) == Ok::<Seq<u8>, FrameError>(payload)
        }),
{
    let bytes = frame_of(payload) + rest;
    lemma_header_any_chunking(0, counts);
    lemma_decode_encode(payload, rest);
    lemma_be_round_trip(payload.len());
    assert(bytes.take(HEADER_LEN as int) =~= be_bytes(payload.len()));
    assert(bytes.subrange(HEADER_LEN as int, HEADER_LEN + payload.len()) =~= payload);
    assert(bytes.skip(HEADER_LEN + payload.len()) =~= rest);
}

} // verus!
