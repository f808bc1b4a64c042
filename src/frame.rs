//! Length-prefixed frames: a 4-byte big-endian length `N`, then exactly `N`
//! payload bytes.
use vstd::prelude::*;
use vstd::slice::slice_subrange;

verus! {

/// The largest payload a codec accepts unless configured otherwise (16 MiB).
pub const DEFAULT_MAX_FRAME_SIZE: u32 = 16777216;

/// Why a frame could not be read or written.
#[derive(Debug, Clone, Copy, PartialEq, Eq, Structural)]
pub enum FrameError {
    /// The stream ended before the whole frame was available.
    UnexpectedEnd,
    /// The length exceeds the configured maximum frame size.
    TooLarge { declared: u64, max: u32 },
    /// The payload is not UTF-8 text.
    NotUtf8,
}

impl FrameError {
    /// True for a violation of the wire protocol, as opposed to a short stream.
    pub fn is_protocol_error(&self) -> (r: bool)
        ensures
            r == !(self is UnexpectedEnd),
    {
        match self {
            FrameError::TooLarge { .. } | FrameError::NotUtf8 => true,
            FrameError::UnexpectedEnd => false,
        }
    }
}

/// The four big-endian bytes of `n`.
pub open spec fn be_bytes(n: u32) -> Seq<u8> {
    seq![(n >> 24u32) as u8, ((n >> 16u32) & 0xffu32) as u8, ((n >> 8u32) & 0xffu32) as u8, (n & 0xffu32) as u8]
}

/// The number that four big-endian bytes stand for.
#[verifier::opaque]
pub open spec fn be_value(b0: u8, b1: u8, b2: u8, b3: u8) -> u32 {
    ((b0 as u32) << 24u32) | ((b1 as u32) << 16u32) | ((b2 as u32) << 8u32) | (b3 as u32)
}

/// The length that the first four bytes of `s` declare.
pub open spec fn declared_len(s: Seq<u8>) -> u32
    recommends
        s.len() >= 4,
{
    be_value(s[0], s[1], s[2], s[3])
}

/// The bytes of the frame that carries `payload`.
pub open spec fn frame_of(payload: Seq<u8>) -> Seq<u8>
    recommends
        payload.len() <= u32::MAX,
{
    be_bytes(payload.len() as u32) + payload
}

/// What reading one frame from the front of `s` gives, under a size bound:
/// the payload and the number of bytes the frame took.
pub open spec fn read_result(max: u32, s: Seq<u8>) -> Result<(Seq<u8>, int), FrameError> {
    if s.len() < 4 {
        Err(FrameError::UnexpectedEnd)
    } else if declared_len(s) > max {
        Err(FrameError::TooLarge { declared: declared_len(s) as u64, max })
    } else if s.len() < 4 + declared_len(s) {
        Err(FrameError::UnexpectedEnd)
    } else {
        Ok((s.subrange(4, 4 + declared_len(s)), 4 + declared_len(s)))
    }
}

proof fn lemma_be_round_trip(n: u32)
    ensures
        be_value(be_bytes(n)[0], be_bytes(n)[1], be_bytes(n)[2], be_bytes(n)[3]) == n,
{
    let b0 = (n >> 24u32) as u8;
    let b1 = ((n >> 16u32) & 0xffu32) as u8;
    let b2 = ((n >> 8u32) & 0xffu32) as u8;
    let b3 = (n & 0xffu32) as u8;
    reveal(be_value);
    assert(((b0 as u32) << 24u32) | ((b1 as u32) << 16u32) | ((b2 as u32) << 8u32) | (b3 as u32) == n)
        by (bit_vector)
        requires
            b0 == (n >> 24u32) as u8,
            b1 == ((n >> 16u32) & 0xffu32) as u8,
            b2 == ((n >> 8u32) & 0xffu32) as u8,
            b3 == (n & 0xffu32) as u8,
    ;
}

/// Encodes `n` as four big-endian bytes.
pub fn u32_to_be(n: u32) -> (r: [u8; 4])
    ensures
        r@ == be_bytes(n),
{
    let r = [(n >> 24u32) as u8, ((n >> 16u32) & 0xffu32) as u8, ((n >> 8u32) & 0xffu32) as u8, (n & 0xffu32) as u8];
    assert(r@ =~= be_bytes(n));
    r
}

/// Decodes four big-endian bytes.
pub fn u32_from_be(b: [u8; 4]) -> (r: u32)
    ensures
        r == be_value(b@[0], b@[1], b@[2], b@[3]),
{
    proof {
        reveal(be_value);
    }
    ((b[0] as u32) << 24u32) | ((b[1] as u32) << 16u32) | ((b[2] as u32) << 8u32) | (b[3] as u32)
}

/// Frames payloads under an upper bound on their size.
#[derive(Debug, Clone, Copy, PartialEq, Eq, Structural)]
pub struct FrameCodec {
    pub max_frame_size: u32,
}

impl FrameCodec {
    pub fn new(max_frame_size: u32) -> (r: FrameCodec)
        ensures
            r.max_frame_size == max_frame_size,
    {
        FrameCodec { max_frame_size }
    }

    /// A codec with the default bound.
    pub fn with_default_bound() -> (r: FrameCodec)
        ensures
            r.max_frame_size == DEFAULT_MAX_FRAME_SIZE,
    {
        FrameCodec { max_frame_size: DEFAULT_MAX_FRAME_SIZE }
    }

    /// The bytes to write for one frame: the length prefix, then the payload.
    /// A payload over the bound is refused, so that the peer never receives
    /// a frame it must reject.
    pub fn write_frame(&self, payload: &[u8]) -> (r: Result<Vec<u8>, FrameError>)
        ensures
            payload@.len() <= self.max_frame_size ==> (r matches Ok(bytes) && bytes@ == frame_of(payload@)),
            payload@.len() > self.max_frame_size ==> r == Err::<Vec<u8>, FrameError>(
                FrameError::TooLarge { declared: payload@.len() as u64, max: self.max_frame_size },
            ),
    {
        let len = payload.len();
        if len > self.max_frame_size as usize {
            return Err(FrameError::TooLarge { declared: len as u64, max: self.max_frame_size });
        }
        let prefix = u32_to_be(len as u32);
        let mut out: Vec<u8> = Vec::new();
        let mut i: usize = 0;
        while i < 4
            invariant
                i <= 4,
                len <= self.max_frame_size,
                prefix@ == be_bytes(len as u32),
                out@ =~= prefix@.subrange(0, i as int),
            decreases 4 - i,
        {
            out.push(prefix[i]);
            i = i + 1;
        }
        let mut j: usize = 0;
        while j < len
            invariant
                j <= len,
                len == payload@.len(),
                len <= self.max_frame_size,
                out@ =~= be_bytes(len as u32) + payload@.subrange(0, j as int),
            decreases len - j,
        {
            out.push(payload[j]);
            j = j + 1;
        }
        assert(payload@.subrange(0, len as int) =~= payload@);
        Ok(out)
    }

    /// The payload length declared by a 4-byte frame header, checked against
    /// the bound before any payload is read or allocated.
    pub fn payload_len(&self, header: [u8; 4]) -> (r: Result<usize, FrameError>)
        ensures
            r == (if declared_len(header@) > self.max_frame_size {
                Err(FrameError::TooLarge { declared: declared_len(header@) as u64, max: self.max_frame_size })
            } else {
                Ok(declared_len(header@) as usize)
            }),
    {
        let n = u32_from_be(header);
        if n > self.max_frame_size {
            Err(FrameError::TooLarge { declared: n as u64, max: self.max_frame_size })
        } else {
            Ok(n as usize)
        }
    }

    /// Reads one frame from the front of `stream`: the payload and the number
    /// of bytes consumed.
    pub fn read_frame(&self, stream: &[u8]) -> (r: Result<(Vec<u8>, usize), FrameError>)
        ensures
            match (r, read_result(self.max_frame_size, stream@)) {
                (Ok((p, used)), Ok((q, n))) => p@ == q && used == n,
                (Err(e), Err(f)) => e == f,
                _ => false,
            },
    {
        if stream.len() < 4 {
            return Err(FrameError::UnexpectedEnd);
        }
        let header = [stream[0], stream[1], stream[2], stream[3]];
        assert(header@ =~= stream@.subrange(0, 4));
        let n = match self.payload_len(header) {
            Ok(n) => n,
            Err(e) => return Err(e),
        };
        if stream.len() - 4 < n {
            return Err(FrameError::UnexpectedEnd);
        }
        let body = slice_subrange(stream, 4, 4 + n);
        let mut payload: Vec<u8> = Vec::with_capacity(n);
        let mut i: usize = 0;
        while i < n
            invariant
                i <= n,
                body@.len() == n,
                payload@ =~= body@.subrange(0, i as int),
            decreases n - i,
        {
            payload.push(body[i]);
            i = i + 1;
        }
        assert(body@.subrange(0, n as int) =~= body@);
        Ok((payload, 4 + n))
    }
}

/// Reading back a written frame gives the payload exactly, whatever follows
/// the frame on the stream, for every payload within the bound.
pub proof fn lemma_frame_round_trip(max: u32, payload: Seq<u8>, rest: Seq<u8>)
    requires
        payload.len() <= max,
    ensures
        read_result(max, frame_of(payload) + rest) == Ok::<(Seq<u8>, int), FrameError>(
            (payload, 4 + payload.len() as int),
        ),
{
    let n = payload.len() as u32;
    let b = be_bytes(n);
    let s = frame_of(payload) + rest;
    lemma_be_round_trip(n);
    assert(s[0] == b[0] && s[1] == b[1] && s[2] == b[2] && s[3] == b[3]);
    assert(declared_len(s) == n);
    assert(s.subrange(4, 4 + n) =~= payload);
}

/// A declared length over the bound is refused as a protocol error, whatever
/// bytes follow it.
pub proof fn lemma_oversized_frame_refused(max: u32, s: Seq<u8>)
    requires
        s.len() >= 4,
        declared_len(s) > max,
    ensures
        read_result(max, s) matches Err(e) && e is TooLarge,
{
}

} // verus!
