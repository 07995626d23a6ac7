//! Framing of the inter-VM byte stream.
//!
//! The sending pump turns each burst of bytes read from the local stream into
//! one frame: a header announcing the payload length, then the payload. The
//! receiving pump feeds whatever the pipe hands it into a [`FrameParser`],
//! which releases a payload only once every byte of its frame has arrived;
//! bytes delivered beyond a frame boundary are carried into the next frame.

use crate::msg_header::FLAGS_INDEX;
use crate::msg_header::HEADER_LEN;
use crate::msg_header::LENGTH_LEN;
use crate::msg_header::MsgHeader;
use crate::msg_header::lemma_header_round_trip;
use crate::msg_header::spec_header_bytes;
use crate::msg_header::spec_header_len;
use vstd::bytes::u64_from_le_bytes;
use vstd::prelude::*;
use vstd::slice::slice_subrange;

verus! {

/// Largest whole frame, header included.
pub const MAX_FRAME: usize = 65536;

/// Largest payload a single frame may carry.
pub const MAX_PAYLOAD: usize = MAX_FRAME - HEADER_LEN;

/// The bytes of one whole frame: the header announcing `payload.len()` with
/// the given flags byte, then the payload itself.
pub open spec fn spec_frame_bytes(payload: Seq<u8>, flags: u8) -> Seq<u8>
    recommends
        payload.len() <= MAX_PAYLOAD,
{
    spec_header_bytes(payload.len() as u64, flags) + payload
}

/// A whole, well-sized frame stands at the front of `b`.
pub open spec fn spec_frame_ready(b: Seq<u8>) -> bool {
    &&& b.len() >= HEADER_LEN
    &&& spec_header_len(b) <= MAX_PAYLOAD
    &&& b.len() >= HEADER_LEN + spec_header_len(b)
}

/// The header at the front of `b` announces a payload larger than any frame
/// may carry: the peer broke the wire contract.
pub open spec fn spec_oversize(b: Seq<u8>) -> bool {
    &&& b.len() >= HEADER_LEN
    &&& spec_header_len(b) > MAX_PAYLOAD
}

/// Every whole frame at the front of `b`, as (flags, payload) pairs, in
/// order. Parsing stops at the first incomplete or oversize frame.
pub open spec fn spec_parse_frames(b: Seq<u8>) -> Seq<(u8, Seq<u8>)>
    decreases b.len(),
{
    if spec_frame_ready(b) {
        seq![
            (b[FLAGS_INDEX as int], b.subrange(
                HEADER_LEN as int,
                HEADER_LEN + spec_header_len(b),
            )),
        ] + spec_parse_frames(b.skip(HEADER_LEN + spec_header_len(b)))
    } else {
        Seq::empty()
    }
}

/// The payloads of a parsed frame sequence, in order.
pub open spec fn spec_payloads(frames: Seq<(u8, Seq<u8>)>) -> Seq<Seq<u8>> {
    frames.map_values(|f: (u8, Seq<u8>)| f.1)
}

/// Encode one frame: header first, payload after.
pub fn encode_frame(payload: &Vec<u8>, flags: u8) -> (frame: Vec<u8>)
    requires
        payload@.len() <= MAX_PAYLOAD,
    ensures
        frame@ == spec_frame_bytes(payload@, flags),
        frame@.len() == HEADER_LEN + payload@.len(),
{
    let mut header = MsgHeader::new();
    header.update(payload.len() as u64, flags);
    proof {
        lemma_header_round_trip(payload.len() as u64, flags);
    }
    let mut frame: Vec<u8> = Vec::new();
    let mut i: usize = 0;
    while i < HEADER_LEN
        invariant
            i <= HEADER_LEN,
            header@ == spec_header_bytes(payload@.len() as u64, flags),
            header@.len() == HEADER_LEN,
            frame@ == header@.subrange(0, i as int),
        decreases HEADER_LEN - i,
    {
        frame.push(header.0[i]);
        proof {
            assert(frame@ =~= header@.subrange(0, i + 1));
        }
        i = i + 1;
    }
    proof {
        assert(header@.subrange(0, HEADER_LEN as int) =~= header@);
    }
    let mut j: usize = 0;
    while j < payload.len()
        invariant
            j <= payload@.len(),
            frame@ == spec_header_bytes(payload@.len() as u64, flags) + payload@.subrange(
                0,
                j as int,
            ),
        decreases payload@.len() - j,
    {
        frame.push(payload[j]);
        proof {
            assert(frame@ =~= spec_header_bytes(payload@.len() as u64, flags) + payload@.subrange(
                0,
                j + 1,
            ));
        }
        j = j + 1;
    }
    proof {
        assert(payload@.subrange(0, payload@.len() as int) =~= payload@);
    }
    frame
}

/// What one attempt to take a frame out of the parser produced.
pub enum FrameStep {
    /// No whole frame is buffered yet; nothing was consumed.
    NeedMore,
    /// One whole frame was consumed and its flags and payload handed out.
    Frame { flags: u8, payload: Vec<u8> },
    /// The buffered header announces a payload over [`MAX_PAYLOAD`]; nothing
    /// was consumed. The session must treat the pipe as broken.
    Oversize,
}

/// Incremental decoder for the framed pipe stream. It buffers the bytes fed
/// to it and releases one payload per whole frame; a trailing partial frame
/// stays buffered and is completed by later feeds.
pub struct FrameParser {
    buf: Vec<u8>,
}

impl View for FrameParser {
    type V = Seq<u8>;

    closed spec fn view(&self) -> Seq<u8> {
        self.buf@
    }
}

impl FrameParser {
    /// An empty parser.
    pub fn new() -> (p: FrameParser)
        ensures
            p@ == Seq::<u8>::empty(),
    {
        FrameParser { buf: Vec::new() }
    }

    /// Append freshly read pipe bytes to the buffered stream.
    pub fn feed(&mut self, chunk: &[u8])
        ensures
            final(self)@ == old(self)@ + chunk@,
    {
        let mut i: usize = 0;
        while i < chunk.len()
            invariant
                i <= chunk@.len(),
                self@ == old(self)@ + chunk@.subrange(0, i as int),
            decreases chunk@.len() - i,
        {
            self.buf.push(chunk[i]);
            proof {
                assert(self@ =~= old(self)@ + chunk@.subrange(0, i + 1));
            }
            i = i + 1;
        }
        proof {
            assert(old(self)@ + chunk@.subrange(0, chunk@.len() as int) =~= old(self)@ + chunk@);
        }
    }

    /// Drop everything buffered. Used when a reconnect signal tells the pump
    /// to discard an in-flight half-frame.
    pub fn reset(&mut self)
        ensures
            final(self)@ == Seq::<u8>::empty(),
    {
        self.buf.clear();
    }

    /// Number of buffered bytes not yet released as payloads.
    pub fn buffered(&self) -> (n: usize)
        ensures
            n == self@.len(),
    {
        self.buf.len()
    }

    /// Take the frame at the front of the buffered stream, if it is whole.
    ///
    /// A payload is handed out only when all its announced bytes have
    /// arrived; otherwise nothing is consumed. Bytes past the frame boundary
    /// stay buffered for the next frame.
    pub fn next_frame(&mut self) -> (r: FrameStep)
        ensures
            match r {
                FrameStep::NeedMore => {
                    &&& final(self)@ == old(self)@
                    &&& !spec_frame_ready(old(self)@)
                    &&& !spec_oversize(old(self)@)
                },
                FrameStep::Frame { flags, payload } => {
                    &&& spec_frame_ready(old(self)@)
                    &&& flags == old(self)@[FLAGS_INDEX as int]
                    &&& payload@ == old(self)@.subrange(
                        HEADER_LEN as int,
                        HEADER_LEN + spec_header_len(old(self)@),
                    )
                    &&& final(self)@ == old(self)@.skip(HEADER_LEN + spec_header_len(old(self)@))
                },
                FrameStep::Oversize => {
                    &&& final(self)@ == old(self)@
                    &&& spec_oversize(old(self)@)
                },
            },
    {
        if self.buf.len() < HEADER_LEN {
            return FrameStep::NeedMore;
        }
        let announced = u64_from_le_bytes(slice_subrange(self.buf.as_slice(), 0, LENGTH_LEN));
        proof {
            assert(self.buf@.subrange(0, LENGTH_LEN as int) == self@.subrange(
                0,
                LENGTH_LEN as int,
            ));
        }
        if announced > MAX_PAYLOAD as u64 {
            return FrameStep::Oversize;
        }
        let payload_len = announced as usize;
        if self.buf.len() - HEADER_LEN < payload_len {
            return FrameStep::NeedMore;
        }
        let flags = self.buf[FLAGS_INDEX];
        let rest = self.buf.split_off(HEADER_LEN + payload_len);
        let payload = self.buf.split_off(HEADER_LEN);
        self.buf = rest;
        proof {
            let whole = old(self)@;
            let plen = spec_header_len(whole) as int;
            assert(payload@ =~= whole.subrange(HEADER_LEN as int, HEADER_LEN + plen));
            assert(self@ =~= whole.skip(HEADER_LEN + plen));
        }
        FrameStep::Frame { flags, payload }
    }
}

/// No partial-frame delivery: while any byte of the frame announced at the
/// front of the stream is still missing, parsing delivers nothing at all —
/// a reader never advances past a length it has read until that many
/// payload bytes follow.
pub proof fn lemma_no_partial_delivery(b: Seq<u8>)
    requires
        !spec_frame_ready(b),
    ensures
        spec_parse_frames(b) == Seq::<(u8, Seq<u8>)>::empty(),
{
}

/// Parsing takes frames off the stream one at a time: a whole frame followed
/// by anything else parses to that frame's flags and payload, followed by
/// whatever the remainder parses to.
pub proof fn lemma_parse_one_frame(payload: Seq<u8>, flags: u8, rest: Seq<u8>)
    requires
        payload.len() <= MAX_PAYLOAD,
    ensures
        spec_parse_frames(spec_frame_bytes(payload, flags) + rest) == seq![(flags, payload)]
            + spec_parse_frames(rest),
{
    let b = spec_frame_bytes(payload, flags) + rest;
    lemma_header_round_trip(payload.len() as u64, flags);
    assert(b.subrange(0, LENGTH_LEN as int) =~= spec_header_bytes(
        payload.len() as u64,
        flags,
    ).subrange(0, LENGTH_LEN as int));
    assert(spec_header_len(b) == payload.len());
    assert(spec_frame_ready(b));
    assert(b[FLAGS_INDEX as int] == flags);
    assert(b.subrange(HEADER_LEN as int, HEADER_LEN + spec_header_len(b)) =~= payload);
    assert(b.skip(HEADER_LEN + spec_header_len(b)) =~= rest);
    assert(spec_parse_frames(b) =~= seq![(flags, payload)] + spec_parse_frames(rest));
}

/// Byte transparency of the engine's framed direction: divide any input byte
/// stream into bursts of at most [`MAX_PAYLOAD`] bytes, frame each burst, and
/// concatenate the frames; parsing that stream returns exactly the bursts,
/// so the payloads' concatenation is the original input.
pub proof fn lemma_byte_transparency(chunks: Seq<Seq<u8>>, flags: u8)
    requires
        forall|i: int| 0 <= i < chunks.len() ==> #[trigger] chunks[i].len() <= MAX_PAYLOAD,
    ensures
        spec_payloads(
            spec_parse_frames(
                chunks.map_values(|c: Seq<u8>| spec_frame_bytes(c, flags)).flatten(),
            ),
        ) == chunks,
        spec_payloads(
            spec_parse_frames(
                chunks.map_values(|c: Seq<u8>| spec_frame_bytes(c, flags)).flatten(),
            ),
        ).flatten() == chunks.flatten(),
    decreases chunks.len(),
{
    let framed = chunks.map_values(|c: Seq<u8>| spec_frame_bytes(c, flags));
    if chunks.len() == 0 {
        assert(framed.flatten() =~= Seq::<u8>::empty());
        assert(!spec_frame_ready(framed.flatten()));
        assert(spec_payloads(spec_parse_frames(framed.flatten())) =~= chunks);
    } else {
        let head = chunks.first();
        let tail = chunks.drop_first();
        let framed_tail = tail.map_values(|c: Seq<u8>| spec_frame_bytes(c, flags));
        assert(framed.first() == spec_frame_bytes(head, flags));
        assert(framed.drop_first() =~= framed_tail);
        assert(framed.flatten() == spec_frame_bytes(head, flags) + framed_tail.flatten());
        lemma_parse_one_frame(head, flags, framed_tail.flatten());
        lemma_byte_transparency(tail, flags);
        let parsed = spec_parse_frames(framed.flatten());
        let parsed_tail = spec_parse_frames(framed_tail.flatten());
        assert(parsed == seq![(flags, head)] + parsed_tail);
        assert forall|i: int| 0 <= i < parsed.len() implies spec_payloads(parsed)[i]
            == chunks[i] by {
            if i > 0 {
                assert(parsed[i] == parsed_tail[i - 1]);
                assert(spec_payloads(parsed_tail)[i - 1] == parsed_tail[i - 1].1);
            }
        }
        assert(spec_payloads(parsed) =~= chunks);
        assert(spec_payloads(parsed).flatten() == chunks.flatten());
    }
}

} // verus!
