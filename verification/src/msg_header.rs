//! Transport frame header: an 8-byte little-endian payload length followed by
//! one flags byte.
//!
//! Every message on the inter-VM pipe is a frame: `HEADER_LEN` header bytes,
//! then the payload. The length field counts the payload bytes only, never
//! the header. The flags byte carries the reconnect signal that lets the
//! peer discard an in-flight half-frame when the local stream was swapped.

use vstd::bytes::lemma_auto_spec_u64_to_from_le_bytes;
use vstd::bytes::spec_u64_from_le_bytes;
use vstd::bytes::spec_u64_to_le_bytes;
use vstd::bytes::u64_from_le_bytes;
use vstd::bytes::u64_to_le_bytes;
use vstd::prelude::*;
use vstd::slice::slice_subrange;

verus! {

/// Total header size in bytes: the length field plus the flags byte.
pub const HEADER_LEN: usize = 9;

/// Size in bytes of the little-endian length field.
pub const LENGTH_LEN: usize = 8;

/// Index of the flags byte inside the header.
pub const FLAGS_INDEX: usize = 8;

/// Flags value of an ordinary data frame.
pub const FLAG_NONE: u8 = 0;

/// Flags value of a reconnect signal frame (bit 0 set).
pub const FLAG_RECONN: u8 = 1;

/// The nine header bytes that announce a payload of `len` bytes with the
/// given flags byte.
pub open spec fn spec_header_bytes(len: u64, flags: u8) -> Seq<u8> {
    spec_u64_to_le_bytes(len).push(flags)
}

/// The payload length announced by the first `LENGTH_LEN` bytes of `bytes`.
pub open spec fn spec_header_len(bytes: Seq<u8>) -> u64
    recommends
        bytes.len() >= LENGTH_LEN,
{
    spec_u64_from_le_bytes(bytes.subrange(0, LENGTH_LEN as int))
}

/// A frame header under construction or decoding.
pub struct MsgHeader(pub [u8; 9]);

impl View for MsgHeader {
    type V = Seq<u8>;

    open spec fn view(&self) -> Seq<u8> {
        self.0@
    }
}

impl MsgHeader {
    /// A header announcing an empty ordinary frame.
    pub fn new() -> (h: MsgHeader)
        ensures
            h@ == spec_header_bytes(0, FLAG_NONE),
    {
        let mut h = MsgHeader([0u8; 9]);
        h.update(0, FLAG_NONE);
        h
    }

    /// Overwrite the header with the encoding of `len` and `flags`.
    pub fn update(&mut self, len: u64, flags: u8)
        ensures
            final(self)@ == spec_header_bytes(len, flags),
    {
        let bytes = u64_to_le_bytes(len);
        self.0[0] = bytes[0];
        self.0[1] = bytes[1];
        self.0[2] = bytes[2];
        self.0[3] = bytes[3];
        self.0[4] = bytes[4];
        self.0[5] = bytes[5];
        self.0[6] = bytes[6];
        self.0[7] = bytes[7];
        self.0[8] = flags;
        proof {
            assert(self@ =~= spec_header_bytes(len, flags));
        }
    }

    /// The payload length this header announces.
    pub fn len(&self) -> (l: u64)
        ensures
            l == spec_header_len(self@),
    {
        let s = self.0.as_slice();
        u64_from_le_bytes(slice_subrange(s, 0, 8))
    }

    /// The flags byte of this header.
    pub fn flags(&self) -> (f: u8)
        ensures
            f == self@[FLAGS_INDEX as int],
    {
        self.0[8]
    }
}

/// Decoding a header recovers exactly the length and flags it was built
/// from: for every length and flags value, the nine encoded bytes announce
/// that same length, carry that same flags byte, and nothing else.
pub proof fn lemma_header_round_trip(len: u64, flags: u8)
    ensures
        spec_header_bytes(len, flags).len() == HEADER_LEN,
        spec_header_len(spec_header_bytes(len, flags)) == len,
        spec_header_bytes(len, flags)[FLAGS_INDEX as int] == flags,
{
    lemma_auto_spec_u64_to_from_le_bytes();
    assert(spec_header_bytes(len, flags).subrange(0, LENGTH_LEN as int) =~= spec_u64_to_le_bytes(
        len,
    ));
}

} // verus!
