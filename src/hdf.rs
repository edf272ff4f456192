use vstd::prelude::*;

use crate::error::Error;
use crate::link::Link;

verus! {

/// Content type of an announcement.
pub const ANNOUNCE: u8 = 0;

/// Content type of a keyload.
pub const KEYLOAD: u8 = 1;

/// Content type of a signed packet.
pub const SIGNED_PACKET: u8 = 2;

/// Content type of a tagged packet.
pub const TAGGED_PACKET: u8 = 3;

/// Content type of a subscription.
pub const SUBSCRIBE: u8 = 4;

/// Content type of an unsubscription (reserved).
pub const UNSUBSCRIBE: u8 = 5;

/// Content type of a sequence message.
pub const SEQUENCE: u8 = 6;

/// Largest content type the header can carry (four bits).
pub const MAX_CONTENT_TYPE: u8 = 15;

/// Largest payload length hint the header can carry (ten bits).
pub const MAX_PAYLOAD_LENGTH: u16 = 1023;

/// Flag bit that puts a channel in multi-branch mode.
pub const FLAG_BRANCHING_MASK: u8 = 1;

/// Length in bytes of an encoded header.
pub const HDF_LEN: usize = 24;

/// Message header: `link ‖ content_type ‖ payload_length ‖ seq_num ‖ flags`.
#[derive(Clone, Copy, Debug, PartialEq, Eq, Structural)]
pub struct HDF {
    pub link: Link,
    pub content_type: u8,
    pub payload_length: u16,
    pub seq_num: u32,
    pub flags: u8,
}

/// Big-endian bytes of a 64-bit value.
pub open spec fn u64_bytes(x: u64) -> Seq<u8> {
    seq![
        (x >> 56u64) as u8, (x >> 48u64) as u8, (x >> 40u64) as u8, (x >> 32u64) as u8,
        (x >> 24u64) as u8, (x >> 16u64) as u8, (x >> 8u64) as u8, x as u8,
    ]
}

/// Big-endian bytes of a 32-bit value.
pub open spec fn u32_bytes(x: u32) -> Seq<u8> {
    seq![(x >> 24u32) as u8, (x >> 16u32) as u8, (x >> 8u32) as u8, x as u8]
}

/// Big-endian bytes of a 16-bit value.
pub open spec fn u16_bytes(x: u16) -> Seq<u8> {
    seq![(x >> 8u16) as u8, x as u8]
}

/// The 64-bit value of eight big-endian bytes starting at `at`.
pub open spec fn u64_at(b: Seq<u8>, at: int) -> u64 {
    (b[at] as u64) << 56u64 | (b[at + 1] as u64) << 48u64 | (b[at + 2] as u64) << 40u64
        | (b[at + 3] as u64) << 32u64 | (b[at + 4] as u64) << 24u64 | (b[at + 5] as u64) << 16u64
        | (b[at + 6] as u64) << 8u64 | (b[at + 7] as u64)
}

/// The 32-bit value of four big-endian bytes starting at `at`.
pub open spec fn u32_at(b: Seq<u8>, at: int) -> u32 {
    (b[at] as u32) << 24u32 | (b[at + 1] as u32) << 16u32 | (b[at + 2] as u32) << 8u32 | (
    b[at + 3] as u32)
}

/// The 16-bit value of two big-endian bytes starting at `at`.
pub open spec fn u16_at(b: Seq<u8>, at: int) -> u16 {
    (b[at] as u16) << 8u16 | (b[at + 1] as u16)
}

impl HDF {
    /// The header's fields fit the widths the wire format gives them.
    pub open spec fn valid(&self) -> bool {
        self.content_type <= MAX_CONTENT_TYPE && self.payload_length <= MAX_PAYLOAD_LENGTH
    }

    /// Wire form of the header.
    pub open spec fn spec_bytes(&self) -> Seq<u8> {
        u64_bytes(self.link.base) + u64_bytes(self.link.rel) + seq![self.content_type] + u16_bytes(
            self.payload_length,
        ) + u32_bytes(self.seq_num) + seq![self.flags]
    }

    /// The header that the first `HDF_LEN` bytes of `b` encode.
    pub open spec fn spec_decode(b: Seq<u8>) -> HDF {
        HDF {
            link: Link { base: u64_at(b, 0), rel: u64_at(b, 8) },
            content_type: b[16],
            payload_length: u16_at(b, 17),
            seq_num: u32_at(b, 19),
            flags: b[23],
        }
    }

    /// Whether `b` starts with a well-formed header.
    pub open spec fn spec_parses(b: Seq<u8>) -> bool {
        b.len() >= HDF_LEN && HDF::spec_decode(b).valid()
    }

    /// A header at `link` with every other field zero.
    pub fn new(link: Link) -> (r: HDF)
        ensures
            r == (HDF { link, content_type: 0, payload_length: 0, seq_num: 0, flags: 0 }),
    {
        HDF { link, content_type: 0, payload_length: 0, seq_num: 0, flags: 0 }
    }

    pub fn with_content_type(self, content_type: u8) -> (r: Result<HDF, Error>)
        ensures
            content_type <= MAX_CONTENT_TYPE ==> r == Ok::<HDF, Error>(HDF { content_type, ..self }),
            content_type > MAX_CONTENT_TYPE ==> r == Err::<HDF, Error>(Error::EncodingError),
    {
        if content_type > MAX_CONTENT_TYPE {
            Err(Error::EncodingError)
        } else {
            Ok(HDF { content_type, ..self })
        }
    }

    pub fn with_payload_length(self, payload_length: usize) -> (r: Result<HDF, Error>)
        ensures
            payload_length <= MAX_PAYLOAD_LENGTH ==> r == Ok::<HDF, Error>(
                HDF { payload_length: payload_length as u16, ..self },
            ),
            payload_length > MAX_PAYLOAD_LENGTH ==> r == Err::<HDF, Error>(Error::EncodingError),
    {
        if payload_length > MAX_PAYLOAD_LENGTH as usize {
            Err(Error::EncodingError)
        } else {
            Ok(HDF { payload_length: payload_length as u16, ..self })
        }
    }

    pub fn with_seq_num(self, seq_num: u32) -> (r: HDF)
        ensures
            r == (HDF { seq_num, ..self }),
    {
        HDF { seq_num, ..self }
    }

    pub fn with_flags(self, flags: u8) -> (r: HDF)
        ensures
            r == (HDF { flags, ..self }),
    {
        HDF { flags, ..self }
    }

    /// Encodes the header, link first.
    pub fn to_bytes(&self) -> (r: Vec<u8>)
        ensures
            r@ == self.spec_bytes(),
            r@.len() == HDF_LEN,
    {
        let mut out: Vec<u8> = Vec::new();
        push_u64(&mut out, self.link.base);
        push_u64(&mut out, self.link.rel);
        out.push(self.content_type);
        push_u16(&mut out, self.payload_length);
        push_u32(&mut out, self.seq_num);
        out.push(self.flags);
        proof {
            assert(out@ =~= self.spec_bytes());
        }
        out
    }

    /// Reads the header at the start of `b`.
    pub fn parse(b: &Vec<u8>) -> (r: Result<HDF, Error>)
        ensures
            HDF::spec_parses(b@) ==> r == Ok::<HDF, Error>(HDF::spec_decode(b@)),
            !HDF::spec_parses(b@) ==> r == Err::<HDF, Error>(Error::EncodingError),
    {
        if b.len() < HDF_LEN {
            return Err(Error::EncodingError);
        }
        let h = HDF {
            link: Link { base: read_u64(b, 0), rel: read_u64(b, 8) },
            content_type: b[16],
            payload_length: (b[17] as u16) << 8u16 | (b[18] as u16),
            seq_num: (b[19] as u32) << 24u32 | (b[20] as u32) << 16u32 | (b[21] as u32) << 8u32 | (
            b[22] as u32),
            flags: b[23],
        };
        if h.content_type > MAX_CONTENT_TYPE || h.payload_length > MAX_PAYLOAD_LENGTH {
            Err(Error::EncodingError)
        } else {
            Ok(h)
        }
    }
}

pub(crate) fn push_u64(out: &mut Vec<u8>, x: u64)
    ensures
        final(out)@ == old(out)@ + u64_bytes(x),
{
    out.push((x >> 56u64) as u8);
    out.push((x >> 48u64) as u8);
    out.push((x >> 40u64) as u8);
    out.push((x >> 32u64) as u8);
    out.push((x >> 24u64) as u8);
    out.push((x >> 16u64) as u8);
    out.push((x >> 8u64) as u8);
    out.push(x as u8);
    proof {
        assert(out@ =~= old(out)@ + u64_bytes(x));
    }
}

fn push_u32(out: &mut Vec<u8>, x: u32)
    ensures
        final(out)@ == old(out)@ + u32_bytes(x),
{
    out.push((x >> 24u32) as u8);
    out.push((x >> 16u32) as u8);
    out.push((x >> 8u32) as u8);
    out.push(x as u8);
    proof {
        assert(out@ =~= old(out)@ + u32_bytes(x));
    }
}

fn push_u16(out: &mut Vec<u8>, x: u16)
    ensures
        final(out)@ == old(out)@ + u16_bytes(x),
{
    out.push((x >> 8u16) as u8);
    out.push(x as u8);
    proof {
        assert(out@ =~= old(out)@ + u16_bytes(x));
    }
}

pub(crate) fn read_u64(b: &Vec<u8>, at: usize) -> (r: u64)
    requires
        at + 8 <= b@.len(),
    ensures
        r == u64_at(b@, at as int),
{
    let n: usize = b.len();
    assert(at + 8 <= n);
    (b[at] as u64) << 56u64 | (b[at + 1] as u64) << 48u64 | (b[at + 2] as u64) << 40u64 | (b[at
        + 3] as u64) << 32u64 | (b[at + 4] as u64) << 24u64 | (b[at + 5] as u64) << 16u64 | (b[at
        + 6] as u64) << 8u64 | (b[at + 7] as u64)
}

/// Decoding the bytes of a 64-bit value gives the value back.
pub proof fn lemma_u64_round_trip(x: u64, b: Seq<u8>, at: int)
    requires
        0 <= at,
        at + 8 <= b.len(),
        b.subrange(at, at + 8) == u64_bytes(x),
    ensures
        u64_at(b, at) == x,
{
    assert(b[at] == u64_bytes(x)[0]);
    assert(b[at + 1] == u64_bytes(x)[1]);
    assert(b[at + 2] == u64_bytes(x)[2]);
    assert(b[at + 3] == u64_bytes(x)[3]);
    assert(b[at + 4] == u64_bytes(x)[4]);
    assert(b[at + 5] == u64_bytes(x)[5]);
    assert(b[at + 6] == u64_bytes(x)[6]);
    assert(b[at + 7] == u64_bytes(x)[7]);
    assert(((((x >> 56u64) as u8) as u64) << 56u64 | (((x >> 48u64) as u8) as u64) << 48u64 | (((
    x >> 40u64) as u8) as u64) << 40u64 | (((x >> 32u64) as u8) as u64) << 32u64 | (((x
        >> 24u64) as u8) as u64) << 24u64 | (((x >> 16u64) as u8) as u64) << 16u64 | (((x
        >> 8u64) as u8) as u64) << 8u64 | ((x as u8) as u64)) == x) by (bit_vector);
}

/// Decoding an encoded header, whatever follows it, gives the header back.
pub proof fn lemma_header_round_trip(h: HDF, rest: Seq<u8>)
    requires
        h.valid(),
    ensures
        HDF::spec_parses(h.spec_bytes() + rest),
        HDF::spec_decode(h.spec_bytes() + rest) == h,
{
    let b = h.spec_bytes() + rest;
    assert(b.subrange(0, 8) =~= u64_bytes(h.link.base));
    assert(b.subrange(8, 16) =~= u64_bytes(h.link.rel));
    lemma_u64_round_trip(h.link.base, b, 0);
    lemma_u64_round_trip(h.link.rel, b, 8);
    let p = h.payload_length;
    let s = h.seq_num;
    assert(b[17] == (p >> 8u16) as u8);
    assert(b[18] == p as u8);
    assert(b[19] == (s >> 24u32) as u8);
    assert(b[20] == (s >> 16u32) as u8);
    assert(b[21] == (s >> 8u32) as u8);
    assert(b[22] == s as u8);
    assert(((((p >> 8u16) as u8) as u16) << 8u16 | ((p as u8) as u16)) == p) by (bit_vector);
    assert(((((s >> 24u32) as u8) as u32) << 24u32 | (((s >> 16u32) as u8) as u32) << 16u32 | (((s
        >> 8u32) as u8) as u32) << 8u32 | ((s as u8) as u32)) == s) by (bit_vector);
    assert(b[16] == h.content_type);
    assert(b[23] == h.flags);
}

} // verus!
