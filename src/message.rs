use vstd::prelude::*;

use crate::error::Error;
use crate::hdf::{
    read_u64, u64_at, u64_bytes, lemma_header_round_trip, ANNOUNCE, HDF, HDF_LEN, KEYLOAD, SEQUENCE,
    SIGNED_PACKET, SUBSCRIBE, TAGGED_PACKET,
};
use crate::link::{Link, PublicKey, PskId};

verus! {

/// Body of a message, one variant per content kind. Every kind but the
/// announcement chains from the state committed under `link`.
#[derive(Clone, Debug)]
pub enum Content {
    Announce { sig_pk: PublicKey, flags: u8 },
    Subscribe { link: u64, unsubscribe_key: Vec<u8>, subscriber_sig_pk: PublicKey },
    /// `key` is the session key; a recipient that holds none of the keys it
    /// was sealed to reads `None`.
    Keyload {
        link: u64,
        nonce: Vec<u8>,
        key: Option<Vec<u8>>,
        psk_ids: Vec<PskId>,
        ke_pks: Vec<PublicKey>,
    },
    SignedPacket {
        link: u64,
        sig_pk: PublicKey,
        public_payload: Vec<u8>,
        masked_payload: Vec<u8>,
    },
    TaggedPacket { link: u64, public_payload: Vec<u8>, masked_payload: Vec<u8> },
    Sequence { link: u64, pk: PublicKey, seq_num: u32, ref_link: u64 },
}

impl Content {
    /// The header tag of this kind of content.
    pub open spec fn spec_content_type(&self) -> u8 {
        match self {
            Content::Announce { .. } => ANNOUNCE,
            Content::Subscribe { .. } => SUBSCRIBE,
            Content::Keyload { .. } => KEYLOAD,
            Content::SignedPacket { .. } => SIGNED_PACKET,
            Content::TaggedPacket { .. } => TAGGED_PACKET,
            Content::Sequence { .. } => SEQUENCE,
        }
    }

    /// The relative link of the parent state, if the content has one.
    pub open spec fn spec_link_to(&self) -> Option<u64> {
        match self {
            Content::Announce { .. } => None,
            Content::Subscribe { link, .. } => Some(*link),
            Content::Keyload { link, .. } => Some(*link),
            Content::SignedPacket { link, .. } => Some(*link),
            Content::TaggedPacket { link, .. } => Some(*link),
            Content::Sequence { link, .. } => Some(*link),
        }
    }

    pub fn content_type(&self) -> (r: u8)
        ensures
            r == self.spec_content_type(),
    {
        match self {
            Content::Announce { .. } => ANNOUNCE,
            Content::Subscribe { .. } => SUBSCRIBE,
            Content::Keyload { .. } => KEYLOAD,
            Content::SignedPacket { .. } => SIGNED_PACKET,
            Content::TaggedPacket { .. } => TAGGED_PACKET,
            Content::Sequence { .. } => SEQUENCE,
        }
    }

    pub fn link_to(&self) -> (r: Option<u64>)
        ensures
            r == self.spec_link_to(),
    {
        match self {
            Content::Announce { .. } => None,
            Content::Subscribe { link, .. } => Some(*link),
            Content::Keyload { link, .. } => Some(*link),
            Content::SignedPacket { link, .. } => Some(*link),
            Content::TaggedPacket { link, .. } => Some(*link),
            Content::Sequence { link, .. } => Some(*link),
        }
    }
}

/// The clear bytes a message starts with: its header, then the parent link
/// of every kind but the announcement.
pub open spec fn spec_frame(header: HDF, link_to: Option<u64>) -> Seq<u8> {
    match link_to {
        Some(l) => header.spec_bytes() + u64_bytes(l),
        None => header.spec_bytes(),
    }
}

/// A message in wire form: its address and its bytes (header, then body).
#[derive(Clone, Debug)]
pub struct BinaryMessage {
    pub link: Link,
    pub body: Vec<u8>,
}

/// The sponge state a wrapped message leaves, to be committed under `link`.
#[derive(Clone, Debug)]
pub struct WrapState {
    pub link: Link,
    pub spongos: Vec<u8>,
}

/// A wrapped message and the state to commit once it is sent.
#[derive(Clone, Debug)]
pub struct WrappedMessage {
    pub message: BinaryMessage,
    pub wrapped: WrapState,
}

/// Header and content of a message about to be wrapped.
#[derive(Clone, Debug)]
pub struct PreparedMessage {
    pub header: HDF,
    pub content: Content,
}

/// A received message whose header is read and whose body is still sealed.
#[derive(Clone, Debug)]
pub struct PreparsedMessage {
    pub link: Link,
    pub header: HDF,
    pub header_bytes: Vec<u8>,
    pub body: Vec<u8>,
}

/// A received message whose body was opened; `spongos` is the state to
/// commit under `link`.
#[derive(Clone, Debug)]
pub struct UnwrappedMessage {
    pub link: Link,
    pub content: Content,
    pub spongos: Vec<u8>,
}

/// What a handler hands back: the message's address and what it carried.
#[derive(Clone, Debug)]
pub struct GenericMessage<T> {
    pub link: Link,
    pub body: T,
}

impl<T> GenericMessage<T> {
    pub fn new(link: Link, body: T) -> (r: GenericMessage<T>)
        ensures
            r.link == link,
            r.body == body,
    {
        GenericMessage { link, body }
    }
}

/// Bytes `from..to` of `b`.
pub(crate) fn copy_range(b: &Vec<u8>, from: usize, to: usize) -> (r: Vec<u8>)
    requires
        from <= to <= b@.len(),
    ensures
        r@ == b@.subrange(from as int, to as int),
{
    let mut r: Vec<u8> = Vec::new();
    let mut i: usize = from;
    while i < to
        invariant
            from <= i <= to <= b@.len(),
            r@ == b@.subrange(from as int, i as int),
        decreases to - i,
    {
        r.push(b[i]);
        i = i + 1;
        proof {
            assert(r@ =~= b@.subrange(from as int, i as int));
        }
    }
    r
}

/// Appends the bytes of `b` to `out`.
pub(crate) fn append_bytes(out: &mut Vec<u8>, b: &Vec<u8>)
    ensures
        final(out)@ == old(out)@ + b@,
{
    let mut i: usize = 0;
    while i < b.len()
        invariant
            i <= b@.len(),
            out@ == old(out)@ + b@.subrange(0, i as int),
        decreases b@.len() - i,
    {
        out.push(b[i]);
        i = i + 1;
        proof {
            assert(out@ =~= old(out)@ + b@.subrange(0, i as int));
        }
    }
    proof {
        assert(b@.subrange(0, b@.len() as int) =~= b@);
    }
}

impl BinaryMessage {
    /// Reads the header. The header's link must be the message's address.
    pub fn parse_header(&self) -> (r: Result<PreparsedMessage, Error>)
        ensures
            !HDF::spec_parses(self.body@) ==> r == Err::<PreparsedMessage, Error>(
                Error::EncodingError,
            ),
            HDF::spec_parses(self.body@) && HDF::spec_decode(self.body@).link != self.link ==> r
                == Err::<PreparsedMessage, Error>(Error::AddressMismatch),
            HDF::spec_parses(self.body@) && HDF::spec_decode(self.body@).link == self.link ==> (
            r matches Ok(p) && p.link == self.link && p.header == HDF::spec_decode(self.body@)
                && p.header_bytes@ == self.body@.subrange(0, HDF_LEN as int) && p.body@
                == self.body@.subrange(HDF_LEN as int, self.body@.len() as int)),
    {
        let header = HDF::parse(&self.body)?;
        if header.link != self.link {
            return Err(Error::AddressMismatch);
        }
        let header_bytes = copy_range(&self.body, 0, HDF_LEN);
        let body = copy_range(&self.body, HDF_LEN, self.body.len());
        Ok(PreparsedMessage { link: self.link, header, header_bytes, body })
    }
}

impl PreparsedMessage {
    /// The parent link that the body starts with, and the sealed rest.
    pub fn split_link_to(&self) -> (r: Result<(u64, Vec<u8>), Error>)
        ensures
            self.body@.len() < 8 ==> r == Err::<(u64, Vec<u8>), Error>(Error::EncodingError),
            self.body@.len() >= 8 ==> (r matches Ok((l, sealed)) && l == u64_at(self.body@, 0)
                && sealed@ == self.body@.subrange(8, self.body@.len() as int)),
    {
        if self.body.len() < 8 {
            return Err(Error::EncodingError);
        }
        let l = read_u64(&self.body, 0);
        let sealed = copy_range(&self.body, 8, self.body.len());
        Ok((l, sealed))
    }
}

impl WrappedMessage {
    /// Builds the wire form of a message from its header, its content and
    /// what sealing the content gave: the sealed body and the sponge state.
    pub fn assemble(header: HDF, content: &Content, sealed: Option<(Vec<u8>, Vec<u8>)>) -> (r: Result<
        WrappedMessage,
        Error,
    >)
        requires
            header.valid(),
        ensures
            sealed is None ==> r == Err::<WrappedMessage, Error>(Error::CryptoFailure),
            sealed matches Some((body, state)) ==> (r matches Ok(w) && w.message.link == header.link
                && w.wrapped.link == header.link && w.wrapped.spongos == state
                && w.message.body@ == spec_frame(header, content.spec_link_to()) + body@),
            r matches Ok(w) ==> HDF::spec_parses(w.message.body@) && HDF::spec_decode(
                w.message.body@,
            ) == header,
    {
        match sealed {
            None => Err(Error::CryptoFailure),
            Some((body, state)) => {
                let mut bytes = header.to_bytes();
                match content.link_to() {
                    Some(l) => {
                        crate::hdf::push_u64(&mut bytes, l);
                    },
                    None => {},
                }
                append_bytes(&mut bytes, &body);
                proof {
                    let rest = bytes@.subrange(HDF_LEN as int, bytes@.len() as int);
                    assert(bytes@ =~= header.spec_bytes() + rest);
                    lemma_header_round_trip(header, rest);
                }
                Ok(
                    WrappedMessage {
                        message: BinaryMessage { link: header.link, body: bytes },
                        wrapped: WrapState { link: header.link, spongos: state },
                    },
                )
            },
        }
    }
}

} // verus!
