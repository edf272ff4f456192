use vstd::prelude::*;

use crate::backend::Backend;
use crate::error::Error;
use crate::hdf::{ANNOUNCE, FLAG_BRANCHING_MASK, HDF, MAX_CONTENT_TYPE, SIGNED_PACKET, TAGGED_PACKET};
use crate::link::{Cursor, Link, PublicKey, ANN_MESSAGE_NUM, FIRST_PAYLOAD_NUM};
use crate::message::{spec_frame, Content, PreparedMessage, WrappedMessage};
use crate::store::{LinkEntry, LinkStore, PkStore, PskStore, Store};

verus! {

/// What a participant knows, as mathematical values.
pub struct UserModel {
    pub sig_pk: PublicKey,
    pub link_gen: Link,
    pub appinst: Option<Link>,
    pub author_sig_pk: Option<PublicKey>,
    pub flags: u8,
    pub pk_store: Map<u64, Cursor>,
    pub psk_store: Map<u64, Vec<u8>>,
    pub link_store: Map<u64, LinkEntry>,
}

/// A channel participant: author or subscriber.
pub struct User<B: Backend> {
    /// Cryptographic collaborators and the pseudo-random generator.
    pub backend: B,
    /// Own signing public key: the participant's identity.
    pub sig_pk: PublicKey,
    /// Own signing secret key.
    pub sig_sk: Vec<u8>,
    /// Pre-shared keys.
    pub psk_store: PskStore,
    /// Known publishers and their cursors.
    pub pk_store: PkStore,
    /// The author's signing key, once a channel is joined.
    pub author_sig_pk: Option<PublicKey>,
    /// Anchor of link derivation: the announcement address.
    pub link_gen: Link,
    /// Committed sponge states by relative link.
    pub link_store: LinkStore,
    /// Address of the channel's announcement, once a channel is joined.
    pub appinst: Option<Link>,
    /// Channel flags.
    pub flags: u8,
    pub message_encoding: Vec<u8>,
    pub uniform_payload_length: usize,
}

/// A header as the engine builds it.
pub open spec fn spec_header(link: Link, content_type: u8, seq_num: u32, flags: u8) -> HDF {
    HDF { link, content_type, payload_length: 1, seq_num, flags }
}

/// The cursor a publisher gets when first seen at a channel's announcement
/// or in a keyload.
pub open spec fn fresh_cursor(rel: u64) -> Cursor {
    Cursor { link: rel, branch_no: 0, seq_no: FIRST_PAYLOAD_NUM }
}

impl<B: Backend> View for User<B> {
    type V = UserModel;

    open spec fn view(&self) -> UserModel {
        UserModel {
            sig_pk: self.sig_pk,
            link_gen: self.link_gen,
            appinst: self.appinst,
            author_sig_pk: self.author_sig_pk,
            flags: self.flags,
            pk_store: self.pk_store@,
            psk_store: self.psk_store@,
            link_store: self.link_store@,
        }
    }
}

impl<B: Backend> User<B> {
    /// The stores are well formed; a joined channel has an author and a
    /// cursor for self; every cursor is past the reserved number zero.
    pub open spec fn wf(&self) -> bool {
        &&& self.pk_store.wf()
        &&& self.psk_store.wf()
        &&& (self.appinst is Some <==> self.author_sig_pk is Some)
        &&& (self.appinst matches Some(a) ==> self.link_gen == a && self.pk_store@.contains_key(
            self.sig_pk,
        ))
        &&& forall|k: u64| #[trigger]
            self.pk_store@.contains_key(k) ==> self.pk_store@[k].seq_no >= 1
    }

    /// In a joined channel, own cursor is at a payload number.
    pub open spec fn can_publish(&self) -> bool {
        self.appinst is Some ==> self.pk_store@[self.sig_pk].seq_no >= FIRST_PAYLOAD_NUM
    }

    /// Own cursor.
    pub open spec fn own_cursor(&self) -> Cursor {
        self.pk_store@[self.sig_pk]
    }

    /// Fields that no operation of the engine changes.
    pub open spec fn same_identity(&self, o: &Self) -> bool {
        &&& self.sig_pk == o.sig_pk
        &&& self.sig_sk == o.sig_sk
        &&& self.psk_store == o.psk_store
        &&& self.message_encoding == o.message_encoding
        &&& self.uniform_payload_length == o.uniform_payload_length
    }

    /// Creates a participant; its signing key pair comes from the backend's
    /// generator and `nonce`.
    pub fn gen(
        backend: B,
        nonce: Vec<u8>,
        flags: u8,
        message_encoding: Vec<u8>,
        uniform_payload_length: usize,
    ) -> (r: User<B>)
        ensures
            r.wf(),
            r.can_publish(),
            r.appinst is None,
            r.author_sig_pk is None,
            r.pk_store@ == Map::<u64, Cursor>::empty(),
            r.psk_store@ == Map::<u64, Vec<u8>>::empty(),
            r.link_store@ == Map::<u64, LinkEntry>::empty(),
            r.flags == flags,
            r.message_encoding == message_encoding,
            r.uniform_payload_length == uniform_payload_length,
    {
        let mut backend = backend;
        let (sig_pk, sig_sk) = backend.keypair(&nonce);
        User {
            backend,
            sig_pk,
            sig_sk,
            psk_store: Store::new(),
            pk_store: Store::new(),
            author_sig_pk: None,
            link_gen: Link { base: 0, rel: 0 },
            link_store: LinkStore::new(),
            appinst: None,
            flags,
            message_encoding,
            uniform_payload_length,
        }
    }

    /// Creates a channel without announcing it; the participant becomes its
    /// author.
    pub fn create_channel(&mut self, channel_idx: u64) -> (r: Result<(), Error>)
        requires
            old(self).wf(),
        ensures
            final(self).wf(),
            old(self).appinst is Some ==> r == Err::<(), Error>(Error::PreconditionUnmet) && *final(self) == *old(self),
            old(self).appinst is None ==> r is Ok && final(self).can_publish() && final(self)@
                == (UserModel {
                link_gen: final(self).link_gen,
                appinst: Some(final(self).link_gen),
                author_sig_pk: Some(old(self).sig_pk),
                pk_store: old(self).pk_store@.insert(
                    old(self).sig_pk,
                    fresh_cursor(final(self).link_gen.rel),
                ),
                ..old(self)@
            }) && final(self).same_identity(old(self)) && final(self).backend == old(self).backend,
    {
        if self.appinst.is_some() {
            return Err(Error::PreconditionUnmet);
        }
        let appinst = self.backend.channel_link(self.sig_pk, channel_idx);
        self.link_gen = appinst;
        self.pk_store.insert(self.sig_pk, Cursor::new_at(appinst.rel, 0, FIRST_PAYLOAD_NUM));
        self.appinst = Some(appinst);
        self.author_sig_pk = Some(self.sig_pk);
        Ok(())
    }

    /// Commits the state a sent message left, so that later messages can
    /// chain from it.
    pub fn commit_wrapped(&mut self, wrapped: crate::message::WrapState, info: u64) -> (r: Result<
        Link,
        Error,
    >)
        requires
            old(self).wf(),
        ensures
            final(self).wf(),
            r == Ok::<Link, Error>(wrapped.link),
            final(self)@ == (UserModel {
                link_store: old(self).link_store@.insert(
                    wrapped.link.rel,
                    LinkEntry { spongos: wrapped.spongos, info },
                ),
                ..old(self)@
            }),
            final(self).same_identity(old(self)),
            final(self).backend == old(self).backend,
            old(self).can_publish() ==> final(self).can_publish(),
    {
        let link = wrapped.link;
        self.link_store.insert(link.rel, LinkEntry { spongos: wrapped.spongos, info });
        Ok(link)
    }

    /// The header of a message of this participant.
    pub(crate) fn header_for(&self, link: Link, content_type: u8, seq_num: u32) -> (r: HDF)
        requires
            content_type <= MAX_CONTENT_TYPE,
        ensures
            r == spec_header(link, content_type, seq_num, self.flags),
            r.valid(),
    {
        let h = HDF::new(link);
        let h = match h.with_content_type(content_type) {
            Ok(h) => h,
            Err(_) => h,
        };
        let h = match h.with_payload_length(1) {
            Ok(h) => h,
            Err(_) => h,
        };
        h.with_seq_num(seq_num).with_flags(self.flags)
    }

    /// Address of the message this participant sends from `cursor`.
    pub fn msg_link(&self, cursor: &Cursor) -> (r: Link)
        ensures
            r.base == self.link_gen.base,
            r.rel == self.backend.spec_link_from(self.link_gen, self.sig_pk, *cursor),
    {
        let rel = self.backend.link_from(&self.link_gen, self.sig_pk, cursor);
        Link { base: self.link_gen.base, rel }
    }

    /// Seals a prepared message: chains it from its parent's committed state
    /// and frames it behind its header.
    pub fn wrap(&self, prepared: &PreparedMessage) -> (r: Result<WrappedMessage, Error>)
        requires
            self.wf(),
            prepared.header.valid(),
        ensures
            prepared.content.spec_link_to() matches Some(l) && !self.link_store@.contains_key(l)
                ==> r == Err::<WrappedMessage, Error>(Error::StoreMiss),
            r matches Err(e) ==> e == Error::StoreMiss || e == Error::CryptoFailure,
            r == Err::<WrappedMessage, Error>(Error::StoreMiss) ==> (prepared.content.spec_link_to() matches Some(l)
                && !self.link_store@.contains_key(l)),
            r matches Ok(w) ==> w.message.link == prepared.header.link && w.wrapped.link
                == prepared.header.link && spec_frame(
                prepared.header,
                prepared.content.spec_link_to(),
            ).is_prefix_of(w.message.body@) && HDF::spec_parses(w.message.body@)
                && HDF::spec_decode(w.message.body@) == prepared.header,
    {
        let header_bytes = prepared.header.to_bytes();
        let sealed = match prepared.content.link_to() {
            Some(l) => match self.link_store.get(l) {
                Some(entry) => self.backend.wrap(
                    &header_bytes,
                    Some(&entry.spongos),
                    &prepared.content,
                    &self.sig_sk,
                    &self.psk_store,
                ),
                None => {
                    return Err(Error::StoreMiss);
                },
            },
            None => self.backend.wrap(
                &header_bytes,
                None,
                &prepared.content,
                &self.sig_sk,
                &self.psk_store,
            ),
        };
        let r = WrappedMessage::assemble(prepared.header, &prepared.content, sealed);
        proof {
            if r is Ok {
                let w = r->Ok_0;
                let f = spec_frame(prepared.header, prepared.content.spec_link_to());
                assert(w.message.body@.subrange(0, f.len() as int) =~= f);
            }
        }
        r
    }

    /// Prepares the announcement of the channel.
    pub fn prepare_announcement(&self) -> (r: Result<PreparedMessage, Error>)
        requires
            self.wf(),
        ensures
            self.appinst is None ==> r == Err::<PreparedMessage, Error>(Error::PreconditionUnmet),
            self.appinst matches Some(a) ==> (r matches Ok(p) && p.header == spec_header(
                a,
                ANNOUNCE,
                ANN_MESSAGE_NUM,
                self.flags,
            ) && p.content == (Content::Announce { sig_pk: self.sig_pk, flags: self.flags })),
    {
        if self.appinst.is_none() {
            return Err(Error::PreconditionUnmet);
        }
        let header = self.header_for(self.link_gen, ANNOUNCE, ANN_MESSAGE_NUM);
        Ok(PreparedMessage { header, content: Content::Announce { sig_pk: self.sig_pk, flags: self.flags } })
    }

    /// Announces the channel.
    pub fn announce(&self) -> (r: Result<WrappedMessage, Error>)
        requires
            self.wf(),
        ensures
            self.appinst is None ==> r == Err::<WrappedMessage, Error>(Error::PreconditionUnmet),
            r matches Err(e) ==> e == Error::PreconditionUnmet || e == Error::CryptoFailure,
            r matches Ok(w) ==> self.appinst == Some(w.message.link) && HDF::spec_parses(
                w.message.body@,
            ) && HDF::spec_decode(w.message.body@) == spec_header(
                w.message.link,
                ANNOUNCE,
                ANN_MESSAGE_NUM,
                self.flags,
            ),
    {
        let prepared = self.prepare_announcement()?;
        self.wrap(&prepared)
    }

    /// Whether the channel is in multi-branch mode.
    pub fn is_multi_branching(&self) -> (r: bool)
        ensures
            r == (self.flags & FLAG_BRANCHING_MASK != 0),
    {
        (self.flags & FLAG_BRANCHING_MASK) != 0
    }

    /// Sequence number of own next message.
    pub fn get_seq_no(&self) -> (r: Option<u32>)
        requires
            self.wf(),
        ensures
            self.pk_store@.contains_key(self.sig_pk) ==> r == Some(self.own_cursor().seq_no),
            !self.pk_store@.contains_key(self.sig_pk) ==> r is None,
    {
        match self.pk_store.get(self.sig_pk) {
            Some(c) => Some(c.seq_no),
            None => None,
        }
    }

    /// Prepares a payload message of kind `content_type` at own cursor.
    pub(crate) fn prepare_packet(
        &self,
        content_type: u8,
        link_to: u64,
        public_payload: &Vec<u8>,
        masked_payload: &Vec<u8>,
    ) -> (r: Result<PreparedMessage, Error>)
        requires
            self.wf(),
            content_type == SIGNED_PACKET || content_type == TAGGED_PACKET,
        ensures
            self.appinst is None ==> r == Err::<PreparedMessage, Error>(Error::PreconditionUnmet),
            self.appinst matches Some(a) ==> (r matches Ok(p) && p.header == spec_header(
                Link {
                    base: a.base,
                    rel: self.backend.spec_link_from(
                        a,
                        self.sig_pk,
                        Cursor { link: link_to, branch_no: 0, seq_no: self.own_cursor().seq_no },
                    ),
                },
                content_type,
                self.own_cursor().seq_no,
                self.flags,
            ) && p.content.spec_content_type() == content_type && p.content.spec_link_to() == Some(
                link_to,
            ) && match p.content {
                Content::SignedPacket { sig_pk, public_payload: pp, masked_payload: mp, .. } => sig_pk
                    == self.sig_pk && pp@ == public_payload@ && mp@ == masked_payload@,
                Content::TaggedPacket { public_payload: pp, masked_payload: mp, .. } => pp@
                    == public_payload@ && mp@ == masked_payload@,
                _ => false,
            }),
    {
        if self.appinst.is_none() {
            return Err(Error::PreconditionUnmet);
        }
        let seq_no = match self.get_seq_no() {
            Some(s) => s,
            None => {
                return Err(Error::StoreMiss);
            },
        };
        let msg_link = self.msg_link(&Cursor::new_at(link_to, 0, seq_no));
        let header = self.header_for(msg_link, content_type, seq_no);
        let content = if content_type == SIGNED_PACKET {
            Content::SignedPacket {
                link: link_to,
                sig_pk: self.sig_pk,
                public_payload: public_payload.clone(),
                masked_payload: masked_payload.clone(),
            }
        } else {
            Content::TaggedPacket {
                link: link_to,
                public_payload: public_payload.clone(),
                masked_payload: masked_payload.clone(),
            }
        };
        Ok(PreparedMessage { header, content })
    }
}

} // verus!
