use vstd::prelude::*;

use crate::backend::Backend;
use crate::error::Error;
use crate::hdf::{HDF, KEYLOAD, SIGNED_PACKET, SUBSCRIBE, TAGGED_PACKET};
use crate::link::{Cursor, Link, PskId, PublicKey, SUB_MESSAGE_NUM};
use crate::message::{Content, PreparedMessage, WrappedMessage};
use crate::user::{spec_header, User};

verus! {

impl<B: Backend> User<B> {
    /// Prepares a signed packet at own cursor, chained from `link_to`.
    pub fn prepare_signed_packet(
        &mut self,
        link_to: u64,
        public_payload: &Vec<u8>,
        masked_payload: &Vec<u8>,
    ) -> (r: Result<PreparedMessage, Error>)
        requires
            old(self).wf(),
        ensures
            *final(self) == *old(self),
            old(self).appinst is None ==> r == Err::<PreparedMessage, Error>(
                Error::PreconditionUnmet,
            ),
            old(self).appinst matches Some(a) ==> (r matches Ok(p) && p.header == spec_header(
                Link {
                    base: a.base,
                    rel: old(self).backend.spec_link_from(
                        a,
                        old(self).sig_pk,
                        Cursor { link: link_to, branch_no: 0, seq_no: old(self).own_cursor().seq_no },
                    ),
                },
                SIGNED_PACKET,
                old(self).own_cursor().seq_no,
                old(self).flags,
            ) && match p.content {
                Content::SignedPacket { link, sig_pk, public_payload: pp, masked_payload: mp } =>
                    link == link_to && sig_pk == old(self).sig_pk && pp@ == public_payload@ && mp@
                    == masked_payload@,
                _ => false,
            }),
    {
        self.prepare_packet(SIGNED_PACKET, link_to, public_payload, masked_payload)
    }

    /// Creates a signed packet with a public and a masked payload.
    pub fn sign_packet(
        &mut self,
        link_to: u64,
        public_payload: &Vec<u8>,
        masked_payload: &Vec<u8>,
    ) -> (r: Result<WrappedMessage, Error>)
        requires
            old(self).wf(),
        ensures
            *final(self) == *old(self),
            old(self).appinst is None ==> r == Err::<WrappedMessage, Error>(
                Error::PreconditionUnmet,
            ),
            old(self).appinst is Some && !old(self).link_store@.contains_key(link_to) ==> r == Err::<
                WrappedMessage,
                Error,
            >(Error::StoreMiss),
            r matches Err(e) ==> e == Error::PreconditionUnmet || e == Error::StoreMiss || e
                == Error::CryptoFailure,
            r matches Ok(w) ==> old(self).appinst matches Some(a) && w.message.link.base == a.base
                && HDF::spec_parses(w.message.body@) && HDF::spec_decode(w.message.body@)
                == spec_header(
                w.message.link,
                SIGNED_PACKET,
                old(self).own_cursor().seq_no,
                old(self).flags,
            ),
    {
        let prepared = self.prepare_signed_packet(link_to, public_payload, masked_payload)?;
        self.wrap(&prepared)
    }

    /// Prepares a tagged packet at own cursor, chained from `link_to`.
    pub fn prepare_tagged_packet(
        &mut self,
        link_to: u64,
        public_payload: &Vec<u8>,
        masked_payload: &Vec<u8>,
    ) -> (r: Result<PreparedMessage, Error>)
        requires
            old(self).wf(),
        ensures
            *final(self) == *old(self),
            old(self).appinst is None ==> r == Err::<PreparedMessage, Error>(
                Error::PreconditionUnmet,
            ),
            old(self).appinst matches Some(a) ==> (r matches Ok(p) && p.header == spec_header(
                Link {
                    base: a.base,
                    rel: old(self).backend.spec_link_from(
                        a,
                        old(self).sig_pk,
                        Cursor { link: link_to, branch_no: 0, seq_no: old(self).own_cursor().seq_no },
                    ),
                },
                TAGGED_PACKET,
                old(self).own_cursor().seq_no,
                old(self).flags,
            ) && match p.content {
                Content::TaggedPacket { link, public_payload: pp, masked_payload: mp } => link
                    == link_to && pp@ == public_payload@ && mp@ == masked_payload@,
                _ => false,
            }),
    {
        self.prepare_packet(TAGGED_PACKET, link_to, public_payload, masked_payload)
    }

    /// Creates a tagged (authenticated, unsigned) packet. It must chain from
    /// a state that holds a session key, a keyload or a descendant of one.
    pub fn tag_packet(
        &mut self,
        link_to: u64,
        public_payload: &Vec<u8>,
        masked_payload: &Vec<u8>,
    ) -> (r: Result<WrappedMessage, Error>)
        requires
            old(self).wf(),
        ensures
            *final(self) == *old(self),
            old(self).appinst is None ==> r == Err::<WrappedMessage, Error>(
                Error::PreconditionUnmet,
            ),
            old(self).appinst is Some && !old(self).link_store@.contains_key(link_to) ==> r == Err::<
                WrappedMessage,
                Error,
            >(Error::StoreMiss),
            r matches Err(e) ==> e == Error::PreconditionUnmet || e == Error::StoreMiss || e
                == Error::CryptoFailure,
            r matches Ok(w) ==> old(self).appinst matches Some(a) && w.message.link.base == a.base
                && HDF::spec_parses(w.message.body@) && HDF::spec_decode(w.message.body@)
                == spec_header(
                w.message.link,
                TAGGED_PACKET,
                old(self).own_cursor().seq_no,
                old(self).flags,
            ),
    {
        let prepared = self.prepare_tagged_packet(link_to, public_payload, masked_payload)?;
        self.wrap(&prepared)
    }

    /// Prepares a subscription to the channel, sealed to the author; it
    /// carries a fresh unsubscribe key.
    pub fn prepare_subscribe(&mut self, link_to: u64) -> (r: Result<PreparedMessage, Error>)
        requires
            old(self).wf(),
        ensures
            final(self)@ == old(self)@,
            final(self).wf(),
            final(self).same_identity(old(self)),
            final(self).sig_sk == old(self).sig_sk,
            old(self).author_sig_pk is None ==> r == Err::<PreparedMessage, Error>(
                Error::PreconditionUnmet,
            ),
            old(self).author_sig_pk matches Some(apk) && !old(self).pk_store@.contains_key(apk)
                ==> r == Err::<PreparedMessage, Error>(Error::StoreMiss),
            r is Err ==> *final(self) == *old(self),
            old(self).author_sig_pk matches Some(apk) && old(self).pk_store@.contains_key(apk) ==> (
            r matches Ok(p) && p.header == spec_header(
                Link {
                    base: old(self).link_gen.base,
                    rel: old(self).backend.spec_link_from(
                        old(self).link_gen,
                        old(self).sig_pk,
                        Cursor { link: link_to, branch_no: 0, seq_no: SUB_MESSAGE_NUM },
                    ),
                },
                SUBSCRIBE,
                SUB_MESSAGE_NUM,
                old(self).flags,
            ) && match p.content {
                Content::Subscribe { link, subscriber_sig_pk, .. } => link == link_to
                    && subscriber_sig_pk == old(self).sig_pk,
                _ => false,
            }),
    {
        let author_sig_pk = match self.author_sig_pk {
            Some(a) => a,
            None => {
                return Err(Error::PreconditionUnmet);
            },
        };
        if !self.pk_store.contains_key(author_sig_pk) {
            return Err(Error::StoreMiss);
        }
        let msg_link = self.msg_link(&Cursor::new_at(link_to, 0, SUB_MESSAGE_NUM));
        let header = self.header_for(msg_link, SUBSCRIBE, SUB_MESSAGE_NUM);
        let unsubscribe_key = self.backend.random_key();
        let content = Content::Subscribe {
            link: link_to,
            unsubscribe_key,
            subscriber_sig_pk: self.sig_pk,
        };
        Ok(PreparedMessage { header, content })
    }

    /// Subscribes to the channel.
    pub fn subscribe(&mut self, link_to: u64) -> (r: Result<WrappedMessage, Error>)
        requires
            old(self).wf(),
        ensures
            final(self)@ == old(self)@,
            final(self).wf(),
            final(self).same_identity(old(self)),
            old(self).author_sig_pk is None ==> r == Err::<WrappedMessage, Error>(
                Error::PreconditionUnmet,
            ),
            old(self).author_sig_pk matches Some(apk) && !old(self).pk_store@.contains_key(apk)
                ==> r == Err::<WrappedMessage, Error>(Error::StoreMiss),
            old(self).author_sig_pk is Some && !old(self).link_store@.contains_key(link_to) ==> r is Err,
            r matches Ok(w) ==> w.message.link.base == old(self).link_gen.base && HDF::spec_parses(
                w.message.body@,
            ) && HDF::spec_decode(w.message.body@) == spec_header(
                w.message.link,
                SUBSCRIBE,
                SUB_MESSAGE_NUM,
                old(self).flags,
            ),
    {
        let prepared = self.prepare_subscribe(link_to)?;
        self.wrap(&prepared)
    }

    /// Builds a keyload's content: a fresh nonce and session key, sealed to
    /// the pre-shared keys `psk_ids` and the recipients `ke_pks`.
    fn do_prepare_keyload(
        &mut self,
        header: HDF,
        link_to: u64,
        psk_ids: Vec<PskId>,
        ke_pks: Vec<PublicKey>,
    ) -> (r: PreparedMessage)
        requires
            old(self).wf(),
        ensures
            final(self)@ == old(self)@,
            final(self).wf(),
            final(self).same_identity(old(self)),
            r.header == header,
            match r.content {
                Content::Keyload { link, key, psk_ids: ps, ke_pks: ks, .. } => link == link_to
                    && key is Some && ps == psk_ids && ks == ke_pks,
                _ => false,
            },
    {
        let nonce = self.backend.random_nonce();
        let key = self.backend.random_key();
        PreparedMessage {
            header,
            content: Content::Keyload { link: link_to, nonce, key: Some(key), psk_ids, ke_pks },
        }
    }

    /// Prepares a keyload for the known pre-shared keys among `psk_ids` and
    /// the known publishers among `pks`.
    pub fn prepare_keyload(
        &mut self,
        link_to: u64,
        psk_ids: &Vec<PskId>,
        pks: &Vec<PublicKey>,
    ) -> (r: Result<PreparedMessage, Error>)
        requires
            old(self).wf(),
        ensures
            final(self)@ == old(self)@,
            final(self).wf(),
            final(self).same_identity(old(self)),
            old(self).appinst is None ==> r == Err::<PreparedMessage, Error>(
                Error::PreconditionUnmet,
            ) && *final(self) == *old(self),
            old(self).appinst matches Some(a) ==> (r matches Ok(p) && p.header == spec_header(
                Link {
                    base: a.base,
                    rel: old(self).backend.spec_link_from(
                        a,
                        old(self).sig_pk,
                        Cursor { link: link_to, branch_no: 0, seq_no: old(self).own_cursor().seq_no },
                    ),
                },
                KEYLOAD,
                old(self).own_cursor().seq_no,
                old(self).flags,
            ) && match p.content {
                Content::Keyload { link, key, psk_ids: ps, ke_pks: ks, .. } => link == link_to
                    && key is Some && (forall|k: u64|
                    ps@.contains(k) <==> psk_ids@.contains(k) && old(self).psk_store@.contains_key(
                        k,
                    )) && (forall|k: u64|
                    ks@.contains(k) <==> pks@.contains(k) && old(self).pk_store@.contains_key(k)),
                _ => false,
            }),
    {
        if self.appinst.is_none() {
            return Err(Error::PreconditionUnmet);
        }
        let seq_no = match self.get_seq_no() {
            Some(s) => s,
            None => {
                return Err(Error::StoreMiss);
            },
        };
        let msg_link = self.msg_link(&Cursor::new_at(link_to, 0, seq_no));
        let header = self.header_for(msg_link, KEYLOAD, seq_no);
        let psks = self.psk_store.filter(psk_ids);
        let ke_pks = self.pk_store.filter(pks);
        Ok(self.do_prepare_keyload(header, link_to, psks, ke_pks))
    }

    /// Prepares a keyload for every known pre-shared key and publisher.
    pub fn prepare_keyload_for_everyone(&mut self, link_to: u64) -> (r: Result<
        PreparedMessage,
        Error,
    >)
        requires
            old(self).wf(),
        ensures
            final(self)@ == old(self)@,
            final(self).wf(),
            final(self).same_identity(old(self)),
            old(self).appinst is None ==> r == Err::<PreparedMessage, Error>(
                Error::PreconditionUnmet,
            ) && *final(self) == *old(self),
            old(self).appinst matches Some(a) ==> (r matches Ok(p) && p.header == spec_header(
                Link {
                    base: a.base,
                    rel: old(self).backend.spec_link_from(
                        a,
                        old(self).sig_pk,
                        Cursor { link: link_to, branch_no: 0, seq_no: old(self).own_cursor().seq_no },
                    ),
                },
                KEYLOAD,
                old(self).own_cursor().seq_no,
                old(self).flags,
            ) && match p.content {
                Content::Keyload { link, key, psk_ids: ps, ke_pks: ks, .. } => link == link_to
                    && key is Some && (forall|k: u64|
                    ps@.contains(k) <==> old(self).psk_store@.contains_key(k)) && (forall|k: u64|
                    ks@.contains(k) <==> old(self).pk_store@.contains_key(k)),
                _ => false,
            }),
    {
        if self.appinst.is_none() {
            return Err(Error::PreconditionUnmet);
        }
        let seq_no = match self.get_seq_no() {
            Some(s) => s,
            None => {
                return Err(Error::StoreMiss);
            },
        };
        let msg_link = self.msg_link(&Cursor::new_at(link_to, 0, seq_no));
        let header = self.header_for(msg_link, KEYLOAD, seq_no);
        let psks = self.psk_store.keys();
        let ke_pks = self.pk_store.keys();
        Ok(self.do_prepare_keyload(header, link_to, psks, ke_pks))
    }

    /// Creates a keyload: a new session key shared with the given pre-shared
    /// keys and publishers.
    pub fn share_keyload(
        &mut self,
        link_to: u64,
        psk_ids: &Vec<PskId>,
        ke_pks: &Vec<PublicKey>,
    ) -> (r: Result<WrappedMessage, Error>)
        requires
            old(self).wf(),
        ensures
            final(self)@ == old(self)@,
            final(self).wf(),
            final(self).same_identity(old(self)),
            old(self).appinst is None ==> r == Err::<WrappedMessage, Error>(
                Error::PreconditionUnmet,
            ),
            old(self).appinst is Some && !old(self).link_store@.contains_key(link_to) ==> r == Err::<
                WrappedMessage,
                Error,
            >(Error::StoreMiss),
            r matches Ok(w) ==> old(self).appinst matches Some(a) && w.message.link.base == a.base
                && HDF::spec_parses(w.message.body@) && HDF::spec_decode(w.message.body@)
                == spec_header(w.message.link, KEYLOAD, old(self).own_cursor().seq_no, old(self).flags),
    {
        let prepared = self.prepare_keyload(link_to, psk_ids, ke_pks)?;
        self.wrap(&prepared)
    }

    /// Creates a keyload: a new session key shared with every known
    /// pre-shared key and publisher.
    pub fn share_keyload_for_everyone(&mut self, link_to: u64) -> (r: Result<WrappedMessage, Error>)
        requires
            old(self).wf(),
        ensures
            final(self)@ == old(self)@,
            final(self).wf(),
            final(self).same_identity(old(self)),
            old(self).appinst is None ==> r == Err::<WrappedMessage, Error>(
                Error::PreconditionUnmet,
            ),
            old(self).appinst is Some && !old(self).link_store@.contains_key(link_to) ==> r == Err::<
                WrappedMessage,
                Error,
            >(Error::StoreMiss),
            r matches Ok(w) ==> old(self).appinst matches Some(a) && w.message.link.base == a.base
                && HDF::spec_parses(w.message.body@) && HDF::spec_decode(w.message.body@)
                == spec_header(w.message.link, KEYLOAD, old(self).own_cursor().seq_no, old(self).flags),
    {
        let prepared = self.prepare_keyload_for_everyone(link_to)?;
        self.wrap(&prepared)
    }
}

} // verus!
