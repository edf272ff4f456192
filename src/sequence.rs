use vstd::prelude::*;

use crate::backend::Backend;
use crate::error::Error;
use crate::hdf::{HDF, SEQUENCE};
use crate::link::{Cursor, Link, SEQ_MESSAGE_NUM};
use crate::message::{BinaryMessage, Content, PreparedMessage, WrapState, WrappedMessage};
use crate::store::LinkEntry;
use crate::user::{spec_header, User, UserModel};

verus! {

/// Own cursor at the time a sequence message was wrapped, and that message's
/// state once there is one.
#[derive(Debug)]
pub struct WrapStateSequence(pub Cursor, pub Option<WrapState>);

impl WrapStateSequence {
    pub fn new(cursor: Cursor) -> (r: WrapStateSequence)
        ensures
            r.0 == cursor,
            r.1 is None,
    {
        WrapStateSequence(cursor, None)
    }

    pub fn with_state(self, state: WrapState) -> (r: WrapStateSequence)
        ensures
            r.0 == self.0,
            r.1 == Some(state),
    {
        WrapStateSequence(self.0, Some(state))
    }

    pub fn set_state(&mut self, state: WrapState)
        ensures
            final(self).0 == old(self).0,
            final(self).1 == Some(state),
    {
        self.1 = Some(state);
    }
}

/// Outcome of wrapping a sequence message: the message to send, if any, and
/// what to commit afterwards, if anything.
#[derive(Debug)]
pub struct WrappedSequence(pub Option<BinaryMessage>, pub Option<WrapStateSequence>);

impl WrappedSequence {
    pub fn new() -> (r: WrappedSequence)
        ensures
            r.0 is None,
            r.1 is None,
    {
        WrappedSequence(None, None)
    }

    pub fn with_cursor(self, cursor: Cursor) -> (r: WrappedSequence)
        ensures
            r.0 == self.0,
            r.1 matches Some(w) && w.0 == cursor && w.1 is None,
    {
        WrappedSequence(self.0, Some(WrapStateSequence::new(cursor)))
    }

    /// Takes the message of `m` and, where a cursor is held, its state.
    pub fn with_wrapped(self, m: WrappedMessage) -> (r: WrappedSequence)
        ensures
            r.0 == Some(m.message),
            self.1 is None ==> r.1 is None,
            self.1 matches Some(w) ==> (r.1 matches Some(v) && v.0 == w.0 && v.1 == Some(m.wrapped)),
    {
        let WrappedSequence(_, state) = self;
        let state = match state {
            Some(w) => Some(w.with_state(m.wrapped)),
            None => None,
        };
        WrappedSequence(Some(m.message), state)
    }
}

impl<B: Backend> User<B> {
    /// Prepares a sequence message chained from `link_to`, announcing that
    /// own message number `seq_no` is at `ref_link`.
    pub fn prepare_sequence(&self, link_to: u64, seq_no: u32, ref_link: u64) -> (r: Result<
        PreparedMessage,
        Error,
    >)
        requires
            self.wf(),
        ensures
            self.appinst is None ==> r == Err::<PreparedMessage, Error>(Error::PreconditionUnmet),
            self.appinst matches Some(a) ==> (r matches Ok(p) && p.header == spec_header(
                Link {
                    base: a.base,
                    rel: self.backend.spec_link_from(
                        a,
                        self.sig_pk,
                        Cursor { link: link_to, branch_no: 0, seq_no: SEQ_MESSAGE_NUM },
                    ),
                },
                SEQUENCE,
                SEQ_MESSAGE_NUM,
                self.flags,
            ) && p.content == (Content::Sequence {
                link: link_to,
                pk: self.sig_pk,
                seq_num: seq_no,
                ref_link,
            })),
    {
        if self.appinst.is_none() {
            return Err(Error::PreconditionUnmet);
        }
        let msg_link = self.msg_link(&Cursor::new_at(link_to, 0, SEQ_MESSAGE_NUM));
        let header = self.header_for(msg_link, SEQUENCE, SEQ_MESSAGE_NUM);
        let content = Content::Sequence { link: link_to, pk: self.sig_pk, seq_num: seq_no, ref_link };
        Ok(PreparedMessage { header, content })
    }

    /// Wraps what advances own cursor past a payload at `ref_link`: in
    /// multi-branch mode a sequence message from own cursor; otherwise the
    /// cursor moved to `ref_link`, with no message.
    pub fn wrap_sequence(&self, ref_link: u64) -> (r: Result<WrappedSequence, Error>)
        requires
            self.wf(),
        ensures
            !self.pk_store@.contains_key(self.sig_pk) ==> (r matches Ok(w) && w.0 is None && w.1 is None),
            self.pk_store@.contains_key(self.sig_pk) && !self.spec_branching() ==> (r matches Ok(w)
                && w.0 is None && (w.1 matches Some(s) && s.0 == (Cursor {
                link: ref_link,
                ..self.own_cursor()
            }) && s.1 is None)),
            self.pk_store@.contains_key(self.sig_pk) && self.spec_branching() && self.appinst is None
                ==> r == Err::<WrappedSequence, Error>(Error::PreconditionUnmet),
            self.pk_store@.contains_key(self.sig_pk) && self.spec_branching() && self.appinst is Some
                && !self.link_store@.contains_key(self.own_cursor().link) ==> r == Err::<
                WrappedSequence,
                Error,
            >(Error::StoreMiss),
            r matches Err(e) ==> self.pk_store@.contains_key(self.sig_pk) && self.spec_branching() && (
            (e == Error::PreconditionUnmet && self.appinst is None) || (e == Error::StoreMiss
                && self.appinst is Some && !self.link_store@.contains_key(self.own_cursor().link)) || (e
                == Error::CryptoFailure && self.appinst is Some && self.link_store@.contains_key(
                self.own_cursor().link,
            ))),
            self.pk_store@.contains_key(self.sig_pk) && self.spec_branching() ==> (r matches Ok(w)
                ==> (w.0 matches Some(m) && (w.1 matches Some(s) && s.0 == self.own_cursor()
                && (s.1 matches Some(st) && st.link == m.link && m.link.base == self.link_gen.base
                && HDF::spec_parses(m.body@) && HDF::spec_decode(m.body@) == spec_header(
                m.link,
                SEQUENCE,
                SEQ_MESSAGE_NUM,
                self.flags,
            ))))),
    {
        match self.pk_store.get(self.sig_pk) {
            Some(c) => {
                let mut cursor = *c;
                if self.is_multi_branching() {
                    let prepared = self.prepare_sequence(cursor.link, cursor.get_seq_num(), ref_link)?;
                    let wrapped = self.wrap(&prepared)?;
                    Ok(WrappedSequence::new().with_cursor(cursor).with_wrapped(wrapped))
                } else {
                    cursor.link = ref_link;
                    Ok(WrappedSequence::new().with_cursor(cursor))
                }
            },
            None => Ok(WrappedSequence::new()),
        }
    }

    /// Multi-branch mode.
    pub open spec fn spec_branching(&self) -> bool {
        self.flags & crate::hdf::FLAG_BRANCHING_MASK != 0
    }

    /// Finishes a sequence step. With a sequence message: commits it and
    /// moves own cursor to it, one number on. Without: moves every publisher
    /// to the cursor's link, one number on.
    pub fn commit_sequence(&mut self, wrapped: WrapStateSequence, info: u64) -> (r: Result<
        Option<Link>,
        Error,
    >)
        requires
            old(self).wf(),
            wrapped.0.seq_no < u32::MAX,
        ensures
            final(self).wf(),
            final(self).same_identity(old(self)),
            final(self).backend == old(self).backend,
            wrapped.1 matches Some(st) ==> r == Ok::<Option<Link>, Error>(Some(st.link)) && final(self)@ == (UserModel {
                link_store: old(self).link_store@.insert(
                    st.link.rel,
                    LinkEntry { spongos: st.spongos, info },
                ),
                pk_store: old(self).pk_store@.insert(
                    old(self).sig_pk,
                    Cursor { link: st.link.rel, seq_no: (wrapped.0.seq_no + 1) as u32, ..wrapped.0 },
                ),
                ..old(self)@
            }),
            wrapped.1 is None ==> r == Ok::<Option<Link>, Error>(None) && final(self)@ == (UserModel {
                pk_store: Map::new(
                    |k: u64| old(self).pk_store@.contains_key(k) || k == old(self).sig_pk,
                    |k: u64|
                        Cursor {
                            link: wrapped.0.link,
                            branch_no: 0,
                            seq_no: (wrapped.0.seq_no + 1) as u32,
                        },
                ),
                ..old(self)@
            }),
            wrapped.0.seq_no >= 1 ==> final(self).can_publish(),
    {
        let WrapStateSequence(mut cursor, state) = wrapped;
        match state {
            Some(st) => {
                let link = st.link;
                cursor.link = link.rel;
                cursor.next_seq();
                let _ = self.commit_wrapped(st, info);
                self.pk_store.insert(self.sig_pk, cursor);
                Ok(Some(link))
            },
            None => {
                self.store_state_for_all(cursor.link, cursor.seq_no);
                Ok(None)
            },
        }
    }
}

} // verus!
