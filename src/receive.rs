use vstd::prelude::*;

use crate::backend::Backend;
use crate::error::Error;
use crate::hdf::{u64_at, ANNOUNCE, HDF, HDF_LEN, KEYLOAD, SEQUENCE, SIGNED_PACKET, SUBSCRIBE, TAGGED_PACKET};
use crate::link::{Cursor, Link, PublicKey, FIRST_PAYLOAD_NUM, SEQ_MESSAGE_NUM};
use crate::message::{BinaryMessage, Content, GenericMessage, PreparsedMessage, UnwrappedMessage};
use crate::store::LinkEntry;
use crate::user::{fresh_cursor, User, UserModel};

verus! {

/// What a sequence message points to: publisher `pk` sent its message
/// number `seq_num` at `ref_link`.
#[derive(Clone, Copy, Debug, PartialEq, Eq, Structural)]
pub struct SequenceRef {
    pub link: u64,
    pub pk: PublicKey,
    pub seq_num: u32,
    pub ref_link: u64,
}

/// The first check that a received message of kind `content_type` fails,
/// before its body is opened.
pub open spec fn spec_precheck(appinst: Option<Link>, msg: BinaryMessage, content_type: u8) -> Option<
    Error,
> {
    if !HDF::spec_parses(msg.body@) {
        Some(Error::EncodingError)
    } else if HDF::spec_decode(msg.body@).link != msg.link {
        Some(Error::AddressMismatch)
    } else if HDF::spec_decode(msg.body@).content_type != content_type {
        Some(Error::ContentTypeMismatch)
    } else if appinst is None {
        Some(Error::PreconditionUnmet)
    } else if appinst->Some_0.base != msg.link.base {
        Some(Error::AddressMismatch)
    } else {
        None
    }
}

/// The first check that opening the body `body` (what follows the header)
/// of a message of kind `content_type` fails, given the committed states,
/// before the body itself is opened: every kind but the announcement starts
/// with the link of a committed parent.
pub open spec fn spec_open_check(
    link_store: Map<u64, LinkEntry>,
    content_type: u8,
    body: Seq<u8>,
) -> Option<Error> {
    if content_type == ANNOUNCE {
        None
    } else if body.len() < 8 {
        Some(Error::EncodingError)
    } else if !link_store.contains_key(u64_at(body, 0)) {
        Some(Error::StoreMiss)
    } else {
        None
    }
}

/// The first check that opening a preparsed message as kind `content_type`
/// fails, before the body itself is opened.
pub open spec fn spec_unwrap_check(
    appinst: Option<Link>,
    link_store: Map<u64, LinkEntry>,
    preparsed: PreparsedMessage,
    content_type: u8,
) -> Option<Error> {
    if preparsed.header.content_type != content_type {
        Some(Error::ContentTypeMismatch)
    } else if appinst is None {
        Some(Error::PreconditionUnmet)
    } else if appinst->Some_0.base != preparsed.header.link.base {
        Some(Error::AddressMismatch)
    } else {
        spec_open_check(link_store, content_type, preparsed.body@)
    }
}

/// The checks of `spec_precheck`, then those of `spec_open_check` on the
/// body after the header.
pub open spec fn spec_receive_check(
    appinst: Option<Link>,
    link_store: Map<u64, LinkEntry>,
    msg: BinaryMessage,
    content_type: u8,
) -> Option<Error> {
    match spec_precheck(appinst, msg, content_type) {
        Some(e) => Some(e),
        None => spec_open_check(
            link_store,
            content_type,
            msg.body@.subrange(HDF_LEN as int, msg.body@.len() as int),
        ),
    }
}

/// The state after joining the channel announced at `link` by `author`.
pub open spec fn spec_announced(
    m: UserModel,
    link: Link,
    author: PublicKey,
    flags: u8,
    entry: LinkEntry,
) -> UserModel {
    UserModel {
        link_gen: link,
        appinst: Some(link),
        author_sig_pk: Some(author),
        flags,
        pk_store: m.pk_store.insert(author, fresh_cursor(link.rel)).insert(
            m.sig_pk,
            fresh_cursor(link.rel),
        ),
        link_store: m.link_store.insert(link.rel, entry),
        ..m
    }
}

/// The state after accepting the subscription of `subscriber`, whose
/// message at `rel` left `entry`. A subscription with one's own key leaves
/// own cursor where it is.
pub open spec fn spec_subscribed(m: UserModel, subscriber: PublicKey, rel: u64, entry: LinkEntry) -> UserModel {
    UserModel {
        pk_store: if subscriber == m.sig_pk {
            m.pk_store
        } else {
            m.pk_store.insert(
                subscriber,
                Cursor { link: m.appinst->Some_0.rel, branch_no: 0, seq_no: SEQ_MESSAGE_NUM },
            )
        },
        link_store: m.link_store.insert(rel, entry),
        ..m
    }
}

/// The state after committing `entry` under `rel`.
pub open spec fn spec_committed(m: UserModel, rel: u64, entry: LinkEntry) -> UserModel {
    UserModel { link_store: m.link_store.insert(rel, entry), ..m }
}

/// The state after handling a keyload at `rel` that left `entry`: when it
/// granted the session key, its unknown recipients `pks` join at the
/// announcement.
pub open spec fn spec_keyload_handled(
    m: UserModel,
    rel: u64,
    entry: LinkEntry,
    allowed: bool,
    pks: Seq<PublicKey>,
) -> UserModel {
    UserModel {
        link_store: m.link_store.insert(rel, entry),
        pk_store: if allowed {
            Map::new(
                |k: u64| m.pk_store.contains_key(k) || pks.contains(k),
                |k: u64|
                    if m.pk_store.contains_key(k) {
                        m.pk_store[k]
                    } else {
                        fresh_cursor(m.appinst->Some_0.rel)
                    },
            )
        } else {
            m.pk_store
        },
        ..m
    }
}

/// Accepting a subscription, whoever it names, leaves own cursor as it was.
pub proof fn lemma_subscription_keeps_own_cursor(
    m: UserModel,
    subscriber: PublicKey,
    rel: u64,
    entry: LinkEntry,
)
    ensures
        spec_subscribed(m, subscriber, rel, entry).pk_store.contains_key(m.sig_pk)
            == m.pk_store.contains_key(m.sig_pk),
        spec_subscribed(m, subscriber, rel, entry).pk_store[m.sig_pk] == m.pk_store[m.sig_pk],
        spec_subscribed(m, subscriber, rel, entry).appinst == m.appinst,
{
}

/// Handling one announcement twice leaves the state of handling it once,
/// and the second time passes the channel check.
pub proof fn lemma_announcement_idempotent(
    m: UserModel,
    link: Link,
    author: PublicKey,
    flags: u8,
    entry: LinkEntry,
)
    ensures
        spec_announced(m, link, author, flags, entry).appinst == Some(link),
        spec_announced(spec_announced(m, link, author, flags, entry), link, author, flags, entry)
            == spec_announced(m, link, author, flags, entry),
{
    let once = spec_announced(m, link, author, flags, entry);
    let twice = spec_announced(once, link, author, flags, entry);
    assert(twice.pk_store =~= once.pk_store);
    assert(twice.link_store =~= once.link_store);
}

impl UnwrappedMessage {
    /// Accepts what opening a body gave when it is content of the kind the
    /// header names, chained from the link the body named.
    pub fn accept(link: Link, content_type: u8, link_to: Option<u64>, opened: Option<(Content, Vec<u8>)>) -> (r: Result<
        UnwrappedMessage,
        Error,
    >)
        ensures
            opened is None ==> r == Err::<UnwrappedMessage, Error>(Error::CryptoFailure),
            opened matches Some((c, s)) ==> if c.spec_content_type() == content_type
                && c.spec_link_to() == link_to {
                r == Ok::<UnwrappedMessage, Error>(UnwrappedMessage { link, content: c, spongos: s })
            } else {
                r == Err::<UnwrappedMessage, Error>(Error::CryptoFailure)
            },
    {
        match opened {
            None => Err(Error::CryptoFailure),
            Some((c, s)) => {
                if c.content_type() == content_type && c.link_to() == link_to {
                    Ok(UnwrappedMessage { link, content: c, spongos: s })
                } else {
                    Err(Error::CryptoFailure)
                }
            },
        }
    }
}

impl<B: Backend> User<B> {
    /// The message belongs to the joined channel.
    pub fn ensure_appinst(&self, preparsed: &PreparsedMessage) -> (r: Result<(), Error>)
        ensures
            self.appinst is None ==> r == Err::<(), Error>(Error::PreconditionUnmet),
            self.appinst matches Some(a) ==> if a.base == preparsed.header.link.base {
                r == Ok::<(), Error>(())
            } else {
                r == Err::<(), Error>(Error::AddressMismatch)
            },
    {
        match self.appinst {
            None => Err(Error::PreconditionUnmet),
            Some(a) => if a.base == preparsed.header.link.base {
                Ok(())
            } else {
                Err(Error::AddressMismatch)
            },
        }
    }

    /// Reads the header of a message of kind `content_type` of the joined
    /// channel.
    fn preparse(&self, msg: &BinaryMessage, content_type: u8) -> (r: Result<PreparsedMessage, Error>)
        ensures
            spec_precheck(self.appinst, *msg, content_type) matches Some(e) ==> r == Err::<
                PreparsedMessage,
                Error,
            >(e),
            spec_precheck(self.appinst, *msg, content_type) is None ==> (r matches Ok(p) && p.link
                == msg.link && p.header == HDF::spec_decode(msg.body@) && p.body@ == msg.body@.subrange(
                HDF_LEN as int,
                msg.body@.len() as int,
            )),
    {
        let preparsed = msg.parse_header()?;
        if preparsed.header.content_type != content_type {
            return Err(Error::ContentTypeMismatch);
        }
        self.ensure_appinst(&preparsed)?;
        Ok(preparsed)
    }

    /// Opens the body of a preparsed message against the state committed
    /// under its parent link.
    fn unwrap(&self, preparsed: &PreparsedMessage) -> (r: Result<UnwrappedMessage, Error>)
        requires
            self.wf(),
        ensures
            spec_open_check(self.link_store@, preparsed.header.content_type, preparsed.body@) matches Some(e)
                ==> r == Err::<UnwrappedMessage, Error>(e),
            spec_open_check(self.link_store@, preparsed.header.content_type, preparsed.body@) is None
                && r is Err ==> r == Err::<UnwrappedMessage, Error>(Error::CryptoFailure),
            r matches Ok(u) ==> u.link == preparsed.header.link && u.content.spec_content_type()
                == preparsed.header.content_type,
            r matches Ok(u) ==> (preparsed.header.content_type == ANNOUNCE ==> u.content.spec_link_to()
                is None),
            r matches Ok(u) ==> (preparsed.header.content_type != ANNOUNCE ==> preparsed.body@.len()
                >= 8 && u.content.spec_link_to() == Some(u64_at(preparsed.body@, 0))
                && self.link_store@.contains_key(u64_at(preparsed.body@, 0))),
    {
        let header_bytes = &preparsed.header_bytes;
        let ct = preparsed.header.content_type;
        let author = self.author_sig_pk;
        if ct == ANNOUNCE {
            let opened = self.backend.unwrap(
                header_bytes,
                ct,
                None,
                None,
                &preparsed.body,
                self.sig_pk,
                &self.sig_sk,
                &self.psk_store,
                author,
            );
            UnwrappedMessage::accept(preparsed.header.link, ct, None, opened)
        } else {
            let (link_to, sealed) = preparsed.split_link_to()?;
            let opened = match self.link_store.get(link_to) {
                Some(entry) => self.backend.unwrap(
                    header_bytes,
                    ct,
                    Some(link_to),
                    Some(&entry.spongos),
                    &sealed,
                    self.sig_pk,
                    &self.sig_sk,
                    &self.psk_store,
                    author,
                ),
                None => {
                    return Err(Error::StoreMiss);
                },
            };
            UnwrappedMessage::accept(preparsed.header.link, ct, Some(link_to), opened)
        }
    }

    /// Commits the state an opened message left under its link.
    fn commit(&mut self, unwrapped: UnwrappedMessage, info: u64) -> (r: Content)
        requires
            old(self).wf(),
        ensures
            final(self).wf(),
            r == unwrapped.content,
            final(self)@ == (UserModel {
                link_store: old(self).link_store@.insert(
                    unwrapped.link.rel,
                    LinkEntry { spongos: unwrapped.spongos, info },
                ),
                ..old(self)@
            }),
            final(self).same_identity(old(self)),
            final(self).backend == old(self).backend,
            old(self).can_publish() ==> final(self).can_publish(),
    {
        let UnwrappedMessage { link, content, spongos } = unwrapped;
        self.link_store.insert(link.rel, LinkEntry { spongos, info });
        content
    }

    /// Opens an announcement.
    pub fn unwrap_announcement(&self, preparsed: &PreparsedMessage) -> (r: Result<
        UnwrappedMessage,
        Error,
    >)
        requires
            self.wf(),
        ensures
            preparsed.header.content_type == ANNOUNCE && (self.appinst matches Some(a) && a
                != preparsed.header.link) ==> r == Err::<
                UnwrappedMessage,
                Error,
            >(Error::AddressMismatch),
            preparsed.header.content_type != ANNOUNCE ==> r == Err::<UnwrappedMessage, Error>(
                Error::ContentTypeMismatch,
            ),
            r matches Ok(u) ==> u.link == preparsed.header.link && u.content is Announce,
            r == Err::<UnwrappedMessage, Error>(Error::ContentTypeMismatch)
                ==> preparsed.header.content_type != ANNOUNCE,
            r == Err::<UnwrappedMessage, Error>(Error::AddressMismatch) ==> (self.appinst matches Some(a)
                && a != preparsed.header.link),
            r matches Err(e) ==> e == Error::AddressMismatch || e == Error::ContentTypeMismatch || e
                == Error::CryptoFailure,
    {
        if preparsed.header.content_type != ANNOUNCE {
            return Err(Error::ContentTypeMismatch);
        }
        match self.appinst {
            Some(a) => if a != preparsed.header.link {
                return Err(Error::AddressMismatch);
            },
            None => {},
        }
        self.unwrap(preparsed)
    }

    /// Joins the channel an opened announcement announces: trusts its author,
    /// places author and self at the announcement, and takes its flags.
    pub fn commit_announcement(&mut self, unwrapped: UnwrappedMessage, info: u64) -> (r: Result<(), Error>)
        requires
            old(self).wf(),
        ensures
            final(self).wf(),
            final(self).same_identity(old(self)),
            final(self).backend == old(self).backend,
            !(unwrapped.content is Announce) ==> r == Err::<(), Error>(Error::ContentTypeMismatch),
            unwrapped.content is Announce && (old(self).appinst matches Some(a) && a != unwrapped.link)
                ==> r == Err::<(), Error>(Error::AddressMismatch),
            r is Err ==> *final(self) == *old(self),
            unwrapped.content matches Content::Announce { sig_pk, flags } ==> ((old(self).appinst is None
                || old(self).appinst == Some(unwrapped.link)) ==> r is Ok && final(self)@
                == spec_announced(
                old(self)@,
                unwrapped.link,
                sig_pk,
                flags,
                LinkEntry { spongos: unwrapped.spongos, info },
            ) && final(self).can_publish()),
    {
        let (author, flags) = match unwrapped.content {
            Content::Announce { sig_pk, flags } => (sig_pk, flags),
            _ => {
                return Err(Error::ContentTypeMismatch);
            },
        };
        match self.appinst {
            Some(a) => if a != unwrapped.link {
                return Err(Error::AddressMismatch);
            },
            None => {},
        }
        let link = unwrapped.link;
        let _ = self.commit(unwrapped, info);
        let cursor = Cursor::new_at(link.rel, 0, FIRST_PAYLOAD_NUM);
        self.pk_store.insert(author, cursor);
        self.pk_store.insert(self.sig_pk, cursor);
        self.link_gen = link;
        self.appinst = Some(link);
        self.author_sig_pk = Some(author);
        self.flags = flags;
        Ok(())
    }

    /// Joins the channel announced in `msg`. A participant that has joined a
    /// channel accepts only that channel's announcement again.
    pub fn handle_announcement(&mut self, msg: BinaryMessage, info: u64) -> (r: Result<(), Error>)
        requires
            old(self).wf(),
        ensures
            final(self).wf(),
            final(self).same_identity(old(self)),
            !HDF::spec_parses(msg.body@) ==> r == Err::<(), Error>(Error::EncodingError),
            HDF::spec_parses(msg.body@) && HDF::spec_decode(msg.body@).link != msg.link ==> r
                == Err::<(), Error>(Error::AddressMismatch),
            HDF::spec_parses(msg.body@) && HDF::spec_decode(msg.body@).link == msg.link
                && HDF::spec_decode(msg.body@).content_type != ANNOUNCE ==> r == Err::<(), Error>(
                Error::ContentTypeMismatch,
            ),
            HDF::spec_parses(msg.body@) && HDF::spec_decode(msg.body@).link == msg.link
                && HDF::spec_decode(msg.body@).content_type == ANNOUNCE && (old(self).appinst matches Some(a) && a
                != msg.link) ==> r == Err::<(), Error>(Error::AddressMismatch),
            r == Err::<(), Error>(Error::EncodingError) ==> !HDF::spec_parses(msg.body@),
            r == Err::<(), Error>(Error::ContentTypeMismatch) ==> HDF::spec_parses(msg.body@)
                && HDF::spec_decode(msg.body@).content_type != ANNOUNCE,
            r == Err::<(), Error>(Error::AddressMismatch) ==> HDF::spec_parses(msg.body@) && (
            HDF::spec_decode(msg.body@).link != msg.link || (old(self).appinst matches Some(a) && a
                != msg.link)),
            r matches Err(e) ==> e == Error::EncodingError || e == Error::ContentTypeMismatch || e
                == Error::AddressMismatch || e == Error::CryptoFailure,
            r is Err ==> *final(self) == *old(self),
            r is Ok ==> exists|author: PublicKey, flags: u8, entry: LinkEntry|
                final(self)@ == spec_announced(old(self)@, msg.link, author, flags, entry),
            r is Ok ==> final(self).can_publish(),
    {
        let preparsed = msg.parse_header()?;
        let unwrapped = self.unwrap_announcement(&preparsed)?;
        let ghost u = unwrapped;
        let r = self.commit_announcement(unwrapped, info);
        proof {
            if r is Ok {
                if let Content::Announce { sig_pk, flags } = u.content {
                    let entry = LinkEntry { spongos: u.spongos, info };
                    assert(self@ == spec_announced(old(self)@, msg.link, sig_pk, flags, entry));
                }
            }
        }
        r
    }

    /// Places each of `pks` that is not known yet at `fresh_cursor(rel)`.
    fn admit_publishers(&mut self, pks: &Vec<PublicKey>, rel: u64)
        requires
            old(self).wf(),
        ensures
            final(self).wf(),
            final(self)@ == (UserModel {
                pk_store: Map::new(
                    |k: u64| old(self).pk_store@.contains_key(k) || pks@.contains(k),
                    |k: u64|
                        if old(self).pk_store@.contains_key(k) {
                            old(self).pk_store@[k]
                        } else {
                            fresh_cursor(rel)
                        },
                ),
                ..old(self)@
            }),
            final(self).same_identity(old(self)),
            final(self).backend == old(self).backend,
            old(self).can_publish() ==> final(self).can_publish(),
    {
        let ghost m0 = self.pk_store@;
        let mut i: usize = 0;
        while i < pks.len()
            invariant
                self.wf(),
                i <= pks@.len(),
                self@ == (UserModel { pk_store: self.pk_store@, ..old(self)@ }),
                self.same_identity(old(self)),
                self.backend == old(self).backend,
                self.pk_store@ == Map::new(
                    |k: u64| m0.contains_key(k) || pks@.subrange(0, i as int).contains(k),
                    |k: u64|
                        if m0.contains_key(k) {
                            m0[k]
                        } else {
                            fresh_cursor(rel)
                        },
                ),
                m0 == old(self).pk_store@,
            decreases pks@.len() - i,
        {
            let k = pks[i];
            let ghost before = self.pk_store@;
            if !self.pk_store.contains_key(k) {
                self.pk_store.insert(k, Cursor::new_at(rel, 0, FIRST_PAYLOAD_NUM));
            }
            proof {
                let s0 = pks@.subrange(0, i as int);
                let s1 = pks@.subrange(0, i + 1);
                assert(s1 =~= s0.push(k));
                assert forall|x: u64| s1.contains(x) <==> s0.contains(x) || x == k by {
                    if s1.contains(x) && x != k {
                        let j = choose|j: int| 0 <= j < s1.len() && s1[j] == x;
                        assert(s0[j] == x);
                    }
                    if s0.contains(x) {
                        let j = choose|j: int| 0 <= j < s0.len() && s0[j] == x;
                        assert(s1[j] == x);
                    }
                    if x == k {
                        assert(s1[i as int] == k);
                    }
                }
                assert(self.pk_store@ =~= Map::new(
                    |x: u64| m0.contains_key(x) || s1.contains(x),
                    |x: u64|
                        if m0.contains_key(x) {
                            m0[x]
                        } else {
                            fresh_cursor(rel)
                        },
                ));
            }
            i = i + 1;
        }
        proof {
            assert(pks@.subrange(0, pks@.len() as int) =~= pks@);
        }
    }

    /// Opens a subscription.
    pub fn unwrap_subscribe(&self, preparsed: &PreparsedMessage) -> (r: Result<UnwrappedMessage, Error>)
        requires
            self.wf(),
        ensures
            spec_unwrap_check(self.appinst, self.link_store@, *preparsed, SUBSCRIBE) matches Some(e) ==> r
                == Err::<UnwrappedMessage, Error>(e),
            spec_unwrap_check(self.appinst, self.link_store@, *preparsed, SUBSCRIBE) is None && r is Err ==> r
                == Err::<UnwrappedMessage, Error>(Error::CryptoFailure),
            r matches Ok(u) ==> u.link == preparsed.header.link && u.content is Subscribe,
    {
        if preparsed.header.content_type != SUBSCRIBE {
            return Err(Error::ContentTypeMismatch);
        }
        self.ensure_appinst(preparsed)?;
        self.unwrap(preparsed)
    }

    /// Accepts an opened subscription: trusts the subscriber's key and places
    /// it at the announcement, before any payload number. Own cursor stays.
    pub fn commit_subscribe(&mut self, unwrapped: UnwrappedMessage, info: u64) -> (r: Result<(), Error>)
        requires
            old(self).wf(),
        ensures
            final(self).wf(),
            final(self).same_identity(old(self)),
            final(self).backend == old(self).backend,
            r is Err ==> *final(self) == *old(self),
            old(self).can_publish() ==> final(self).can_publish(),
            !(unwrapped.content is Subscribe) ==> r == Err::<(), Error>(Error::ContentTypeMismatch),
            unwrapped.content is Subscribe && old(self).appinst is None ==> r == Err::<(), Error>(
                Error::PreconditionUnmet,
            ),
            unwrapped.content matches Content::Subscribe { subscriber_sig_pk, .. } ==> (old(self).appinst is Some
                ==> r is Ok && final(self)@ == spec_subscribed(
                old(self)@,
                subscriber_sig_pk,
                unwrapped.link.rel,
                LinkEntry { spongos: unwrapped.spongos, info },
            )),
    {
        let subscriber = match &unwrapped.content {
            Content::Subscribe { subscriber_sig_pk, .. } => *subscriber_sig_pk,
            _ => {
                return Err(Error::ContentTypeMismatch);
            },
        };
        let appinst = match self.appinst {
            Some(a) => a,
            None => {
                return Err(Error::PreconditionUnmet);
            },
        };
        let _ = self.commit(unwrapped, info);
        if subscriber != self.sig_pk {
            self.pk_store.insert(subscriber, Cursor::new_at(appinst.rel, 0, SEQ_MESSAGE_NUM));
        }
        proof {
            assert(self@.pk_store =~= spec_subscribed(old(self)@, subscriber, unwrapped.link.rel, LinkEntry { spongos: unwrapped.spongos, info }).pk_store);
        }
        Ok(())
    }

    /// Accepts a subscription: see `commit_subscribe`.
    pub fn handle_subscribe(&mut self, msg: BinaryMessage, info: u64) -> (r: Result<(), Error>)
        requires
            old(self).wf(),
        ensures
            final(self).wf(),
            final(self).same_identity(old(self)),
            final(self).backend == old(self).backend,
            spec_receive_check(old(self).appinst, old(self).link_store@, msg, SUBSCRIBE) matches Some(e) ==> r
                == Err::<(), Error>(e),
            spec_receive_check(old(self).appinst, old(self).link_store@, msg, SUBSCRIBE) is None && r is Err ==> r
                == Err::<(), Error>(Error::CryptoFailure),
            r is Err ==> *final(self) == *old(self),
            old(self).can_publish() ==> final(self).can_publish(),
            r is Ok ==> exists|subscriber: PublicKey, entry: LinkEntry|
                final(self)@ == spec_subscribed(old(self)@, subscriber, msg.link.rel, entry),
    {
        let preparsed = self.preparse(&msg, SUBSCRIBE)?;
        let unwrapped = self.unwrap_subscribe(&preparsed)?;
        let ghost u = unwrapped;
        let r = self.commit_subscribe(unwrapped, info);
        proof {
            if let Content::Subscribe { subscriber_sig_pk, .. } = u.content {
                let entry = LinkEntry { spongos: u.spongos, info };
                assert(self@ == spec_subscribed(old(self)@, subscriber_sig_pk, msg.link.rel, entry));
            }
        }
        r
    }

    /// Opens a keyload with own keys: own key-agreement key and pre-shared keys.
    pub fn unwrap_keyload(&self, preparsed: &PreparsedMessage) -> (r: Result<UnwrappedMessage, Error>)
        requires
            self.wf(),
        ensures
            spec_unwrap_check(self.appinst, self.link_store@, *preparsed, KEYLOAD) matches Some(e) ==> r
                == Err::<UnwrappedMessage, Error>(e),
            spec_unwrap_check(self.appinst, self.link_store@, *preparsed, KEYLOAD) is None && r is Err ==> r
                == Err::<UnwrappedMessage, Error>(Error::CryptoFailure),
            r matches Ok(u) ==> u.link == preparsed.header.link && u.content is Keyload,
    {
        if preparsed.header.content_type != KEYLOAD {
            return Err(Error::ContentTypeMismatch);
        }
        self.ensure_appinst(preparsed)?;
        if self.author_sig_pk.is_none() {
            return Err(Error::PreconditionUnmet);
        }
        self.unwrap(preparsed)
    }

    /// Accepts an opened keyload: commits its state and, when it granted the
    /// session key, trusts the recipients it names. Returns whether it did.
    pub fn commit_keyload(&mut self, unwrapped: UnwrappedMessage, info: u64) -> (r: Result<bool, Error>)
        requires
            old(self).wf(),
        ensures
            final(self).wf(),
            final(self).same_identity(old(self)),
            final(self).backend == old(self).backend,
            r is Err ==> *final(self) == *old(self),
            old(self).can_publish() ==> final(self).can_publish(),
            !(unwrapped.content is Keyload) ==> r == Err::<bool, Error>(Error::ContentTypeMismatch),
            unwrapped.content is Keyload && old(self).appinst is None ==> r == Err::<bool, Error>(
                Error::PreconditionUnmet,
            ),
            unwrapped.content matches Content::Keyload { key, ke_pks, .. } ==> (old(self).appinst is Some
                ==> r == Ok::<bool, Error>(key is Some) && final(self)@ == spec_keyload_handled(
                old(self)@,
                unwrapped.link.rel,
                LinkEntry { spongos: unwrapped.spongos, info },
                key is Some,
                ke_pks@,
            )),
    {
        let appinst = match self.appinst {
            Some(a) => a,
            None => {
                return if unwrapped.content.content_type() == KEYLOAD {
                    Err(Error::PreconditionUnmet)
                } else {
                    Err(Error::ContentTypeMismatch)
                };
            },
        };
        let ghost u = unwrapped;
        let UnwrappedMessage { link, content, spongos } = unwrapped;
        match content {
            Content::Keyload { key, ke_pks, .. } => {
                self.link_store.insert(link.rel, LinkEntry { spongos, info });
                let allowed = key.is_some();
                if allowed {
                    self.admit_publishers(&ke_pks, appinst.rel);
                }
                proof {
                    let entry = LinkEntry { spongos: u.spongos, info };
                    assert(self@.pk_store =~= spec_keyload_handled(old(self)@, link.rel, entry, allowed, ke_pks@).pk_store);
                    assert(self@ == spec_keyload_handled(old(self)@, link.rel, entry, allowed, ke_pks@));
                }
                Ok(allowed)
            },
            _ => Err(Error::ContentTypeMismatch),
        }
    }

    /// Handles a keyload: reports whether it granted the session key; see
    /// `commit_keyload`.
    pub fn handle_keyload(&mut self, msg: BinaryMessage, info: u64) -> (r: Result<GenericMessage<bool>, Error>)
        requires
            old(self).wf(),
        ensures
            final(self).wf(),
            final(self).same_identity(old(self)),
            final(self).backend == old(self).backend,
            spec_receive_check(old(self).appinst, old(self).link_store@, msg, KEYLOAD) matches Some(e) ==> r
                == Err::<GenericMessage<bool>, Error>(e),
            spec_receive_check(old(self).appinst, old(self).link_store@, msg, KEYLOAD) is None && r is Err ==> r
                == Err::<GenericMessage<bool>, Error>(Error::CryptoFailure),
            r is Err ==> *final(self) == *old(self),
            old(self).can_publish() ==> final(self).can_publish(),
            r matches Ok(g) ==> g.link == msg.link && exists|entry: LinkEntry, pks: Seq<PublicKey>|
                final(self)@ == spec_keyload_handled(old(self)@, msg.link.rel, entry, g.body, pks),
    {
        let preparsed = self.preparse(&msg, KEYLOAD)?;
        let unwrapped = self.unwrap_keyload(&preparsed)?;
        let ghost u = unwrapped;
        let allowed = self.commit_keyload(unwrapped, info)?;
        let g = GenericMessage::new(msg.link, allowed);
        proof {
            assert(g.link == msg.link);
            assert(u.content is Keyload);
            if let Content::Keyload { key, ke_pks, .. } = u.content {
                let entry = LinkEntry { spongos: u.spongos, info };
                assert(self@ == spec_keyload_handled(old(self)@, msg.link.rel, entry, g.body, ke_pks@));
            }
            assert(exists|e: LinkEntry, pks: Seq<PublicKey>|
                self@ == spec_keyload_handled(old(self)@, msg.link.rel, e, g.body, pks));
        }
        let r = Ok(g);
        proof {
            assert(r matches Ok(g1) ==> g1.link == msg.link && exists|e: LinkEntry, pks: Seq<PublicKey>|
                self@ == spec_keyload_handled(old(self)@, msg.link.rel, e, g1.body, pks));
        }
        r
    }

    /// Opens a signed packet.
    pub fn unwrap_signed_packet(&self, preparsed: &PreparsedMessage) -> (r: Result<UnwrappedMessage, Error>)
        requires
            self.wf(),
        ensures
            spec_unwrap_check(self.appinst, self.link_store@, *preparsed, SIGNED_PACKET) matches Some(e) ==> r
                == Err::<UnwrappedMessage, Error>(e),
            spec_unwrap_check(self.appinst, self.link_store@, *preparsed, SIGNED_PACKET) is None && r is Err ==> r
                == Err::<UnwrappedMessage, Error>(Error::CryptoFailure),
            r matches Ok(u) ==> u.link == preparsed.header.link && u.content is SignedPacket,
    {
        if preparsed.header.content_type != SIGNED_PACKET {
            return Err(Error::ContentTypeMismatch);
        }
        self.ensure_appinst(preparsed)?;
        self.unwrap(preparsed)
    }

    /// Accepts an opened signed packet: its signer and its public and unmasked
    /// payloads.
    pub fn commit_signed_packet_message(&mut self, unwrapped: UnwrappedMessage, info: u64) -> (r: Result<
        GenericMessage<(PublicKey, Vec<u8>, Vec<u8>)>,
        Error,
    >)
        requires
            old(self).wf(),
        ensures
            final(self).wf(),
            final(self).same_identity(old(self)),
            final(self).backend == old(self).backend,
            r is Err ==> *final(self) == *old(self),
            old(self).can_publish() ==> final(self).can_publish(),
            !(unwrapped.content is SignedPacket) ==> r == Err::<GenericMessage<(PublicKey, Vec<u8>, Vec<u8>)>, Error>(
                Error::ContentTypeMismatch,
            ),
            unwrapped.content matches Content::SignedPacket { sig_pk, public_payload, masked_payload, .. } ==> (r matches Ok(g) && g.link
                == unwrapped.link && g.body == (sig_pk, public_payload, masked_payload) && final(self)@ == spec_committed(
                old(self)@,
                unwrapped.link.rel,
                LinkEntry { spongos: unwrapped.spongos, info },
            )),
    {
        let ghost u = unwrapped;
        let UnwrappedMessage { link, content, spongos } = unwrapped;
        match content {
            Content::SignedPacket { sig_pk, public_payload, masked_payload, .. } => {
                self.link_store.insert(link.rel, LinkEntry { spongos, info });
                Ok(GenericMessage::new(link, (sig_pk, public_payload, masked_payload)))
            },
            _ => Err(Error::ContentTypeMismatch),
        }
    }

    /// Verifies a signed packet: see `commit_signed_packet_message`.
    pub fn handle_signed_packet(&mut self, msg: BinaryMessage, info: u64) -> (r: Result<
        GenericMessage<(PublicKey, Vec<u8>, Vec<u8>)>,
        Error,
    >)
        requires
            old(self).wf(),
        ensures
            final(self).wf(),
            final(self).same_identity(old(self)),
            final(self).backend == old(self).backend,
            spec_receive_check(old(self).appinst, old(self).link_store@, msg, SIGNED_PACKET) matches Some(e) ==> r
                == Err::<GenericMessage<(PublicKey, Vec<u8>, Vec<u8>)>, Error>(e),
            spec_receive_check(old(self).appinst, old(self).link_store@, msg, SIGNED_PACKET) is None && r is Err ==> r
                == Err::<GenericMessage<(PublicKey, Vec<u8>, Vec<u8>)>, Error>(Error::CryptoFailure),
            r is Err ==> *final(self) == *old(self),
            old(self).can_publish() ==> final(self).can_publish(),
            r matches Ok(g) ==> g.link == msg.link && exists|entry: LinkEntry|
                final(self)@ == spec_committed(old(self)@, msg.link.rel, entry),
    {
        let preparsed = self.preparse(&msg, SIGNED_PACKET)?;
        let unwrapped = self.unwrap_signed_packet(&preparsed)?;
        let ghost u = unwrapped;
        let r = self.commit_signed_packet_message(unwrapped, info);
        proof {
            assert(self@ == spec_committed(old(self)@, msg.link.rel, LinkEntry { spongos: u.spongos, info }));
        }
        r
    }

    /// Opens a tagged packet.
    pub fn unwrap_tagged_packet(&self, preparsed: &PreparsedMessage) -> (r: Result<UnwrappedMessage, Error>)
        requires
            self.wf(),
        ensures
            spec_unwrap_check(self.appinst, self.link_store@, *preparsed, TAGGED_PACKET) matches Some(e) ==> r
                == Err::<UnwrappedMessage, Error>(e),
            spec_unwrap_check(self.appinst, self.link_store@, *preparsed, TAGGED_PACKET) is None && r is Err ==> r
                == Err::<UnwrappedMessage, Error>(Error::CryptoFailure),
            r matches Ok(u) ==> u.link == preparsed.header.link && u.content is TaggedPacket,
    {
        if preparsed.header.content_type != TAGGED_PACKET {
            return Err(Error::ContentTypeMismatch);
        }
        self.ensure_appinst(preparsed)?;
        self.unwrap(preparsed)
    }

    /// Accepts an opened tagged packet: its public and unmasked payloads.
    pub fn commit_tagged_packet_message(&mut self, unwrapped: UnwrappedMessage, info: u64) -> (r: Result<
        GenericMessage<(Vec<u8>, Vec<u8>)>,
        Error,
    >)
        requires
            old(self).wf(),
        ensures
            final(self).wf(),
            final(self).same_identity(old(self)),
            final(self).backend == old(self).backend,
            r is Err ==> *final(self) == *old(self),
            old(self).can_publish() ==> final(self).can_publish(),
            !(unwrapped.content is TaggedPacket) ==> r == Err::<GenericMessage<(Vec<u8>, Vec<u8>)>, Error>(
                Error::ContentTypeMismatch,
            ),
            unwrapped.content matches Content::TaggedPacket { public_payload, masked_payload, .. } ==> (r matches Ok(g) && g.link
                == unwrapped.link && g.body == (public_payload, masked_payload) && final(self)@ == spec_committed(
                old(self)@,
                unwrapped.link.rel,
                LinkEntry { spongos: unwrapped.spongos, info },
            )),
    {
        let ghost u = unwrapped;
        let UnwrappedMessage { link, content, spongos } = unwrapped;
        match content {
            Content::TaggedPacket { public_payload, masked_payload, .. } => {
                self.link_store.insert(link.rel, LinkEntry { spongos, info });
                Ok(GenericMessage::new(link, (public_payload, masked_payload)))
            },
            _ => Err(Error::ContentTypeMismatch),
        }
    }

    /// Verifies a tagged packet: see `commit_tagged_packet_message`.
    pub fn handle_tagged_packet(&mut self, msg: BinaryMessage, info: u64) -> (r: Result<
        GenericMessage<(Vec<u8>, Vec<u8>)>,
        Error,
    >)
        requires
            old(self).wf(),
        ensures
            final(self).wf(),
            final(self).same_identity(old(self)),
            final(self).backend == old(self).backend,
            spec_receive_check(old(self).appinst, old(self).link_store@, msg, TAGGED_PACKET) matches Some(e) ==> r
                == Err::<GenericMessage<(Vec<u8>, Vec<u8>)>, Error>(e),
            spec_receive_check(old(self).appinst, old(self).link_store@, msg, TAGGED_PACKET) is None && r is Err ==> r
                == Err::<GenericMessage<(Vec<u8>, Vec<u8>)>, Error>(Error::CryptoFailure),
            r is Err ==> *final(self) == *old(self),
            old(self).can_publish() ==> final(self).can_publish(),
            r matches Ok(g) ==> g.link == msg.link && exists|entry: LinkEntry|
                final(self)@ == spec_committed(old(self)@, msg.link.rel, entry),
    {
        let preparsed = self.preparse(&msg, TAGGED_PACKET)?;
        let unwrapped = self.unwrap_tagged_packet(&preparsed)?;
        let ghost u = unwrapped;
        let r = self.commit_tagged_packet_message(unwrapped, info);
        proof {
            assert(self@ == spec_committed(old(self)@, msg.link.rel, LinkEntry { spongos: u.spongos, info }));
        }
        r
    }

    /// Opens a sequence message.
    pub fn unwrap_sequence(&self, preparsed: &PreparsedMessage) -> (r: Result<UnwrappedMessage, Error>)
        requires
            self.wf(),
        ensures
            spec_unwrap_check(self.appinst, self.link_store@, *preparsed, SEQUENCE) matches Some(e) ==> r
                == Err::<UnwrappedMessage, Error>(e),
            spec_unwrap_check(self.appinst, self.link_store@, *preparsed, SEQUENCE) is None && r is Err ==> r
                == Err::<UnwrappedMessage, Error>(Error::CryptoFailure),
            r matches Ok(u) ==> u.link == preparsed.header.link && u.content is Sequence,
    {
        if preparsed.header.content_type != SEQUENCE {
            return Err(Error::ContentTypeMismatch);
        }
        self.ensure_appinst(preparsed)?;
        self.unwrap(preparsed)
    }

    /// Accepts an opened sequence message: the message it points to.
    pub fn commit_sequence_message(&mut self, unwrapped: UnwrappedMessage, info: u64) -> (r: Result<
        GenericMessage<SequenceRef>,
        Error,
    >)
        requires
            old(self).wf(),
        ensures
            final(self).wf(),
            final(self).same_identity(old(self)),
            final(self).backend == old(self).backend,
            r is Err ==> *final(self) == *old(self),
            old(self).can_publish() ==> final(self).can_publish(),
            !(unwrapped.content is Sequence) ==> r == Err::<GenericMessage<SequenceRef>, Error>(
                Error::ContentTypeMismatch,
            ),
            unwrapped.content matches Content::Sequence { link: l, pk, seq_num, ref_link } ==> (r matches Ok(g) && g.link
                == unwrapped.link && g.body == (SequenceRef { link: l, pk, seq_num, ref_link }) && final(self)@ == spec_committed(
                old(self)@,
                unwrapped.link.rel,
                LinkEntry { spongos: unwrapped.spongos, info },
            )),
    {
        let ghost u = unwrapped;
        let UnwrappedMessage { link, content, spongos } = unwrapped;
        match content {
            Content::Sequence { link: l, pk, seq_num, ref_link } => {
                self.link_store.insert(link.rel, LinkEntry { spongos, info });
                Ok(GenericMessage::new(link, SequenceRef { link: l, pk, seq_num, ref_link }))
            },
            _ => Err(Error::ContentTypeMismatch),
        }
    }

    /// Handles a sequence message, for the caller to fetch the message it
    /// points to: see `commit_sequence_message`.
    pub fn handle_sequence(&mut self, msg: BinaryMessage, info: u64) -> (r: Result<
        GenericMessage<SequenceRef>,
        Error,
    >)
        requires
            old(self).wf(),
        ensures
            final(self).wf(),
            final(self).same_identity(old(self)),
            final(self).backend == old(self).backend,
            spec_receive_check(old(self).appinst, old(self).link_store@, msg, SEQUENCE) matches Some(e) ==> r
                == Err::<GenericMessage<SequenceRef>, Error>(e),
            spec_receive_check(old(self).appinst, old(self).link_store@, msg, SEQUENCE) is None && r is Err ==> r
                == Err::<GenericMessage<SequenceRef>, Error>(Error::CryptoFailure),
            r is Err ==> *final(self) == *old(self),
            old(self).can_publish() ==> final(self).can_publish(),
            r matches Ok(g) ==> g.link == msg.link && exists|entry: LinkEntry|
                final(self)@ == spec_committed(old(self)@, msg.link.rel, entry),
    {
        let preparsed = self.preparse(&msg, SEQUENCE)?;
        let unwrapped = self.unwrap_sequence(&preparsed)?;
        let ghost u = unwrapped;
        let r = self.commit_sequence_message(unwrapped, info);
        proof {
            assert(self@ == spec_committed(old(self)@, msg.link.rel, LinkEntry { spongos: u.spongos, info }));
        }
        r
    }
}

} // verus!
