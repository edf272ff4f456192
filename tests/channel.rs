// A deterministic stand-in for the cryptographic collaborators, good enough
// to exercise the engine: keyed checksums instead of a sponge and signatures.
use channels::backend::Backend;
use channels::link::{Cursor, Link};
use channels::message::Content;
use channels::store::PskStore;

pub struct ToyBackend {
    pub state: u64,
}

fn mix(words: &[u64]) -> u64 {
    let mut h: u64 = 0xcbf2_9ce4_8422_2325;
    for w in words {
        for b in w.to_be_bytes() {
            h ^= b as u64;
            h = h.wrapping_mul(0x0100_0000_01b3);
        }
    }
    h
}

fn digest(parts: &[&[u8]]) -> u64 {
    let mut h: u64 = 0xcbf2_9ce4_8422_2325;
    for p in parts {
        for b in p.iter() {
            h ^= *b as u64;
            h = h.wrapping_mul(0x0100_0000_01b3);
        }
        h ^= 0xff;
        h = h.wrapping_mul(0x0100_0000_01b3);
    }
    h
}

fn put_bytes(out: &mut Vec<u8>, b: &[u8]) {
    out.extend_from_slice(&(b.len() as u32).to_be_bytes());
    out.extend_from_slice(b);
}

fn put_ids(out: &mut Vec<u8>, ids: &[u64]) {
    out.extend_from_slice(&(ids.len() as u32).to_be_bytes());
    for i in ids {
        out.extend_from_slice(&i.to_be_bytes());
    }
}

struct Reader<'a> {
    b: &'a [u8],
    at: usize,
}

impl<'a> Reader<'a> {
    fn u64(&mut self) -> Option<u64> {
        let s = self.b.get(self.at..self.at + 8)?;
        self.at += 8;
        Some(u64::from_be_bytes(s.try_into().ok()?))
    }
    fn u32(&mut self) -> Option<u32> {
        let s = self.b.get(self.at..self.at + 4)?;
        self.at += 4;
        Some(u32::from_be_bytes(s.try_into().ok()?))
    }
    fn u8(&mut self) -> Option<u8> {
        let v = *self.b.get(self.at)?;
        self.at += 1;
        Some(v)
    }
    fn bytes(&mut self) -> Option<Vec<u8>> {
        let n = self.u32()? as usize;
        let s = self.b.get(self.at..self.at + n)?;
        self.at += n;
        Some(s.to_vec())
    }
    fn ids(&mut self) -> Option<Vec<u64>> {
        let n = self.u32()? as usize;
        let mut v = Vec::new();
        for _ in 0..n {
            v.push(self.u64()?);
        }
        Some(v)
    }
}

fn mask(data: &[u8], key: u64) -> Vec<u8> {
    data.iter()
        .enumerate()
        .map(|(i, b)| b ^ (mix(&[key, i as u64]) as u8))
        .collect()
}

fn psk_value(psks: &PskStore, id: u64) -> Option<Vec<u8>> {
    psks.entries.iter().find(|(k, _)| *k == id).map(|(_, v)| v.clone())
}

impl Backend for ToyBackend {
    fn keypair(&mut self, nonce: &Vec<u8>) -> (u64, Vec<u8>) {
        let pk = mix(&[self.state, digest(&[nonce])]);
        (pk, pk.to_be_bytes().to_vec())
    }

    fn channel_link(&self, pk: u64, channel_idx: u64) -> Link {
        let base = mix(&[pk, channel_idx]);
        Link { base, rel: mix(&[base, 0]) }
    }

    fn spec_link_from(&self, anchor: Link, pk: u64, cursor: Cursor) -> u64 {
        mix(&[anchor.base, pk, cursor.link, cursor.branch_no as u64, cursor.seq_no as u64])
    }

    fn link_from(&self, anchor: &Link, pk: u64, cursor: &Cursor) -> u64 {
        self.spec_link_from(*anchor, pk, *cursor)
    }

    fn random_key(&mut self) -> Vec<u8> {
        self.state = mix(&[self.state, 1]);
        self.state.to_be_bytes().to_vec()
    }

    fn random_nonce(&mut self) -> Vec<u8> {
        self.state = mix(&[self.state, 2]);
        self.state.to_be_bytes().to_vec()
    }

    fn wrap(
        &self,
        header: &Vec<u8>,
        parent: Option<&Vec<u8>>,
        content: &Content,
        sig_sk: &Vec<u8>,
        psks: &PskStore,
    ) -> Option<(Vec<u8>, Vec<u8>)> {
        let parent: &[u8] = parent.map(|p| p.as_slice()).unwrap_or(&[]);
        let chain = digest(&[parent, header]);
        let mut body = Vec::new();
        let mut secret = digest(&[parent]);
        match content {
            Content::Announce { sig_pk, flags } => {
                body.extend_from_slice(&sig_pk.to_be_bytes());
                body.push(*flags);
            }
            Content::Subscribe { unsubscribe_key, subscriber_sig_pk, .. } => {
                body.extend_from_slice(&subscriber_sig_pk.to_be_bytes());
                put_bytes(&mut body, &mask(unsubscribe_key, chain));
            }
            Content::Keyload { nonce, key, psk_ids, ke_pks, .. } => {
                let key = key.clone()?;
                put_bytes(&mut body, nonce);
                put_ids(&mut body, psk_ids);
                put_ids(&mut body, ke_pks);
                for id in psk_ids {
                    let psk = psk_value(psks, *id)?;
                    put_bytes(&mut body, &mask(&key, digest(&[&psk, nonce])));
                }
                for pk in ke_pks {
                    put_bytes(&mut body, &mask(&key, mix(&[*pk, digest(&[nonce])])));
                }
                secret = digest(&[parent, &key]);
            }
            Content::SignedPacket { sig_pk, public_payload, masked_payload, .. } => {
                body.extend_from_slice(&sig_pk.to_be_bytes());
                put_bytes(&mut body, public_payload);
                put_bytes(&mut body, &mask(masked_payload, secret));
            }
            Content::TaggedPacket { public_payload, masked_payload, .. } => {
                put_bytes(&mut body, public_payload);
                put_bytes(&mut body, &mask(masked_payload, secret));
            }
            Content::Sequence { pk, seq_num, ref_link, .. } => {
                body.extend_from_slice(&pk.to_be_bytes());
                body.extend_from_slice(&seq_num.to_be_bytes());
                body.extend_from_slice(&ref_link.to_be_bytes());
            }
        }
        let signer = match content {
            Content::SignedPacket { .. } | Content::Announce { .. } | Content::Keyload { .. } => {
                sig_sk.clone()
            }
            _ => Vec::new(),
        };
        let tag = digest(&[parent, header, &body, &signer]);
        body.extend_from_slice(&tag.to_be_bytes());
        let state = digest(&[&secret.to_be_bytes(), &tag.to_be_bytes()]).to_be_bytes().to_vec();
        let mut state_full = state;
        state_full.extend_from_slice(&secret.to_be_bytes());
        Some((body, state_full))
    }

    fn unwrap(
        &self,
        header: &Vec<u8>,
        content_type: u8,
        link_to: Option<u64>,
        parent: Option<&Vec<u8>>,
        sealed: &Vec<u8>,
        own_pk: u64,
        _own_sk: &Vec<u8>,
        psks: &PskStore,
        author_pk: Option<u64>,
    ) -> Option<(Content, Vec<u8>)> {
        let parent_bytes: &[u8] = parent.map(|p| p.as_slice()).unwrap_or(&[]);
        if sealed.len() < 8 {
            return None;
        }
        let (body, tag) = sealed.split_at(sealed.len() - 8);
        let tag = u64::from_be_bytes(tag.try_into().ok()?);
        let chain = digest(&[parent_bytes, header]);
        let link = link_to.unwrap_or(0);
        let mut r = Reader { b: body, at: 0 };
        let mut secret = digest(&[parent_bytes]);
        let (content, signer) = match content_type {
            0 => {
                let sig_pk = r.u64()?;
                let flags = r.u8()?;
                (Content::Announce { sig_pk, flags }, sig_pk.to_be_bytes().to_vec())
            }
            4 => {
                let subscriber_sig_pk = r.u64()?;
                let unsubscribe_key = mask(&r.bytes()?, chain);
                (
                    Content::Subscribe { link, unsubscribe_key, subscriber_sig_pk },
                    Vec::new(),
                )
            }
            1 => {
                let nonce = r.bytes()?;
                let psk_ids = r.ids()?;
                let ke_pks = r.ids()?;
                let mut key = None;
                for id in &psk_ids {
                    let slot = r.bytes()?;
                    if let Some(psk) = psk_value(psks, *id) {
                        key = Some(mask(&slot, digest(&[&psk, &nonce])));
                    }
                }
                for pk in &ke_pks {
                    let slot = r.bytes()?;
                    if *pk == own_pk {
                        key = Some(mask(&slot, mix(&[*pk, digest(&[&nonce])])));
                    }
                }
                if let Some(k) = &key {
                    secret = digest(&[parent_bytes, k]);
                }
                let author = author_pk?.to_be_bytes().to_vec();
                (Content::Keyload { link, nonce, key, psk_ids, ke_pks }, author)
            }
            2 => {
                let sig_pk = r.u64()?;
                let public_payload = r.bytes()?;
                let masked_payload = mask(&r.bytes()?, secret);
                (
                    Content::SignedPacket { link, sig_pk, public_payload, masked_payload },
                    sig_pk.to_be_bytes().to_vec(),
                )
            }
            3 => {
                let public_payload = r.bytes()?;
                let masked_payload = mask(&r.bytes()?, secret);
                (Content::TaggedPacket { link, public_payload, masked_payload }, Vec::new())
            }
            6 => {
                let pk = r.u64()?;
                let seq_num = r.u32()?;
                let ref_link = r.u64()?;
                (Content::Sequence { link, pk, seq_num, ref_link }, Vec::new())
            }
            _ => return None,
        };
        if r.at != body.len() || digest(&[parent_bytes, header, body, &signer]) != tag {
            return None;
        }
        let mut state = digest(&[&secret.to_be_bytes(), &tag.to_be_bytes()]).to_be_bytes().to_vec();
        state.extend_from_slice(&secret.to_be_bytes());
        Some((content, state))
    }
}

use channels::error::Error;
use channels::hdf::{HDF, ANNOUNCE, FLAG_BRANCHING_MASK, HDF_LEN, KEYLOAD, SEQUENCE, SIGNED_PACKET};
use channels::link::LinkCursor;
use channels::message::{BinaryMessage, UnwrappedMessage, WrappedMessage};
use channels::store::{LinkStore, Store};
use channels::user::User;

fn participant(seed: u64, flags: u8) -> User<ToyBackend> {
    User::gen(ToyBackend { state: seed }, vec![seed as u8, 7], flags, vec![1], 0)
}

fn cursor_of(u: &User<ToyBackend>, pk: u64) -> Cursor {
    *u.pk_store.get(pk).expect("publisher known")
}

/// An author with an announced, committed channel.
fn author(flags: u8) -> (User<ToyBackend>, WrappedMessage) {
    let mut a = participant(1, flags);
    a.create_channel(0).unwrap();
    let ann = a.announce().unwrap();
    a.commit_wrapped(ann.wrapped.clone(), 0).unwrap();
    (a, ann)
}

/// Author A, subscriber B who subscribed, and A's keyload.
fn keyed_pair(flags: u8) -> (User<ToyBackend>, User<ToyBackend>, WrappedMessage, WrappedMessage) {
    let (mut a, ann) = author(flags);
    let mut b = participant(2, 0);
    b.handle_announcement(ann.message.clone(), 0).unwrap();
    let rel = a.appinst.unwrap().rel;
    let sub = b.subscribe(rel).unwrap();
    a.handle_subscribe(sub.message.clone(), 0).unwrap();
    let kl = a.share_keyload_for_everyone(rel).unwrap();
    a.commit_wrapped(kl.wrapped.clone(), 0).unwrap();
    let got = b.handle_keyload(kl.message.clone(), 0).unwrap();
    assert!(got.body);
    (a, b, ann, kl)
}

fn snapshot(u: &User<ToyBackend>) -> (Option<Link>, Vec<(u64, Cursor)>, Vec<(u64, Vec<u8>, u64)>) {
    (
        u.appinst,
        u.pk_store.entries.clone(),
        {
            let mut v: Vec<(u64, Vec<u8>, u64)> =
                u.link_store.map.iter().map(|(k, e)| (*k, e.spongos.clone(), e.info)).collect();
            v.sort();
            v
        },
    )
}

#[test]
fn solo_announce() {
    let mut a = participant(1, 0);
    a.create_channel(0).unwrap();
    let ann = a.announce().unwrap();
    let appinst = a.appinst.expect("channel created");
    assert_eq!(cursor_of(&a, a.sig_pk), Cursor { link: appinst.rel, branch_no: 0, seq_no: 2 });
    assert_eq!(ann.message.link, appinst);
    assert_eq!(ann.message.body[16], ANNOUNCE);
    let h = HDF::parse(&ann.message.body).unwrap();
    assert_eq!(h.content_type, ANNOUNCE);
    assert_eq!(h.seq_num, 0);
    assert_eq!(h.link, appinst);
}

#[test]
fn subscribe_round_trip() {
    let (mut a, ann) = author(0);
    let mut b = participant(2, 0);
    b.handle_announcement(ann.message.clone(), 0).unwrap();
    let appinst = a.appinst.unwrap();
    assert_eq!(b.appinst, Some(appinst));
    assert_eq!(b.author_sig_pk, Some(a.sig_pk));
    let sub = b.subscribe(appinst.rel).unwrap();
    let h = HDF::parse(&sub.message.body).unwrap();
    assert_eq!(h.seq_num, 0);
    a.handle_subscribe(sub.message.clone(), 0).unwrap();
    assert_eq!(cursor_of(&a, b.sig_pk), Cursor { link: appinst.rel, branch_no: 0, seq_no: 1 });
    let fresh = Cursor { link: appinst.rel, branch_no: 0, seq_no: 2 };
    assert_eq!(cursor_of(&b, a.sig_pk), fresh);
    assert_eq!(cursor_of(&b, b.sig_pk), fresh);
}

#[test]
fn keyload_opens_channel() {
    let (a, b, ann, kl) = keyed_pair(0);
    let h = HDF::parse(&kl.message.body).unwrap();
    assert_eq!(h.content_type, KEYLOAD);
    assert_eq!(h.seq_num, cursor_of(&a, a.sig_pk).seq_no);
    assert_eq!(kl.message.link.base, a.appinst.unwrap().base);
    assert!(b.link_store.contains_key(kl.message.link.rel));
    let mut c = participant(3, 0);
    c.handle_announcement(ann.message.clone(), 0).unwrap();
    let got = c.handle_keyload(kl.message.clone(), 0).unwrap();
    assert_eq!(got.link, kl.message.link);
    assert!(!got.body);
}

#[test]
fn keyload_admits_recipients() {
    let (mut a, ann) = author(0);
    let mut b = participant(2, 0);
    let mut d = participant(4, 0);
    b.handle_announcement(ann.message.clone(), 0).unwrap();
    d.handle_announcement(ann.message.clone(), 0).unwrap();
    let rel = a.appinst.unwrap().rel;
    a.handle_subscribe(b.subscribe(rel).unwrap().message, 0).unwrap();
    a.handle_subscribe(d.subscribe(rel).unwrap().message, 0).unwrap();
    let kl = a.share_keyload(rel, &vec![], &vec![b.sig_pk, d.sig_pk, 99]).unwrap();
    a.commit_wrapped(kl.wrapped.clone(), 0).unwrap();
    assert!(b.handle_keyload(kl.message.clone(), 0).unwrap().body);
    assert_eq!(cursor_of(&b, d.sig_pk), Cursor { link: rel, branch_no: 0, seq_no: 2 });
    assert!(b.pk_store.get(99).is_none());
}

#[test]
fn keyload_by_psk() {
    let (mut a, ann) = author(0);
    let mut e = participant(5, 0);
    e.handle_announcement(ann.message.clone(), 0).unwrap();
    a.psk_store.insert(42, vec![9, 9, 9]);
    e.psk_store.insert(42, vec![9, 9, 9]);
    let rel = a.appinst.unwrap().rel;
    let kl = a.share_keyload(rel, &vec![42, 43], &vec![]).unwrap();
    assert!(e.handle_keyload(kl.message.clone(), 0).unwrap().body);
}

#[test]
fn signed_packet_single_branch() {
    let (mut a, mut b, _ann, kl) = keyed_pair(0);
    let hello = b"hello".to_vec();
    let secret = b"secret".to_vec();
    let before_a = cursor_of(&a, a.sig_pk);
    let before_b = cursor_of(&b, a.sig_pk);
    let sp = a.sign_packet(kl.message.link.rel, &hello, &secret).unwrap();
    let h = HDF::parse(&sp.message.body).unwrap();
    assert_eq!(h.content_type, SIGNED_PACKET);
    assert_eq!(h.seq_num, before_a.seq_no);
    a.commit_wrapped(sp.wrapped.clone(), 0).unwrap();
    let got = b.handle_signed_packet(sp.message.clone(), 0).unwrap();
    assert_eq!(got.link, sp.message.link);
    assert_eq!(got.body, (a.sig_pk, hello, secret));
    let seq = a.wrap_sequence(sp.message.link.rel).unwrap();
    assert!(seq.0.is_none());
    let state = seq.1.expect("own cursor");
    assert_eq!(state.0.link, sp.message.link.rel);
    assert_eq!(a.commit_sequence(state, 0).unwrap(), None);
    b.store_state_for_all(sp.message.link.rel, before_b.seq_no);
    assert_eq!(cursor_of(&a, a.sig_pk).seq_no, before_a.seq_no + 1);
    assert_eq!(cursor_of(&b, a.sig_pk).seq_no, before_b.seq_no + 1);
    assert_eq!(cursor_of(&b, b.sig_pk).seq_no, before_b.seq_no + 1);
    assert_eq!(cursor_of(&a, a.sig_pk).link, sp.message.link.rel);
}

#[test]
fn tagged_packet_round_trip() {
    let (mut a, mut b, _ann, kl) = keyed_pair(0);
    let tp = b.tag_packet(kl.message.link.rel, &b"pub".to_vec(), &b"mask".to_vec()).unwrap();
    let got = a.handle_tagged_packet(tp.message.clone(), 0).unwrap();
    assert_eq!(got.body, (b"pub".to_vec(), b"mask".to_vec()));
}

#[test]
fn sequence_branching() {
    let (mut a, ann) = author(FLAG_BRANCHING_MASK);
    assert!(a.is_multi_branching());
    let mut b = participant(2, 0);
    b.handle_announcement(ann.message.clone(), 0).unwrap();
    assert!(b.is_multi_branching());
    let appinst = a.appinst.unwrap();
    let before = cursor_of(&a, a.sig_pk);
    let ws = a.wrap_sequence(77).unwrap();
    let msg = ws.0.expect("sequence message");
    let h = HDF::parse(&msg.body).unwrap();
    assert_eq!(h.content_type, SEQUENCE);
    assert_eq!(h.seq_num, 1);
    let state = ws.1.expect("cursor");
    assert_eq!(state.0, before);
    let link = a.commit_sequence(state, 0).unwrap();
    assert_eq!(link, Some(msg.link));
    let after = cursor_of(&a, a.sig_pk);
    assert_eq!(after.link, msg.link.rel);
    assert_eq!(after.seq_no, before.seq_no + 1);
    let seen = b.handle_sequence(msg.clone(), 0).unwrap();
    assert_eq!(seen.body.pk, a.sig_pk);
    assert_eq!(seen.body.seq_num, before.seq_no);
    assert_eq!(seen.body.ref_link, 77);
    let ids = a.gen_next_msg_ids(true);
    assert_eq!(ids.len(), a.pk_store.entries.len());
    let expected = a.backend.link_from(&appinst, a.sig_pk, &Cursor::new_at(after.link, 0, 1));
    assert!(ids.contains(&(
        a.sig_pk,
        LinkCursor { link: Link { base: appinst.base, rel: expected }, branch_no: 0, seq_no: 1 }
    )));
}

#[test]
fn tampered_body() {
    let (mut a, mut b, _ann, kl) = keyed_pair(0);
    let mut sp = a.sign_packet(kl.message.link.rel, &b"hello".to_vec(), &b"secret".to_vec()).unwrap();
    let at = HDF_LEN + 8 + 3;
    sp.message.body[at] ^= 1;
    let before = snapshot(&b);
    let r = b.handle_signed_packet(sp.message.clone(), 0);
    assert_eq!(r.err(), Some(Error::CryptoFailure));
    assert_eq!(snapshot(&b), before);
}

#[test]
fn announcement_twice() {
    let (_a, ann) = author(0);
    let mut b = participant(2, 0);
    b.handle_announcement(ann.message.clone(), 0).unwrap();
    let once = snapshot(&b);
    b.handle_announcement(ann.message.clone(), 0).unwrap();
    assert_eq!(snapshot(&b), once);
    assert_eq!(b.flags, 0);
}

#[test]
fn announcement_of_other_channel() {
    let (_a, ann) = author(0);
    let mut other = participant(9, 0);
    other.create_channel(5).unwrap();
    let ann2 = other.announce().unwrap();
    let mut b = participant(2, 0);
    b.handle_announcement(ann.message.clone(), 0).unwrap();
    let before = snapshot(&b);
    assert_eq!(b.handle_announcement(ann2.message.clone(), 0), Err(Error::AddressMismatch));
    assert_eq!(snapshot(&b), before);
}

#[test]
fn deterministic_messages() {
    let (a1, b1, _, kl1) = keyed_pair(0);
    let (a2, b2, _, kl2) = keyed_pair(0);
    assert_eq!(a1.sig_pk, a2.sig_pk);
    assert_eq!(b1.sig_pk, b2.sig_pk);
    assert_eq!(kl1.message.body, kl2.message.body);
    let (mut a1, mut a2) = (a1, a2);
    let m1 = a1.sign_packet(kl1.message.link.rel, &vec![1], &vec![2]).unwrap();
    let m2 = a2.sign_packet(kl2.message.link.rel, &vec![1], &vec![2]).unwrap();
    assert_eq!(m1.message.link, m2.message.link);
    assert_eq!(m1.message.body, m2.message.body);
}

#[test]
fn next_ids_single_branch() {
    let (a, _b, _, _) = keyed_pair(0);
    let n = a.pk_store.entries.len();
    assert_eq!(n, 2);
    let ids = a.gen_next_msg_ids(false);
    assert_eq!(ids.len(), 2 * n);
    for (i, (pk, c)) in a.pk_store.entries.iter().enumerate() {
        assert_eq!(ids[2 * i].0, *pk);
        assert_eq!(ids[2 * i].1.seq_no, c.seq_no);
        assert_eq!(ids[2 * i + 1].1.seq_no, c.seq_no - 1);
    }
    assert_eq!(a.gen_next_msg_ids(true).len(), n);
}

#[test]
fn create_channel_twice() {
    let mut a = participant(1, 0);
    a.create_channel(0).unwrap();
    assert_eq!(a.create_channel(1), Err(Error::PreconditionUnmet));
}

#[test]
fn fresh_user_cannot_publish() {
    let mut a = participant(1, 0);
    assert_eq!(a.get_seq_no(), None);
    assert_eq!(a.announce().err(), Some(Error::PreconditionUnmet));
    assert_eq!(a.subscribe(0).err(), Some(Error::PreconditionUnmet));
    assert_eq!(a.sign_packet(0, &vec![], &vec![]).err(), Some(Error::PreconditionUnmet));
    assert_eq!(a.share_keyload_for_everyone(0).err(), Some(Error::PreconditionUnmet));
    assert!(a.wrap_sequence(0).unwrap().1.is_none());
}

#[test]
fn unknown_parent_link() {
    let (mut a, _ann) = author(0);
    assert_eq!(a.sign_packet(12345, &vec![], &vec![]).err(), Some(Error::StoreMiss));
    assert_eq!(a.tag_packet(12345, &vec![], &vec![]).err(), Some(Error::StoreMiss));
}

#[test]
fn wrong_content_type() {
    let (mut a, b, _ann, kl) = keyed_pair(0);
    let sp = a.sign_packet(kl.message.link.rel, &vec![1], &vec![2]).unwrap();
    let mut b = b;
    assert_eq!(b.handle_announcement(sp.message.clone(), 0), Err(Error::ContentTypeMismatch));
    assert_eq!(b.handle_keyload(sp.message.clone(), 0).err(), Some(Error::ContentTypeMismatch));
    assert_eq!(b.handle_tagged_packet(sp.message.clone(), 0).err(), Some(Error::ContentTypeMismatch));
}

#[test]
fn not_joined_and_truncated() {
    let (mut a, _b, _ann, kl) = keyed_pair(0);
    let sp = a.sign_packet(kl.message.link.rel, &vec![1], &vec![2]).unwrap();
    let mut c = participant(3, 0);
    assert_eq!(c.handle_signed_packet(sp.message.clone(), 0).err(), Some(Error::PreconditionUnmet));
    let short = BinaryMessage { link: sp.message.link, body: sp.message.body[..10].to_vec() };
    assert_eq!(c.handle_signed_packet(short, 0).err(), Some(Error::EncodingError));
    let moved = BinaryMessage { link: Link { base: 1, rel: 2 }, body: sp.message.body.clone() };
    assert_eq!(c.handle_signed_packet(moved, 0).err(), Some(Error::AddressMismatch));
}

#[test]
fn header_round_trip() {
    let h = HDF::new(Link { base: 0x0102030405060708, rel: u64::MAX })
        .with_content_type(SEQUENCE)
        .unwrap()
        .with_payload_length(1023)
        .unwrap()
        .with_seq_num(0xdeadbeef)
        .with_flags(0x81);
    let bytes = h.to_bytes();
    assert_eq!(bytes.len(), HDF_LEN);
    assert_eq!(&bytes[..8], &[1, 2, 3, 4, 5, 6, 7, 8]);
    assert_eq!(HDF::parse(&bytes), Ok(h));
    assert_eq!(h.with_payload_length(1024), Err(Error::EncodingError));
    assert_eq!(h.with_content_type(16), Err(Error::EncodingError));
    let mut bad = bytes.clone();
    bad[16] = 16;
    assert_eq!(HDF::parse(&bad), Err(Error::EncodingError));
}

#[test]
fn store_insert_filter() {
    let mut s: Store<u32> = Store::new();
    s.insert(5, 1);
    s.insert(7, 2);
    s.insert(5, 3);
    assert_eq!(s.len(), 2);
    assert_eq!(s.get(5), Some(&3));
    assert_eq!(s.get(6), None);
    assert_eq!(s.filter(&vec![7, 6, 5]), vec![7, 5]);
    assert_eq!(s.keys(), vec![5, 7]);
}

#[test]
fn store_state_moves_one_publisher() {
    let (mut a, b, _, _) = keyed_pair(0);
    let before = cursor_of(&a, b.sig_pk);
    a.store_state(b.sig_pk, 555);
    assert_eq!(cursor_of(&a, b.sig_pk), Cursor { link: 555, branch_no: 0, seq_no: before.seq_no + 1 });
}

#[test]
fn accept_checks_kind_and_parent() {
    let link = Link { base: 1, rel: 2 };
    let seq = Content::Sequence { link: 5, pk: 6, seq_num: 7, ref_link: 8 };
    assert_eq!(UnwrappedMessage::accept(link, SEQUENCE, Some(5), None).err(), Some(Error::CryptoFailure));
    assert_eq!(
        UnwrappedMessage::accept(link, SIGNED_PACKET, Some(5), Some((seq.clone(), vec![1]))).err(),
        Some(Error::CryptoFailure)
    );
    assert_eq!(
        UnwrappedMessage::accept(link, SEQUENCE, Some(4), Some((seq.clone(), vec![1]))).err(),
        Some(Error::CryptoFailure)
    );
    let u = UnwrappedMessage::accept(link, SEQUENCE, Some(5), Some((seq, vec![1]))).unwrap();
    assert_eq!(u.link, link);
    assert_eq!(u.spongos, vec![1]);
}

#[test]
fn assemble_frames_body() {
    let h = HDF::new(Link { base: 1, rel: 2 }).with_content_type(SEQUENCE).unwrap().with_seq_num(1);
    let c = Content::Sequence { link: 0x0a0b, pk: 6, seq_num: 7, ref_link: 8 };
    assert_eq!(WrappedMessage::assemble(h, &c, None).err(), Some(Error::CryptoFailure));
    let w = WrappedMessage::assemble(h, &c, Some((vec![0xee, 0xff], vec![3]))).unwrap();
    let mut expected = h.to_bytes();
    expected.extend_from_slice(&0x0a0bu64.to_be_bytes());
    expected.extend_from_slice(&[0xee, 0xff]);
    assert_eq!(w.message.body, expected);
    assert_eq!(w.message.link, h.link);
    assert_eq!(w.wrapped.spongos, vec![3]);
}

#[test]
fn own_subscription_keeps_own_cursor() {
    let (mut a, _ann) = author(0);
    let rel = a.appinst.unwrap().rel;
    let sub = a.subscribe(rel).unwrap();
    a.handle_subscribe(sub.message.clone(), 0).unwrap();
    assert_eq!(cursor_of(&a, a.sig_pk), Cursor { link: rel, branch_no: 0, seq_no: 2 });
}

#[test]
fn commit_keyload_reports_key() {
    let (mut a, _ann) = author(0);
    let rel = a.appinst.unwrap().rel;
    let denied = UnwrappedMessage {
        link: Link { base: 1, rel: 500 },
        content: Content::Keyload { link: rel, nonce: vec![], key: None, psk_ids: vec![], ke_pks: vec![99] },
        spongos: vec![4],
    };
    assert_eq!(a.commit_keyload(denied, 3), Ok(false));
    assert!(a.pk_store.get(99).is_none());
    assert_eq!(a.link_store.get(500).map(|e| (e.spongos.clone(), e.info)), Some((vec![4], 3)));
    let granted = UnwrappedMessage {
        link: Link { base: 1, rel: 501 },
        content: Content::Keyload { link: rel, nonce: vec![], key: Some(vec![1]), psk_ids: vec![], ke_pks: vec![99] },
        spongos: vec![5],
    };
    assert_eq!(a.commit_keyload(granted, 3), Ok(true));
    assert_eq!(cursor_of(&a, 99), Cursor { link: rel, branch_no: 0, seq_no: 2 });
    let wrong = UnwrappedMessage {
        link: Link { base: 1, rel: 502 },
        content: Content::TaggedPacket { link: rel, public_payload: vec![], masked_payload: vec![] },
        spongos: vec![],
    };
    assert_eq!(a.commit_keyload(wrong, 0), Err(Error::ContentTypeMismatch));
}

#[test]
fn commit_packets_hand_on_content() {
    let (mut a, _ann) = author(0);
    let link = Link { base: 1, rel: 600 };
    let signed = UnwrappedMessage {
        link,
        content: Content::SignedPacket { link: 0, sig_pk: 77, public_payload: vec![1], masked_payload: vec![2] },
        spongos: vec![],
    };
    let g = a.commit_signed_packet_message(signed, 0).unwrap();
    assert_eq!((g.link, g.body), (link, (77, vec![1], vec![2])));
    let tagged = UnwrappedMessage {
        link,
        content: Content::TaggedPacket { link: 0, public_payload: vec![3], masked_payload: vec![4] },
        spongos: vec![],
    };
    assert_eq!(a.commit_tagged_packet_message(tagged, 0).unwrap().body, (vec![3], vec![4]));
    let seq = UnwrappedMessage {
        link,
        content: Content::Sequence { link: 5, pk: 6, seq_num: 7, ref_link: 8 },
        spongos: vec![],
    };
    let r = a.commit_sequence_message(seq, 0).unwrap().body;
    assert_eq!((r.link, r.pk, r.seq_num, r.ref_link), (5, 6, 7, 8));
}

#[test]
fn uncommitted_parent_on_receive() {
    let (mut a, mut b, _ann, kl) = keyed_pair(0);
    let sp = a.sign_packet(kl.message.link.rel, &vec![1], &vec![2]).unwrap();
    b.link_store = LinkStore::new();
    assert_eq!(b.handle_signed_packet(sp.message.clone(), 0).err(), Some(Error::StoreMiss));
}
