use vstd::prelude::*;

use crate::link::{Cursor, Link, PublicKey};
use crate::message::Content;
use crate::store::PskStore;

verus! {

/// The cryptographic collaborators of a participant: key generation and the
/// pseudo-random generator, link derivation, and the authenticated sponge
/// that seals and opens message bodies.
///
/// Link derivation is a function of its arguments, `spec_link_from`; the
/// engine assumes nothing else about what these return, and every other
/// contract of the engine holds whatever an implementation does.
pub trait Backend {
    /// The relative link that `link_from` derives.
    spec fn spec_link_from(&self, anchor: Link, pk: PublicKey, cursor: Cursor) -> u64;

    /// Generates the participant's signing key pair from the generator and
    /// `nonce`: its public key and its secret key.
    fn keypair(&mut self, nonce: &Vec<u8>) -> (PublicKey, Vec<u8>);

    /// Address of the announcement of channel `channel_idx` of author `pk`.
    fn channel_link(&self, pk: PublicKey, channel_idx: u64) -> Link;

    /// Relative link of the message that `pk` sends from `cursor` in the
    /// channel anchored at `anchor`.
    fn link_from(&self, anchor: &Link, pk: PublicKey, cursor: &Cursor) -> (r: u64)
        ensures
            r == self.spec_link_from(*anchor, pk, *cursor),
    ;

    /// Draws a fresh symmetric key.
    fn random_key(&mut self) -> Vec<u8>;

    /// Draws a fresh nonce.
    fn random_nonce(&mut self) -> Vec<u8>;

    /// Seals `content` after the encoded `header`, starting from the
    /// `parent` state: the sealed body and the state it leaves, or `None`.
    /// `sig_sk` signs, `psks` holds the pre-shared keys a keyload is sealed to.
    fn wrap(
        &self,
        header: &Vec<u8>,
        parent: Option<&Vec<u8>>,
        content: &Content,
        sig_sk: &Vec<u8>,
        psks: &PskStore,
    ) -> Option<(Vec<u8>, Vec<u8>)>;

    /// Opens a sealed body of kind `content_type` after the encoded `header`,
    /// chained from `link_to` and starting from the `parent` state committed
    /// there: its content and the state it leaves,
    /// or `None` when authentication fails. `own_pk` and `own_sk` are the
    /// receiver's keys, `psks` its pre-shared keys, `author_pk` the channel
    /// author's key where known.
    fn unwrap(
        &self,
        header: &Vec<u8>,
        content_type: u8,
        link_to: Option<u64>,
        parent: Option<&Vec<u8>>,
        sealed: &Vec<u8>,
        own_pk: PublicKey,
        own_sk: &Vec<u8>,
        psks: &PskStore,
        author_pk: Option<PublicKey>,
    ) -> Option<(Content, Vec<u8>)>;
}

} // verus!
