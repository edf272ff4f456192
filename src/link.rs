use vstd::prelude::*;

verus! {

/// Identity of a participant: its signing public key.
pub type PublicKey = u64;

/// Identifier of a pre-shared key.
pub type PskId = u64;

/// Message address: `base` names the channel (its announcement), `rel` one
/// message within it.
#[derive(Clone, Copy, Debug, PartialEq, Eq, Structural)]
pub struct Link {
    pub base: u64,
    pub rel: u64,
}

impl Link {
    pub fn new(base: u64, rel: u64) -> (r: Link)
        ensures
            r.base == base,
            r.rel == rel,
    {
        Link { base, rel }
    }

    pub fn base(&self) -> (r: u64)
        ensures
            r == self.base,
    {
        self.base
    }

    pub fn rel(&self) -> (r: u64)
        ensures
            r == self.rel,
    {
        self.rel
    }
}

/// Sequence number of announce, subscribe and unsubscribe messages.
pub const ANN_MESSAGE_NUM: u32 = 0;

/// Sequence number of subscribe messages.
pub const SUB_MESSAGE_NUM: u32 = 0;

/// Sequence number of sequence messages.
pub const SEQ_MESSAGE_NUM: u32 = 1;

/// First sequence number of a publisher's payload messages.
pub const FIRST_PAYLOAD_NUM: u32 = 2;

/// Position of a publisher: the relative link it chains from, its branch
/// and the sequence number of the next message it sends.
#[derive(Clone, Copy, Debug, PartialEq, Eq, Structural)]
pub struct Cursor {
    pub link: u64,
    pub branch_no: u32,
    pub seq_no: u32,
}

impl Cursor {
    pub fn new_at(link: u64, branch_no: u32, seq_no: u32) -> (r: Cursor)
        ensures
            r == (Cursor { link, branch_no, seq_no }),
    {
        Cursor { link, branch_no, seq_no }
    }

    pub fn get_seq_num(&self) -> (r: u32)
        ensures
            r == self.seq_no,
    {
        self.seq_no
    }

    /// Moves to the next sequence number.
    pub fn next_seq(&mut self)
        requires
            old(self).seq_no < u32::MAX,
        ensures
            *final(self) == (Cursor { seq_no: (old(self).seq_no + 1) as u32, ..*old(self) }),
    {
        self.seq_no = self.seq_no + 1;
    }
}

} // verus!

verus! {

/// A cursor whose link is a full address: where to look for a message.
#[derive(Clone, Copy, Debug, PartialEq, Eq, Structural)]
pub struct LinkCursor {
    pub link: Link,
    pub branch_no: u32,
    pub seq_no: u32,
}

} // verus!
