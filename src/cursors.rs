use vstd::prelude::*;

use crate::backend::Backend;
use crate::link::{Cursor, Link, LinkCursor, PublicKey, SEQ_MESSAGE_NUM};
use crate::store::lemma_map_of_index;
use crate::user::{User, UserModel};

verus! {

impl<B: Backend> User<B> {
    /// Moves publisher `pk` to `link` and its next sequence number.
    pub fn store_state(&mut self, pk: PublicKey, link: u64)
        requires
            old(self).wf(),
            old(self).pk_store@.contains_key(pk),
            old(self).pk_store@[pk].seq_no < u32::MAX,
        ensures
            final(self).wf(),
            final(self)@ == (UserModel {
                pk_store: old(self).pk_store@.insert(
                    pk,
                    Cursor {
                        link,
                        seq_no: (old(self).pk_store@[pk].seq_no + 1) as u32,
                        ..old(self).pk_store@[pk]
                    },
                ),
                ..old(self)@
            }),
            final(self).same_identity(old(self)),
            final(self).backend == old(self).backend,
            old(self).can_publish() ==> final(self).can_publish(),
    {
        let mut cursor = match self.pk_store.get(pk) {
            Some(c) => *c,
            None => Cursor::new_at(link, 0, 1),
        };
        cursor.link = link;
        cursor.next_seq();
        self.pk_store.insert(pk, cursor);
    }

    /// Moves self and every known publisher to `(link, 0, seq_no + 1)`: in
    /// single-branch mode all publishers chain from the same tip.
    pub fn store_state_for_all(&mut self, link: u64, seq_no: u32)
        requires
            old(self).wf(),
            seq_no < u32::MAX,
        ensures
            final(self).wf(),
            final(self)@ == (UserModel {
                pk_store: Map::new(
                    |k: u64| old(self).pk_store@.contains_key(k) || k == old(self).sig_pk,
                    |k: u64| Cursor { link, branch_no: 0, seq_no: (seq_no + 1) as u32 },
                ),
                ..old(self)@
            }),
            final(self).same_identity(old(self)),
            final(self).backend == old(self).backend,
            seq_no >= 1 ==> final(self).can_publish(),
    {
        let c = Cursor::new_at(link, 0, seq_no + 1);
        self.pk_store.insert(self.sig_pk, c);
        self.pk_store.set_all(c);
        proof {
            assert(self.pk_store@ =~= Map::new(
                |k: u64| old(self).pk_store@.contains_key(k) || k == old(self).sig_pk,
                |k: u64| c,
            ));
        }
    }

    /// The candidate address of message number `k` of `pk` chained from
    /// cursor `c`.
    pub open spec fn spec_next_id(&self, pk: PublicKey, c: Cursor, k: u32) -> (PublicKey, LinkCursor) {
        (
            pk,
            LinkCursor {
                link: Link {
                    base: self.link_gen.base,
                    rel: self.backend.spec_link_from(
                        self.link_gen,
                        pk,
                        Cursor { link: c.link, branch_no: 0, seq_no: k },
                    ),
                },
                branch_no: 0,
                seq_no: k,
            },
        )
    }

    /// Appends the addresses where the next message of `pk`, at `cursor`,
    /// may be found: the next sequence message in multi-branch mode, and the
    /// current and the previous sequence number otherwise.
    fn gen_next_msg_id(
        &self,
        ids: &mut Vec<(PublicKey, LinkCursor)>,
        pk: PublicKey,
        cursor: Cursor,
        branching: bool,
    )
        requires
            !branching ==> cursor.seq_no >= 1,
        ensures
            branching ==> final(ids)@ == old(ids)@.push(self.spec_next_id(pk, cursor, SEQ_MESSAGE_NUM)),
            !branching ==> final(ids)@ == old(ids)@.push(self.spec_next_id(pk, cursor, cursor.seq_no)).push(
                self.spec_next_id(pk, cursor, (cursor.seq_no - 1) as u32),
            ),
    {
        if branching {
            let rel = self.backend.link_from(&self.link_gen, pk, &Cursor::new_at(cursor.link, 0, SEQ_MESSAGE_NUM));
            let msg_id = Link { base: self.link_gen.base, rel };
            ids.push((pk, LinkCursor { link: msg_id, branch_no: 0, seq_no: SEQ_MESSAGE_NUM }));
        } else {
            let rel = self.backend.link_from(&self.link_gen, pk, &Cursor::new_at(cursor.link, 0, cursor.seq_no));
            let rel1 = self.backend.link_from(&self.link_gen, pk, &Cursor::new_at(cursor.link, 0, cursor.seq_no - 1));
            let msg_id = Link { base: self.link_gen.base, rel };
            let msg_id1 = Link { base: self.link_gen.base, rel: rel1 };
            ids.push((pk, LinkCursor { link: msg_id, branch_no: 0, seq_no: cursor.seq_no }));
            ids.push((pk, LinkCursor { link: msg_id1, branch_no: 0, seq_no: cursor.seq_no - 1 }));
        }
    }

    /// The addresses to fetch next: for every known publisher, in store
    /// order, one candidate in multi-branch mode (its next sequence message)
    /// and two otherwise (its current and its previous number).
    pub fn gen_next_msg_ids(&self, branching: bool) -> (r: Vec<(PublicKey, LinkCursor)>)
        requires
            self.wf(),
        ensures
            branching ==> r@.len() == self.pk_store.entries@.len(),
            !branching ==> r@.len() == 2 * self.pk_store.entries@.len(),
            branching ==> forall|i: int|
                0 <= i < self.pk_store.entries@.len() ==> r@[i] == self.spec_next_id(
                    #[trigger] self.pk_store.entries@[i].0,
                    self.pk_store.entries@[i].1,
                    SEQ_MESSAGE_NUM,
                ),
            !branching ==> forall|i: int|
                0 <= i < self.pk_store.entries@.len() ==> r@[2 * i] == self.spec_next_id(
                    #[trigger] self.pk_store.entries@[i].0,
                    self.pk_store.entries@[i].1,
                    self.pk_store.entries@[i].1.seq_no,
                ) && r@[2 * i + 1] == self.spec_next_id(
                    self.pk_store.entries@[i].0,
                    self.pk_store.entries@[i].1,
                    (self.pk_store.entries@[i].1.seq_no - 1) as u32,
                ),
            forall|i: int|
                0 <= i < self.pk_store.entries@.len() ==> self.pk_store@.contains_key(
                    #[trigger] self.pk_store.entries@[i].0,
                ) && self.pk_store@[self.pk_store.entries@[i].0] == self.pk_store.entries@[i].1,
            forall|pk: PublicKey|
                #[trigger] self.pk_store@.contains_key(pk) ==> exists|i: int|
                    0 <= i < self.pk_store.entries@.len() && self.pk_store.entries@[i].0 == pk,
            forall|i: int, j: int|
                0 <= i < j < self.pk_store.entries@.len() ==> self.pk_store.entries@[i].0
                    != self.pk_store.entries@[j].0,
    {
        let mut ids: Vec<(PublicKey, LinkCursor)> = Vec::new();
        let n = self.pk_store.entries.len();
        let mut i: usize = 0;
        while i < n
            invariant
                self.wf(),
                n == self.pk_store.entries@.len(),
                i <= n,
                branching ==> ids@.len() == i,
                !branching ==> ids@.len() == 2 * i,
                branching ==> forall|j: int|
                    0 <= j < i ==> ids@[j] == self.spec_next_id(
                        #[trigger] self.pk_store.entries@[j].0,
                        self.pk_store.entries@[j].1,
                        SEQ_MESSAGE_NUM,
                    ),
                !branching ==> forall|j: int|
                    0 <= j < i ==> ids@[2 * j] == self.spec_next_id(
                        #[trigger] self.pk_store.entries@[j].0,
                        self.pk_store.entries@[j].1,
                        self.pk_store.entries@[j].1.seq_no,
                    ) && ids@[2 * j + 1] == self.spec_next_id(
                        self.pk_store.entries@[j].0,
                        self.pk_store.entries@[j].1,
                        (self.pk_store.entries@[j].1.seq_no - 1) as u32,
                    ),
            decreases n - i,
        {
            let (pk, cursor) = self.pk_store.entries[i];
            proof {
                lemma_map_of_index(self.pk_store.entries@, i as int);
                assert(self.pk_store@.contains_key(pk));
                assert(self.pk_store@[pk] == cursor);
            }
            let ghost before = ids@;
            self.gen_next_msg_id(&mut ids, pk, cursor, branching);
            proof {
                if !branching {
                    assert forall|j: int| 0 <= j < i + 1 implies ids@[2 * j] == self.spec_next_id(
                        #[trigger] self.pk_store.entries@[j].0,
                        self.pk_store.entries@[j].1,
                        self.pk_store.entries@[j].1.seq_no,
                    ) && ids@[2 * j + 1] == self.spec_next_id(
                        self.pk_store.entries@[j].0,
                        self.pk_store.entries@[j].1,
                        (self.pk_store.entries@[j].1.seq_no - 1) as u32,
                    ) by {
                        if j < i {
                            assert(ids@[2 * j] == before[2 * j]);
                            assert(ids@[2 * j + 1] == before[2 * j + 1]);
                        }
                    }
                }
            }
            i = i + 1;
        }
        proof {
            assert forall|i: int|
                0 <= i < self.pk_store.entries@.len() implies self.pk_store@.contains_key(
                    #[trigger] self.pk_store.entries@[i].0,
                ) && self.pk_store@[self.pk_store.entries@[i].0] == self.pk_store.entries@[i].1 by {
                lemma_map_of_index(self.pk_store.entries@, i);
            }
            assert forall|pk: PublicKey| #[trigger] self.pk_store@.contains_key(pk) implies exists|i: int|
                0 <= i < self.pk_store.entries@.len() && self.pk_store.entries@[i].0 == pk by {
                crate::store::lemma_map_of_dom(self.pk_store.entries@, pk);
            }
        }
        ids
    }
}

} // verus!
