//! Transient user-facing notifications: an ordered collection keyed by an
//! opaque identifier. An entry leaves the collection only by an explicit
//! dismissal that names its identifier.

use vstd::prelude::*;

use crate::store_model::{lemma_filter_pairwise, lemma_filter_take_succ};

verus! {

/// Mathematical view of one notification.
pub struct ToastV {
    pub id: int,
    pub text: Seq<char>,
}

/// One notification entry.
pub struct Toast {
    pub id: u64,
    pub text: String,
}

impl View for Toast {
    type V = ToastV;

    open spec fn view(&self) -> ToastV {
        ToastV { id: self.id as int, text: self.text@ }
    }
}

impl DeepView for Toast {
    type V = ToastV;

    open spec fn deep_view(&self) -> ToastV {
        self.view()
    }
}

impl Clone for Toast {
    fn clone(&self) -> (r: Self)
        ensures
            r@ == self@,
    {
        Toast { id: self.id, text: self.text.clone() }
    }
}

/// The ordered collection of live notifications. Identifiers are assigned
/// from a counter, so they strictly increase with insertion and are unique.
pub struct Toasts {
    entries: Vec<Toast>,
    next_id: u64,
}

impl Toasts {
    /// The live entries, oldest first.
    pub closed spec fn entries_view(&self) -> Seq<ToastV> {
        self.entries.deep_view()
    }

    /// The identifier the next entry will get.
    pub closed spec fn next_id_spec(&self) -> int {
        self.next_id as int
    }

    /// Identifiers are unique: they strictly increase with insertion and
    /// stay below the counter.
    pub open spec fn wf(&self) -> bool {
        &&& 1 <= self.next_id_spec() <= u64::MAX
        &&& forall|i: int|
            0 <= i < self.entries_view().len() ==> 1 <= (#[trigger] self.entries_view()[i]).id
                < self.next_id_spec()
        &&& forall|i: int, j: int|
            0 <= i < j < self.entries_view().len() ==> (#[trigger] self.entries_view()[i]).id
                < (#[trigger] self.entries_view()[j]).id
    }

    /// An empty collection.
    pub fn new() -> (r: Self)
        ensures
            r.wf(),
            r.entries_view() == Seq::<ToastV>::empty(),
            r.next_id_spec() == 1,
    {
        let r = Toasts { entries: Vec::new(), next_id: 1 };
        proof {
            assert(r.entries_view() =~= Seq::<ToastV>::empty());
        }
        r
    }

    /// How many entries are live.
    pub fn len(&self) -> (n: usize)
        ensures
            n == self.entries_view().len(),
    {
        self.entries.len()
    }

    /// Read one live entry.
    pub fn get(&self, i: usize) -> (t: &Toast)
        requires
            i < self.entries_view().len(),
        ensures
            t@ == self.entries_view()[i as int],
    {
        &self.entries[i]
    }

    /// Append a notification under a fresh identifier, which is returned.
    /// With the identifier space exhausted nothing is added and `None` says
    /// so; no entry is ever dropped silently.
    pub fn push(&mut self, text: String) -> (r: Option<u64>)
        requires
            old(self).wf(),
        ensures
            final(self).wf(),
            old(self).next_id_spec() < u64::MAX ==> {
                &&& r == Some(old(self).next_id_spec() as u64)
                &&& final(self).entries_view() == old(self).entries_view().push(
                    ToastV { id: old(self).next_id_spec(), text: text@ },
                )
                &&& final(self).next_id_spec() == old(self).next_id_spec() + 1
            },
            old(self).next_id_spec() == u64::MAX ==> r is None && *final(self) == *old(self),
    {
        if self.next_id == u64::MAX {
            return None;
        }
        let id = self.next_id;
        let ghost pre = self.entries.deep_view();
        self.entries.push(Toast { id: id, text: text });
        self.next_id = self.next_id + 1;
        proof {
            assert(self.entries_view() =~= pre.push(
                ToastV { id: id as int, text: self.entries@.last().text@ },
            ));
            let post = self.entries_view();
            assert forall|x: int, y: int| 0 <= x < y < post.len() implies (#[trigger] post[x]).id
                < (#[trigger] post[y]).id by {
                assert(pre == old(self).entries_view());
                if y == post.len() - 1 {
                    assert(post[x] == old(self).entries_view()[x]);
                    assert(old(self).entries_view()[x].id < old(self).next_id_spec());
                }
            }
            assert forall|k: int| 0 <= k < post.len() implies 1 <= (#[trigger] post[k]).id
                < self.next_id_spec() by {
                assert(pre == old(self).entries_view());
                if k < post.len() - 1 {
                    assert(post[k] == old(self).entries_view()[k]);
                    assert(1 <= old(self).entries_view()[k].id < old(self).next_id_spec());
                }
            }
        }
        Some(id)
    }

    /// Dismiss the entry with the given identifier; every other entry stays,
    /// in order.
    pub fn remove(&mut self, id: u64)
        requires
            old(self).wf(),
        ensures
            final(self).wf(),
            final(self).entries_view() == old(self).entries_view().filter(
                |t: ToastV| t.id != id as int,
            ),
            final(self).next_id_spec() == old(self).next_id_spec(),
    {
        let ghost all = self.entries.deep_view();
        let ghost pred = |t: ToastV| t.id != id as int;
        let mut kept: Vec<Toast> = Vec::new();
        let n = self.entries.len();
        let mut i: usize = 0;
        proof {
            reveal(Seq::filter);
            assert(kept.deep_view() =~= all.take(0).filter(pred));
        }
        while i < n
            invariant
                n == self.entries.len(),
                all == self.entries.deep_view(),
                pred == (|t: ToastV| t.id != id as int),
                i <= n,
                kept.deep_view() == all.take(i as int).filter(pred),
            decreases n - i,
        {
            let ghost pre = kept.deep_view();
            if self.entries[i].id != id {
                kept.push(self.entries[i].clone());
                proof {
                    assert(kept.deep_view() =~= pre.push(all[i as int]));
                }
            }
            proof {
                lemma_filter_take_succ(all, pred, i as int);
                assert(kept.deep_view() =~= all.take(i as int + 1).filter(pred));
            }
            i = i + 1;
        }
        proof {
            assert(all.take(n as int) =~= all);
        }
        self.entries = kept;
        proof {
            broadcast use vstd::seq_lib::group_filter_ensures;
            broadcast use Seq::lemma_filter_contains_rev;

            assert(all == old(self).entries_view());
            assert forall|x: int, y: int| #![trigger all[x], all[y]] 0 <= x < y < all.len() implies
                (all[x]).id < (all[y]).id by {
                assert(all[x] == old(self).entries_view()[x]);
                assert(all[y] == old(self).entries_view()[y]);
            }
            lemma_filter_pairwise(all, pred, |a: ToastV, b: ToastV| a.id < b.id);
            assert(self.entries_view() == all.filter(pred));
            assert forall|k: int| 0 <= k < self.entries_view().len() implies 1 <= (
            #[trigger] self.entries_view()[k]).id < self.next_id_spec() by {
                assert(self.entries_view().contains(self.entries_view()[k]));
                assert(all.contains(self.entries_view()[k]));
                let w = choose|w: int| 0 <= w < all.len() && all[w] == self.entries_view()[k];
                assert(old(self).entries_view()[w].id < old(self).next_id_spec());
            }
        }
    }
}

} // verus!
