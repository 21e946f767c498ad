//! The in-memory table of download state, mutated only through event
//! application and new-item insertion; its well-formedness is that all
//! ids are distinct.

use vstd::prelude::*;

use crate::event::DownloadEvent;
use crate::item::DownloadItem;

verus! {

/// True iff some item in `s` carries the id.
pub open spec fn contains_id(s: Seq<DownloadItem>, id: u64) -> bool {
    exists|i: int| 0 <= i < s.len() && s[i].id == id
}

/// The table of all downloads known to the consumer loop, terminal ones
/// included: items are never deleted.
pub struct Registry {
    items: Vec<DownloadItem>,
}

impl View for Registry {
    type V = Seq<DownloadItem>;

    closed spec fn view(&self) -> Seq<DownloadItem> {
        self.items@
    }
}

impl Registry {
    /// All ids in the table are distinct.
    pub open spec fn wf(self) -> bool {
        forall|i: int, j: int|
            0 <= i < j < self@.len() ==> self@[i].id != self@[j].id
    }

    /// An empty table.
    pub fn new() -> (r: Registry)
        ensures
            r@ =~= Seq::<DownloadItem>::empty(),
            r.wf(),
    {
        Registry { items: Vec::new() }
    }

    /// How many downloads are known, terminal ones included.
    pub fn len(&self) -> (n: usize)
        ensures
            n == self@.len(),
    {
        self.items.len()
    }

    /// Borrow the item at a position.
    pub fn item_at(&self, i: usize) -> (r: &DownloadItem)
        requires
            i < self@.len(),
        ensures
            *r == self@[i as int],
    {
        &self.items[i]
    }

    /// Add a newly created item under an id not yet in the table.
    pub fn insert(&mut self, item: DownloadItem)
        requires
            old(self).wf(),
            !contains_id(old(self)@, item.id),
        ensures
            final(self)@ == old(self)@.push(item),
            final(self).wf(),
    {
        self.items.push(item);
    }

    /// Look up the item with the given id, if any.
    pub fn get(&self, id: u64) -> (r: Option<&DownloadItem>)
        requires
            self.wf(),
        ensures
            match r {
                Some(it) => it.id == id && exists|i: int|
                    0 <= i < self@.len() && self@[i] == *it,
                None => !contains_id(self@, id),
            },
    {
        let mut k: usize = 0;
        while k < self.items.len()
            invariant
                k <= self.items@.len(),
                forall|i: int| 0 <= i < k ==> self.items@[i].id != id,
            decreases self.items@.len() - k,
        {
            if self.items[k].id == id {
                proof {
                    assert(0 <= k < self@.len() && self@[k as int] == self.items@[k as int]);
                }
                return Some(&self.items[k]);
            }
            k = k + 1;
        }
        None
    }

    /// Apply one event to the table: the item carrying the event's id
    /// moves as `DownloadItem::spec_apply` says, every other item is
    /// untouched.
    pub fn apply_event(&mut self, e: &DownloadEvent)
        ensures
            final(self)@.len() == old(self)@.len(),
            forall|i: int|
                0 <= i < old(self)@.len() ==> final(self)@[i] == old(self)@[i].spec_apply(*e),
            old(self).wf() ==> final(self).wf(),
    {
        let mut k: usize = 0;
        while k < self.items.len()
            invariant
                k <= self.items@.len(),
                self.items@.len() == old(self)@.len(),
                forall|i: int| 0 <= i < k ==> self.items@[i] == old(self)@[i].spec_apply(*e),
                forall|i: int| k <= i < self.items@.len() ==> self.items@[i] == old(self)@[i],
            decreases self.items@.len() - k,
        {
            self.items[k].apply_event(e);
            k = k + 1;
        }
        proof {
            assert forall|i: int, j: int|
                0 <= i < j < old(self)@.len() implies old(self)@[i].spec_apply(*e).id == old(
                self,
            )@[i].id && old(self)@[j].spec_apply(*e).id == old(self)@[j].id by {}
        }
    }

    /// The positions of all items in display order: newest creation
    /// time first. The result lists every position exactly once.
    pub fn display_order(&self) -> (order: Vec<usize>)
        ensures
            order@.len() == self@.len(),
            forall|i: int| 0 <= i < order@.len() ==> order@[i] < self@.len(),
            forall|i: int, j: int| 0 <= i < j < order@.len() ==> order@[i] != order@[j],
            forall|i: int, j: int|
                0 <= i < j < order@.len() ==> self@[order@[i] as int].created_at
                    >= self@[order@[j] as int].created_at,
    {
        let mut order: Vec<usize> = Vec::new();
        let mut k: usize = 0;
        while k < self.items.len()
            invariant
                k <= self.items@.len(),
                order@.len() == k,
                forall|i: int| 0 <= i < k ==> order@[i] < k,
                forall|i: int, j: int| 0 <= i < j < k ==> order@[i] != order@[j],
                forall|i: int, j: int|
                    0 <= i < j < k ==> self.items@[order@[i] as int].created_at
                        >= self.items@[order@[j] as int].created_at,
            decreases self.items@.len() - k,
        {
            let created = self.items[k].created_at;
            let mut pos: usize = 0;
            while pos < order.len() && self.items[order[pos]].created_at >= created
                invariant
                    pos <= order@.len(),
                    order@.len() == k,
                    k < self.items@.len(),
                    created == self.items@[k as int].created_at,
                    forall|i: int| 0 <= i < k ==> order@[i] < k,
                    forall|i: int, j: int| 0 <= i < j < k ==> order@[i] != order@[j],
                    forall|i: int, j: int|
                        0 <= i < j < k ==> self.items@[order@[i] as int].created_at
                            >= self.items@[order@[j] as int].created_at,
                    forall|i: int|
                        0 <= i < pos ==> self.items@[order@[i] as int].created_at >= created,
                decreases order@.len() - pos,
            {
                pos = pos + 1;
            }
            let ghost before = order@;
            order.insert(pos, k);
            proof {
                before.insert_ensures(pos as int, k);
            }
            k = k + 1;
        }
        order
    }

    /// Whether any download is actively receiving data.
    pub fn any_downloading(&self) -> (b: bool)
        ensures
            b == exists|i: int| 0 <= i < self@.len() && self@[i].state is Downloading,
    {
        let mut k: usize = 0;
        while k < self.items.len()
            invariant
                k <= self.items@.len(),
                forall|i: int| 0 <= i < k ==> !(self.items@[i].state is Downloading),
            decreases self.items@.len() - k,
        {
            match self.items[k].state {
                crate::state::DownloadState::Downloading => {
                    return true;
                },
                _ => {},
            }
            k = k + 1;
        }
        false
    }
}

} // verus!
