//! The control plane: one pause/resume channel per active download. An
//! entry lives from task creation until the download reaches a terminal
//! state; a command for an id without an entry is silently dropped.

use vstd::prelude::*;

use tokio::sync::mpsc::UnboundedSender;

use crate::channel;
use crate::event::Command;

verus! {

/// The sending half of one download's command channel.
struct ControlEntry {
    id: u64,
    sender: UnboundedSender<Command>,
}

/// The table of command channels of the currently active downloads.
pub struct ControlPlane {
    entries: Vec<ControlEntry>,
}

impl ControlPlane {
    /// True iff the download currently has a control channel.
    pub closed spec fn has_entry(self, id: u64) -> bool {
        exists|i: int| 0 <= i < self.entries@.len() && self.entries@[i].id == id
    }

    /// At most one entry per id.
    pub closed spec fn wf(self) -> bool {
        forall|i: int, j: int|
            0 <= i < j < self.entries@.len() ==> self.entries@[i].id != self.entries@[j].id
    }

    /// An empty table.
    pub fn new() -> (r: ControlPlane)
        ensures
            r.wf(),
            forall|x: u64| !r.has_entry(x),
    {
        ControlPlane { entries: Vec::new() }
    }

    /// Register the sending half of a new download's command channel.
    pub fn register(&mut self, id: u64, sender: UnboundedSender<Command>)
        requires
            old(self).wf(),
            !old(self).has_entry(id),
        ensures
            final(self).wf(),
            forall|x: u64| final(self).has_entry(x) == (old(self).has_entry(x) || x == id),
    {
        let ghost s = self.entries@;
        self.entries.push(ControlEntry { id, sender });
        proof {
            assert forall|x: u64| self.has_entry(x) == (old(self).has_entry(x) || x == id) by {
                let t = self.entries@;
                if old(self).has_entry(x) {
                    let i = choose|i: int| 0 <= i < s.len() && s[i].id == x;
                    assert(t[i].id == x);
                }
                if x == id {
                    assert(t[t.len() - 1].id == x);
                }
                if self.has_entry(x) {
                    let i = choose|i: int| 0 <= i < t.len() && t[i].id == x;
                    if i < s.len() {
                        assert(s[i].id == x);
                    }
                }
            }
        }
    }

    /// Drop the entry for a download that reached a terminal state; an
    /// unknown id leaves the table as it is.
    pub fn remove(&mut self, id: u64)
        requires
            old(self).wf(),
        ensures
            final(self).wf(),
            forall|x: u64| final(self).has_entry(x) == (old(self).has_entry(x) && x != id),
    {
        let mut k: usize = 0;
        while k < self.entries.len()
            invariant
                k <= self.entries@.len(),
                self.entries@ == old(self).entries@,
                old(self).wf(),
                forall|i: int| 0 <= i < k ==> self.entries@[i].id != id,
            decreases self.entries@.len() - k,
        {
            if self.entries[k].id == id {
                let ghost s = self.entries@;
                self.entries.remove(k);
                proof {
                    s.remove_ensures(k as int);
                    let t = self.entries@;
                    assert forall|x: u64|
                        self.has_entry(x) == (old(self).has_entry(x) && x != id) by {
                        if self.has_entry(x) {
                            let i = choose|i: int| 0 <= i < t.len() && t[i].id == x;
                            if i < k {
                                assert(s[i].id == x);
                            } else {
                                assert(s[i + 1].id == x);
                            }
                        }
                        if old(self).has_entry(x) && x != id {
                            let j = choose|j: int| 0 <= j < s.len() && s[j].id == x;
                            if j < k {
                                assert(t[j].id == x);
                            } else {
                                assert(t[j - 1].id == x);
                            }
                        }
                    }
                    assert forall|i: int, j: int|
                        0 <= i < j < t.len() implies t[i].id != t[j].id by {
                        if i < k {
                            assert(t[i] == s[i]);
                        } else {
                            assert(t[i] == s[i + 1]);
                        }
                        if j < k {
                            assert(t[j] == s[j]);
                        } else {
                            assert(t[j] == s[j + 1]);
                        }
                    }
                }
                return ;
            }
            k = k + 1;
        }
    }

    /// Forward a command to the download's task, if it still has an
    /// entry; the result says whether an entry was found, never whether
    /// the task has already picked the command up.
    pub fn send(&self, id: u64, command: Command) -> (found: bool)
        ensures
            found == self.has_entry(id),
    {
        let mut k: usize = 0;
        while k < self.entries.len()
            invariant
                k <= self.entries@.len(),
                forall|i: int| 0 <= i < k ==> self.entries@[i].id != id,
            decreases self.entries@.len() - k,
        {
            if self.entries[k].id == id {
                let _ = channel::channel_send(&self.entries[k].sender, command);
                proof {
                    assert(self.entries@[k as int].id == id);
                }
                return true;
            }
            k = k + 1;
        }
        false
    }
}

} // verus!
