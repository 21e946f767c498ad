//! One registry entry per requested download, and the single place where
//! an event changes it.
//!
//! `spec_apply` is the mathematical model of event application: it is
//! defensive, so a terminal item is never changed again, an event for
//! another id is a no-op, and the state can only move along the
//! transition graph of `DownloadState::step_allowed`.

use vstd::prelude::*;

use crate::event::DownloadEvent;
use crate::state::DownloadState;

verus! {

/// Addition on counters that stops at `usize::MAX` instead of wrapping.
pub open spec fn add_capped(a: usize, b: usize) -> usize {
    if a + b <= usize::MAX {
        (a + b) as usize
    } else {
        usize::MAX
    }
}

/// One download known to the registry.
///
/// `id`, `address`, `save_path` and `created_at` are fixed at creation;
/// `state` and the two counters change only through `apply_event`.
#[derive(Debug, Clone, PartialEq, Eq)]
pub struct DownloadItem {
    pub id: u64,
    pub address: String,
    pub save_path: String,
    pub state: DownloadState,
    pub bytes_received: usize,
    pub chunks_received: usize,
    pub created_at: u64,
}

impl DownloadItem {
    /// A freshly created item: `Waiting`, with zeroed counters.
    pub open spec fn is_fresh(self) -> bool {
        &&& self.state is Waiting
        &&& self.bytes_received == 0
        &&& self.chunks_received == 0
    }

    /// What one event does to one item.
    ///
    /// An event for another id, or any event once the item is terminal,
    /// leaves the item unchanged; a state event whose source state does
    /// not match the transition graph is likewise ignored.
    pub open spec fn spec_apply(self, e: DownloadEvent) -> DownloadItem {
        if e.spec_id() != self.id || self.state.is_terminal() {
            self
        } else {
            match e {
                DownloadEvent::Started { .. } => {
                    if self.state is Waiting {
                        DownloadItem { state: DownloadState::Downloading, ..self }
                    } else {
                        self
                    }
                },
                DownloadEvent::ChunkReceived { size, .. } => {
                    DownloadItem {
                        bytes_received: add_capped(self.bytes_received, size),
                        chunks_received: add_capped(self.chunks_received, 1),
                        ..self
                    }
                },
                DownloadEvent::Completed { .. } => {
                    if self.state is Downloading {
                        DownloadItem { state: DownloadState::Completed, ..self }
                    } else {
                        self
                    }
                },
                DownloadEvent::Paused { .. } => {
                    if self.state is Downloading {
                        DownloadItem { state: DownloadState::Paused, ..self }
                    } else {
                        self
                    }
                },
                DownloadEvent::Resumed { .. } => {
                    if self.state is Paused {
                        DownloadItem { state: DownloadState::Downloading, ..self }
                    } else {
                        self
                    }
                },
                DownloadEvent::Error { message, .. } => {
                    DownloadItem { state: DownloadState::Error(message), ..self }
                },
            }
        }
    }

    /// Create a new item in `Waiting` with zeroed counters.
    pub fn new(id: u64, address: String, save_path: String, created_at: u64) -> (item:
        DownloadItem)
        ensures
            item.id == id,
            item.address == address,
            item.save_path == save_path,
            item.created_at == created_at,
            item.is_fresh(),
    {
        DownloadItem {
            id,
            address,
            save_path,
            state: DownloadState::Waiting,
            bytes_received: 0,
            chunks_received: 0,
            created_at,
        }
    }

    /// Apply one event to this item, exactly as `spec_apply` says.
    ///
    /// The extra clauses restate what follows from the model: the
    /// identity fields never change, a terminal item never changes, the
    /// state moves only along the transition graph, and the counters
    /// never decrease.
    pub fn apply_event(&mut self, e: &DownloadEvent)
        ensures
            *final(self) == old(self).spec_apply(*e),
            final(self).id == old(self).id,
            final(self).address == old(self).address,
            final(self).save_path == old(self).save_path,
            final(self).created_at == old(self).created_at,
            old(self).state.is_terminal() ==> *final(self) == *old(self),
            final(self).state == old(self).state || old(self).state.step_allowed(
                final(self).state,
            ),
            final(self).bytes_received >= old(self).bytes_received,
            final(self).chunks_received >= old(self).chunks_received,
    {
        if e.id() != self.id || self.state.terminal() {
            return ;
        }
        match e {
            DownloadEvent::Started { .. } => {
                match self.state {
                    DownloadState::Waiting => {
                        self.state = DownloadState::Downloading;
                    },
                    _ => {},
                }
            },
            DownloadEvent::ChunkReceived { size, .. } => {
                if self.bytes_received <= usize::MAX - *size {
                    self.bytes_received = self.bytes_received + *size;
                } else {
                    self.bytes_received = usize::MAX;
                }
                if self.chunks_received < usize::MAX {
                    self.chunks_received = self.chunks_received + 1;
                }
            },
            DownloadEvent::Completed { .. } => {
                match self.state {
                    DownloadState::Downloading => {
                        self.state = DownloadState::Completed;
                    },
                    _ => {},
                }
            },
            DownloadEvent::Paused { .. } => {
                match self.state {
                    DownloadState::Downloading => {
                        self.state = DownloadState::Paused;
                    },
                    _ => {},
                }
            },
            DownloadEvent::Resumed { .. } => {
                match self.state {
                    DownloadState::Paused => {
                        self.state = DownloadState::Downloading;
                    },
                    _ => {},
                }
            },
            DownloadEvent::Error { message, .. } => {
                self.state = DownloadState::Error(message.clone());
            },
        }
    }
}

} // verus!
