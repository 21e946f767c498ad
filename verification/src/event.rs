//! The messages of the system: progress/lifecycle events carried by the
//! event bus, and pause/resume commands carried by the control plane.

use vstd::prelude::*;

verus! {

/// A request carried by a download's control-plane channel.
#[derive(Debug, Clone, Copy, PartialEq, Eq, Structural)]
pub enum Command {
    Pause,
    Resume,
}

/// A progress or lifecycle notification emitted by a download task and
/// consumed by the registry's consumer loop.
///
/// `Completed` and `Error` are the terminal events: a task emits at most
/// one of them, and nothing after it.
#[derive(Debug, Clone, PartialEq, Eq)]
pub enum DownloadEvent {
    Started { id: u64 },
    ChunkReceived { id: u64, size: usize },
    Completed { id: u64 },
    Paused { id: u64 },
    Resumed { id: u64 },
    Error { id: u64, message: String },
}

impl DownloadEvent {
    /// The download this event belongs to.
    pub open spec fn spec_id(self) -> u64 {
        match self {
            DownloadEvent::Started { id } => id,
            DownloadEvent::ChunkReceived { id, .. } => id,
            DownloadEvent::Completed { id } => id,
            DownloadEvent::Paused { id } => id,
            DownloadEvent::Resumed { id } => id,
            DownloadEvent::Error { id, .. } => id,
        }
    }

    /// Executable accessor for the owning download's id.
    pub fn id(&self) -> (i: u64)
        ensures
            i == self.spec_id(),
    {
        match self {
            DownloadEvent::Started { id } => *id,
            DownloadEvent::ChunkReceived { id, .. } => *id,
            DownloadEvent::Completed { id } => *id,
            DownloadEvent::Paused { id } => *id,
            DownloadEvent::Resumed { id } => *id,
            DownloadEvent::Error { id, .. } => *id,
        }
    }

    /// True of the two events that end a download's lifecycle.
    pub open spec fn is_terminal_event(self) -> bool {
        self is Completed || self is Error
    }
}

} // verus!
