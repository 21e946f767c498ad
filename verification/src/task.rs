//! The download task: one concurrent unit per in-flight download.
//!
//! The task owns the receiving half of its control channel and a sending
//! half of the event bus. Everything the outside world does for it —
//! acquiring the content-source session, opening and writing the output
//! file, pulling stream elements, sleeping while paused — is reported
//! back through the `on_*` methods, which make every decision and emit
//! every event. A ghost history records what was handed to the bus, and
//! the invariant `wf` ties it to the emission protocol: per download,
//! `Started` comes first, pause edges alternate, chunks arrive only
//! unpaused, and at most one terminal event is ever emitted, with
//! nothing after it.

use vstd::prelude::*;

use tokio::sync::mpsc::UnboundedReceiver;
use tokio::sync::mpsc::UnboundedSender;

use crate::channel;
use crate::event::Command;
use crate::event::DownloadEvent;
use crate::state::Environment;

verus! {

/// Where a task stands between its creation and its end.
#[derive(Debug, Clone, Copy, PartialEq, Eq, Structural)]
pub enum TaskPhase {
    /// Awaiting the content-source session.
    Connecting,
    /// Session acquired; awaiting the output file.
    Opening,
    /// Output file open; awaiting the retrieval stream.
    Requesting,
    /// Consuming stream elements.
    Streaming,
    /// A terminal event went out, or the event bus is gone.
    Finished,
}

/// What a lawful emission history amounts to: whether `Started` has gone
/// out, whether the last pause edge was `Paused`, and whether a terminal
/// event has gone out.
pub struct ProtocolState {
    pub started: bool,
    pub paused: bool,
    pub done: bool,
}

/// The protocol state of an empty history.
pub open spec fn protocol_init() -> ProtocolState {
    ProtocolState { started: false, paused: false, done: false }
}

/// One emission, from a given protocol state; `None` means the protocol
/// forbids that event there. Nothing follows a terminal event; before
/// `Started` only `Started` or `Error` may go out; pause edges are
/// strictly alternating; chunks and `Completed` go out only unpaused.
pub open spec fn protocol_step(st: ProtocolState, e: DownloadEvent) -> Option<ProtocolState> {
    if st.done {
        None
    } else if !st.started {
        match e {
            DownloadEvent::Started { .. } => Some(
                ProtocolState { started: true, paused: false, done: false },
            ),
            DownloadEvent::Error { .. } => Some(ProtocolState { done: true, ..st }),
            _ => None,
        }
    } else {
        match e {
            DownloadEvent::Started { .. } => None,
            DownloadEvent::ChunkReceived { .. } => if st.paused {
                None
            } else {
                Some(st)
            },
            DownloadEvent::Paused { .. } => if st.paused {
                None
            } else {
                Some(ProtocolState { paused: true, ..st })
            },
            DownloadEvent::Resumed { .. } => if st.paused {
                Some(ProtocolState { paused: false, ..st })
            } else {
                None
            },
            DownloadEvent::Completed { .. } => if st.paused {
                None
            } else {
                Some(ProtocolState { done: true, ..st })
            },
            DownloadEvent::Error { .. } => Some(ProtocolState { done: true, ..st }),
        }
    }
}

/// The protocol state after a whole history, `None` if the history is
/// not a lawful emission sequence for the download `id`.
pub open spec fn protocol_run(h: Seq<DownloadEvent>, id: u64) -> Option<ProtocolState>
    decreases h.len(),
{
    if h.len() == 0 {
        Some(protocol_init())
    } else {
        match protocol_run(h.drop_last(), id) {
            Some(st) => if h.last().spec_id() == id {
                protocol_step(st, h.last())
            } else {
                None
            },
            None => None,
        }
    }
}

/// Appending one event steps the protocol by exactly that event.
pub proof fn lemma_protocol_run_push(h: Seq<DownloadEvent>, id: u64, e: DownloadEvent)
    requires
        e.spec_id() == id,
    ensures
        protocol_run(h.push(e), id) == (match protocol_run(h, id) {
            Some(st) => protocol_step(st, e),
            None => None::<ProtocolState>,
        }),
{
    assert(h.push(e).drop_last() =~= h);
    assert(h.push(e).last() == e);
}

/// One download task. Its fields are reachable only through the `on_*`
/// methods, which keep `wf`.
pub struct DownloadTask {
    id: u64,
    address: String,
    save_path: String,
    environment: Environment,
    phase: TaskPhase,
    paused: bool,
    bus_open: bool,
    events: UnboundedSender<DownloadEvent>,
    control: UnboundedReceiver<Command>,
    history: Ghost<Seq<DownloadEvent>>,
}

impl DownloadTask {
    /// The id of the download the task performs.
    pub closed spec fn task_id(self) -> u64 {
        self.id
    }

    /// The requested content address.
    pub closed spec fn spec_address(self) -> String {
        self.address
    }

    /// The destination file path.
    pub closed spec fn spec_save_path(self) -> String {
        self.save_path
    }

    /// The environment the session is to be acquired against.
    pub closed spec fn spec_environment(self) -> Environment {
        self.environment
    }

    /// The task's current phase.
    pub closed spec fn spec_phase(self) -> TaskPhase {
        self.phase
    }

    /// The task's local pause flag.
    pub closed spec fn spec_paused(self) -> bool {
        self.paused
    }

    /// Whether no send onto the event bus has failed yet.
    pub closed spec fn spec_bus_open(self) -> bool {
        self.bus_open
    }

    /// Everything the task has successfully handed to the event bus,
    /// in emission order.
    pub closed spec fn history(self) -> Seq<DownloadEvent> {
        self.history@
    }

    /// The fields fixed at creation.
    pub open spec fn same_download(self, other: DownloadTask) -> bool {
        &&& self.task_id() == other.task_id()
        &&& self.spec_address() == other.spec_address()
        &&& self.spec_save_path() == other.spec_save_path()
        &&& self.spec_environment() == other.spec_environment()
    }

    /// The task invariant: the history is a lawful emission sequence,
    /// and the phase, the pause flag and the bus flag agree with it.
    pub open spec fn wf(self) -> bool {
        match protocol_run(self.history(), self.task_id()) {
            Some(st) => {
                &&& (st.done ==> self.spec_phase() is Finished)
                &&& (self.spec_phase() is Finished ==> st.done || !self.spec_bus_open())
                &&& (self.spec_phase() is Connecting ==> self.history().len() == 0
                    && !self.spec_paused())
                &&& ((self.spec_phase() is Opening || self.spec_phase() is Requesting) ==> !st.done
                    && !st.paused && !self.spec_paused() && (self.spec_bus_open() ==> st.started))
                &&& (self.spec_phase() is Streaming ==> !st.done && (self.spec_bus_open()
                    ==> st.started && st.paused == self.spec_paused()))
            },
            None => false,
        }
    }

    /// Create the task for one download; the supervisor pairs it with a
    /// registry entry and the sending half of `control`.
    pub fn new(
        id: u64,
        address: String,
        environment: Environment,
        save_path: String,
        events: UnboundedSender<DownloadEvent>,
        control: UnboundedReceiver<Command>,
    ) -> (t: DownloadTask)
        ensures
            t.wf(),
            t.task_id() == id,
            t.spec_address() == address,
            t.spec_save_path() == save_path,
            t.spec_environment() == environment,
            t.spec_phase() is Connecting,
            !t.spec_paused(),
            t.history() =~= Seq::<DownloadEvent>::empty(),
    {
        DownloadTask {
            id,
            address,
            save_path,
            environment,
            phase: TaskPhase::Connecting,
            paused: false,
            bus_open: true,
            events,
            control,
            history: Ghost(Seq::empty()),
        }
    }

    /// Hand one event to the bus, recording it when the bus accepted it;
    /// after one failure the bus is treated as gone for good and nothing
    /// further is sent or recorded.
    fn emit(&mut self, e: DownloadEvent) -> (delivered: bool)
        ensures
            final(self).same_download(*old(self)),
            final(self).spec_phase() == old(self).spec_phase(),
            final(self).spec_paused() == old(self).spec_paused(),
            final(self).spec_bus_open() == (old(self).spec_bus_open() && delivered),
            delivered ==> old(self).spec_bus_open() && final(self).history() == old(self).history().push(e),
            !delivered ==> final(self).history() == old(self).history(),
    {
        if !self.bus_open {
            return false;
        }
        let ghost e0 = e;
        let delivered = channel::channel_send(&self.events, e);
        if delivered {
            self.history = Ghost(self.history@.push(e0));
        } else {
            self.bus_open = false;
        }
        delivered
    }

    /// The session-acquisition outcome: success emits `Started` and
    /// moves to `Opening`; failure emits the terminal `Error` and ends
    /// the task.
    pub fn on_session(&mut self, result: Result<(), String>)
        requires
            old(self).wf(),
            old(self).spec_phase() is Connecting,
        ensures
            final(self).wf(),
            final(self).same_download(*old(self)),
            !final(self).spec_paused(),
            result is Ok ==> final(self).spec_phase() is Opening && (final(self).history() == old(self).history().push((DownloadEvent::Started { id: old(self).task_id() })) || (final(self).history() == old(self).history() && !final(self).spec_bus_open())),
            result matches Err(m) ==> final(self).spec_phase() is Finished && (final(self).history() == old(self).history().push(
                (DownloadEvent::Error { id: old(self).task_id(), message: m }),
            ) || (final(self).history() == old(self).history() && !final(self).spec_bus_open())),
    {
        match result {
            Ok(()) => {
                let e = DownloadEvent::Started { id: self.id };
                let ghost e0 = e;
                let _ = self.emit(e);
                self.phase = TaskPhase::Opening;
                proof {
                    lemma_protocol_run_push(old(self).history(), old(self).task_id(), e0);
                }
            },
            Err(message) => {
                let e = DownloadEvent::Error { id: self.id, message };
                let ghost e0 = e;
                let _ = self.emit(e);
                self.phase = TaskPhase::Finished;
                proof {
                    lemma_protocol_run_push(old(self).history(), old(self).task_id(), e0);
                }
            },
        }
    }

    /// The outcome of opening the destination file for truncating
    /// writes: success moves on to `Requesting` and emits nothing;
    /// failure emits the terminal `Error` and ends the task.
    pub fn on_file_open(&mut self, result: Result<(), String>)
        requires
            old(self).wf(),
            old(self).spec_phase() is Opening,
        ensures
            final(self).wf(),
            final(self).same_download(*old(self)),
            !final(self).spec_paused(),
            result is Ok ==> final(self).spec_phase() is Requesting && final(self).history() == old(self).history(),
            result matches Err(m) ==> final(self).spec_phase() is Finished && (final(self).history() == old(self).history().push(
                (DownloadEvent::Error { id: old(self).task_id(), message: m }),
            ) || (final(self).history() == old(self).history() && !final(self).spec_bus_open())),
    {
        match result {
            Ok(()) => {
                self.phase = TaskPhase::Requesting;
            },
            Err(message) => {
                let e = DownloadEvent::Error { id: self.id, message };
                let ghost e0 = e;
                let _ = self.emit(e);
                self.phase = TaskPhase::Finished;
                proof {
                    lemma_protocol_run_push(old(self).history(), old(self).task_id(), e0);
                }
            },
        }
    }

    /// The outcome of requesting the retrieval stream: success moves to
    /// `Streaming` and emits nothing; failure emits the terminal `Error`
    /// and ends the task.
    pub fn on_stream_start(&mut self, result: Result<(), String>)
        requires
            old(self).wf(),
            old(self).spec_phase() is Requesting,
        ensures
            final(self).wf(),
            final(self).same_download(*old(self)),
            !final(self).spec_paused(),
            result is Ok ==> final(self).spec_phase() is Streaming && final(self).history() == old(self).history(),
            result matches Err(m) ==> final(self).spec_phase() is Finished && (final(self).history() == old(self).history().push(
                (DownloadEvent::Error { id: old(self).task_id(), message: m }),
            ) || (final(self).history() == old(self).history() && !final(self).spec_bus_open())),
    {
        match result {
            Ok(()) => {
                self.phase = TaskPhase::Streaming;
            },
            Err(message) => {
                let e = DownloadEvent::Error { id: self.id, message };
                let ghost e0 = e;
                let _ = self.emit(e);
                self.phase = TaskPhase::Finished;
                proof {
                    lemma_protocol_run_push(old(self).history(), old(self).task_id(), e0);
                }
            },
        }
    }

    /// Apply one drained control command, edge-triggered: only a command
    /// that differs from the local pause flag flips the flag and emits
    /// the matching `Paused`/`Resumed` event; a redundant command is a
    /// no-op and nothing is re-emitted.
    pub fn apply_command(&mut self, command: Command)
        requires
            old(self).wf(),
            old(self).spec_phase() is Streaming,
        ensures
            final(self).wf(),
            final(self).same_download(*old(self)),
            final(self).spec_phase() is Streaming,
            final(self).spec_paused() == (command is Pause),
            old(self).spec_paused() == (command is Pause) ==> final(self).history() == old(self).history(),
            command is Pause && !old(self).spec_paused() ==> (final(self).history() == old(self).history().push((DownloadEvent::Paused { id: old(self).task_id() })) || (final(self).history() == old(self).history() && !final(self).spec_bus_open())),
            command is Resume && old(self).spec_paused() ==> (final(self).history() == old(self).history().push((DownloadEvent::Resumed { id: old(self).task_id() })) || (final(self).history() == old(self).history() && !final(self).spec_bus_open())),
    {
        match command {
            Command::Pause => {
                if !self.paused {
                    self.paused = true;
                    let e = DownloadEvent::Paused { id: self.id };
                    let ghost e0 = e;
                    let _ = self.emit(e);
                    proof {
                        lemma_protocol_run_push(old(self).history(), old(self).task_id(), e0);
                    }
                }
            },
            Command::Resume => {
                if self.paused {
                    self.paused = false;
                    let e = DownloadEvent::Resumed { id: self.id };
                    let ghost e0 = e;
                    let _ = self.emit(e);
                    proof {
                        lemma_protocol_run_push(old(self).history(), old(self).task_id(), e0);
                    }
                }
            },
        }
    }

    /// Drain queued control commands in order, applying each
    /// edge-triggered, up to `budget` of them; the result says whether
    /// the queue was seen empty before the budget ran out.
    pub fn poll_control(&mut self, budget: usize) -> (drained: bool)
        requires
            old(self).wf(),
            old(self).spec_phase() is Streaming,
        ensures
            final(self).wf(),
            final(self).same_download(*old(self)),
            final(self).spec_phase() is Streaming,
    {
        let mut k: usize = 0;
        while k < budget
            invariant
                self.wf(),
                self.spec_phase() is Streaming,
                self.same_download(*old(self)),
            decreases budget - k,
        {
            match channel::channel_try_recv(&mut self.control) {
                Some(command) => {
                    self.apply_command(command);
                },
                None => {
                    return true;
                },
            }
            k = k + 1;
        }
        false
    }

    /// One chunk was received and appended to the file: emit
    /// `ChunkReceived`. If the bus is gone the task stops silently, with
    /// no terminal event, and the result says to stop consuming.
    pub fn on_chunk(&mut self, size: usize) -> (streaming: bool)
        requires
            old(self).wf(),
            old(self).spec_phase() is Streaming,
            !old(self).spec_paused(),
        ensures
            final(self).wf(),
            final(self).same_download(*old(self)),
            !final(self).spec_paused(),
            streaming ==> final(self).spec_phase() is Streaming && final(self).history() == old(self).history().push((DownloadEvent::ChunkReceived { id: old(self).task_id(), size })),
            !streaming ==> final(self).spec_phase() is Finished && final(self).history() == old(self).history() && !final(self).spec_bus_open(),
    {
        let e = DownloadEvent::ChunkReceived { id: self.id, size };
        let ghost e0 = e;
        let delivered = self.emit(e);
        proof {
            lemma_protocol_run_push(old(self).history(), old(self).task_id(), e0);
        }
        if delivered {
            true
        } else {
            self.phase = TaskPhase::Finished;
            false
        }
    }

    /// A stream element reported failure, or a write to the file failed:
    /// emit the terminal `Error` and end the task; what was already
    /// written stays on disk.
    pub fn on_stream_failure(&mut self, message: String)
        requires
            old(self).wf(),
            old(self).spec_phase() is Streaming,
            !old(self).spec_paused(),
        ensures
            final(self).wf(),
            final(self).same_download(*old(self)),
            final(self).spec_phase() is Finished,
            final(self).history() == old(self).history().push(
                (DownloadEvent::Error { id: old(self).task_id(), message }),
            ) || (final(self).history() == old(self).history() && !final(self).spec_bus_open()),
    {
        let e = DownloadEvent::Error { id: self.id, message };
        let ghost e0 = e;
        let _ = self.emit(e);
        self.phase = TaskPhase::Finished;
        proof {
            lemma_protocol_run_push(old(self).history(), old(self).task_id(), e0);
        }
    }

    /// The stream is exhausted and the file was flushed: a successful
    /// flush emits the terminal `Completed`, a failed one the terminal
    /// `Error`; either way the task ends.
    pub fn on_stream_end(&mut self, flush_result: Result<(), String>)
        requires
            old(self).wf(),
            old(self).spec_phase() is Streaming,
            !old(self).spec_paused(),
        ensures
            final(self).wf(),
            final(self).same_download(*old(self)),
            final(self).spec_phase() is Finished,
            flush_result is Ok ==> (final(self).history() == old(self).history().push(
                (DownloadEvent::Completed { id: old(self).task_id() }),
            ) || (final(self).history() == old(self).history() && !final(self).spec_bus_open())),
            flush_result matches Err(m) ==> (final(self).history() == old(self).history().push(
                (DownloadEvent::Error { id: old(self).task_id(), message: m }),
            ) || (final(self).history() == old(self).history() && !final(self).spec_bus_open())),
    {
        match flush_result {
            Ok(()) => {
                let e = DownloadEvent::Completed { id: self.id };
                let ghost e0 = e;
                let _ = self.emit(e);
                self.phase = TaskPhase::Finished;
                proof {
                    lemma_protocol_run_push(old(self).history(), old(self).task_id(), e0);
                }
            },
            Err(message) => {
                let e = DownloadEvent::Error { id: self.id, message };
                let ghost e0 = e;
                let _ = self.emit(e);
                self.phase = TaskPhase::Finished;
                proof {
                    lemma_protocol_run_push(old(self).history(), old(self).task_id(), e0);
                }
            },
        }
    }

    /// The id of the download the task performs.
    pub fn id(&self) -> (i: u64)
        ensures
            i == self.task_id(),
    {
        self.id
    }

    /// The requested content address, for the retrieval request.
    pub fn address(&self) -> (a: &String)
        ensures
            *a == self.spec_address(),
    {
        &self.address
    }

    /// The destination file path, for opening the output file.
    pub fn save_path(&self) -> (p: &String)
        ensures
            *p == self.spec_save_path(),
    {
        &self.save_path
    }

    /// The environment to acquire the session against.
    pub fn environment(&self) -> (e: Environment)
        ensures
            e == self.spec_environment(),
    {
        self.environment
    }

    /// Whether the local pause flag is set; while it is, no chunk may be
    /// consumed.
    pub fn is_paused(&self) -> (b: bool)
        ensures
            b == self.spec_paused(),
    {
        self.paused
    }

    /// Whether the task has ended.
    pub fn is_finished(&self) -> (b: bool)
        ensures
            b == (self.spec_phase() is Finished),
    {
        match self.phase {
            TaskPhase::Finished => true,
            _ => false,
        }
    }
}

} // verus!
