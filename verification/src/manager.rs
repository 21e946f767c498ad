//! The single-owner hub of the system: the supervisor that accepts start
//! requests and spawns task state, the consumer loop that drains the
//! event bus into the registry, and the request side of the control
//! plane. All cross-task communication goes through the event bus and
//! the control channels; the registry is touched only here.

use vstd::prelude::*;

use tokio::sync::mpsc::UnboundedReceiver;
use tokio::sync::mpsc::UnboundedSender;

use crate::channel;
use crate::control::ControlPlane;
use crate::event::Command;
use crate::event::DownloadEvent;
use crate::item::DownloadItem;
use crate::registry::contains_id;
use crate::registry::Registry;
use crate::state::Environment;
use crate::task::DownloadTask;

verus! {

/// The download manager: registry, control plane, the consumer's half of
/// the event bus, a monotonic id counter, and the connecting flag that
/// drives the redraw request.
pub struct DownloadManager {
    registry: Registry,
    control: ControlPlane,
    event_tx: UnboundedSender<DownloadEvent>,
    event_rx: UnboundedReceiver<DownloadEvent>,
    next_id: u64,
    is_connecting: bool,
}

impl DownloadManager {
    /// The table of downloads.
    pub closed spec fn spec_registry(self) -> Registry {
        self.registry
    }

    /// The control-plane table.
    pub closed spec fn control_plane(self) -> ControlPlane {
        self.control
    }

    /// The next id the supervisor will assign.
    pub closed spec fn spec_next_id(self) -> u64 {
        self.next_id
    }

    /// Whether a session acquisition is outstanding.
    pub closed spec fn spec_connecting(self) -> bool {
        self.is_connecting
    }

    /// Both tables are well-formed and every id ever assigned is below
    /// the counter, so fresh ids never collide.
    pub open spec fn wf(self) -> bool {
        &&& self.spec_registry().wf()
        &&& self.control_plane().wf()
        &&& forall|i: int|
            0 <= i < self.spec_registry()@.len() ==> self.spec_registry()@[i].id
                < self.spec_next_id()
        &&& forall|x: u64| self.control_plane().has_entry(x) ==> x < self.spec_next_id()
    }

    /// A fresh manager with an empty registry, no control entries, and a
    /// newly connected event bus.
    pub fn new() -> (m: DownloadManager)
        ensures
            m.wf(),
            m.spec_registry()@ =~= Seq::<DownloadItem>::empty(),
            forall|x: u64| !m.control_plane().has_entry(x),
            !m.spec_connecting(),
            m.spec_next_id() == 0,
    {
        let (tx, rx) = channel::unbounded_pair();
        DownloadManager {
            registry: Registry::new(),
            control: ControlPlane::new(),
            event_tx: tx,
            event_rx: rx,
            next_id: 0,
            is_connecting: false,
        }
    }

    /// Accept a start request: for a non-empty address, create the item
    /// in `Waiting` under a fresh id, register its control channel, and
    /// hand back the task for the caller to drive against the outside
    /// world. An empty address is rejected with `None`, as is an
    /// exhausted id space.
    pub fn start_download(
        &mut self,
        address: String,
        environment: Environment,
        save_path: String,
        created_at: u64,
    ) -> (r: Option<DownloadTask>)
        requires
            old(self).wf(),
        ensures
            final(self).wf(),
            (r is Some) == (address@.len() > 0 && old(self).spec_next_id() < u64::MAX),
            r is None ==> *final(self) == *old(self),
            r matches Some(t) ==> ({
                &&& t.wf()
                &&& t.task_id() == old(self).spec_next_id()
                &&& t.spec_phase() is Connecting
                &&& !t.spec_paused()
                &&& t.history() =~= Seq::<DownloadEvent>::empty()
                &&& t.spec_address() == address
                &&& t.spec_save_path() == save_path
                &&& t.spec_environment() == environment
                &&& final(self).spec_next_id() == old(self).spec_next_id() + 1
                &&& final(self).spec_registry()@ == old(self).spec_registry()@.push(
                    (DownloadItem {
                        id: t.task_id(),
                        address: address,
                        save_path: save_path,
                        state: crate::state::DownloadState::Waiting,
                        bytes_received: 0,
                        chunks_received: 0,
                        created_at: created_at,
                    }),
                )
                &&& forall|x: u64|
                    final(self).control_plane().has_entry(x) == (old(
                        self,
                    ).control_plane().has_entry(x) || x == t.task_id())
                &&& final(self).spec_connecting()
            }),
    {
        if address.as_str().is_empty() {
            return None;
        }
        if self.next_id == u64::MAX {
            return None;
        }
        let id = self.next_id;
        self.next_id = id + 1;
        let item = DownloadItem::new(id, address.clone(), save_path.clone(), created_at);
        proof {
            assert(!contains_id(self.spec_registry()@, id));
        }
        self.registry.insert(item);
        let (control_tx, control_rx) = channel::unbounded_pair();
        self.control.register(id, control_tx);
        let task_tx = channel::clone_sender(&self.event_tx);
        let task = DownloadTask::new(id, address, environment, save_path, task_tx, control_rx);
        self.is_connecting = true;
        Some(task)
    }

    /// The consumer-loop body for one event: apply it to the registry,
    /// clear the connecting flag on `Started` or `Error`, and drop the
    /// control entry of a download that just reached a terminal state.
    pub fn handle_event(&mut self, e: &DownloadEvent)
        requires
            old(self).wf(),
        ensures
            final(self).wf(),
            final(self).spec_registry()@.len() == old(self).spec_registry()@.len(),
            forall|i: int|
                0 <= i < old(self).spec_registry()@.len() ==> final(self).spec_registry()@[i]
                    == old(self).spec_registry()@[i].spec_apply(*e),
            forall|x: u64|
                final(self).control_plane().has_entry(x) == (old(self).control_plane().has_entry(x)
                    && !(e.is_terminal_event() && x == e.spec_id())),
            final(self).spec_connecting() == (old(self).spec_connecting() && !(e is Started
                || e is Error)),
            final(self).spec_next_id() == old(self).spec_next_id(),
    {
        self.registry.apply_event(e);
        match e {
            DownloadEvent::Started { .. } => {
                self.is_connecting = false;
            },
            DownloadEvent::Completed { id } => {
                self.control.remove(*id);
            },
            DownloadEvent::Error { id, .. } => {
                self.control.remove(*id);
                self.is_connecting = false;
            },
            _ => {},
        }
        proof {
            assert forall|i: int|
                0 <= i < old(self).spec_registry()@.len() implies old(
                self,
            ).spec_registry()@[i].spec_apply(*e).id == old(self).spec_registry()@[i].id by {}
        }
    }

    /// How one registry entry may evolve across a consumer-loop run:
    /// the identity fields are untouched, the counters never decrease,
    /// the state moves only along paths of the transition graph, and a
    /// terminal entry stays exactly as it was.
    pub open spec fn entry_evolves(pre: DownloadItem, post: DownloadItem) -> bool {
        &&& post.id == pre.id
        &&& post.address == pre.address
        &&& post.save_path == pre.save_path
        &&& post.created_at == pre.created_at
        &&& post.bytes_received >= pre.bytes_received
        &&& post.chunks_received >= pre.chunks_received
        &&& pre.state.reachable(post.state)
        &&& (pre.state.is_terminal() ==> post == pre)
    }

    /// One event application evolves an entry as `entry_evolves` allows.
    proof fn lemma_apply_evolves(pre: DownloadItem, e: DownloadEvent)
        ensures
            Self::entry_evolves(pre, pre.spec_apply(e)),
    {
        let post = pre.spec_apply(e);
        if pre.state.step_allowed(post.state) {
            pre.state.lemma_step_reachable(post.state);
        }
    }

    /// `entry_evolves` composes across successive applications.
    proof fn lemma_evolves_trans(a: DownloadItem, b: DownloadItem, c: DownloadItem)
        requires
            Self::entry_evolves(a, b),
            Self::entry_evolves(b, c),
        ensures
            Self::entry_evolves(a, c),
    {
        a.state.lemma_reachable_trans(b.state, c.state);
    }

    /// Drain queued events non-blocking and apply each in arrival order,
    /// up to `budget` of them; the consumer loop runs this once per
    /// redraw tick. The result says whether the queue was seen empty
    /// before the budget ran out. Whatever arrived, every entry evolves
    /// only as `entry_evolves` allows.
    pub fn process_events(&mut self, budget: usize) -> (drained: bool)
        requires
            old(self).wf(),
        ensures
            final(self).wf(),
            final(self).spec_registry()@.len() == old(self).spec_registry()@.len(),
            forall|i: int|
                0 <= i < old(self).spec_registry()@.len() ==> Self::entry_evolves(
                    old(self).spec_registry()@[i],
                    final(self).spec_registry()@[i],
                ),
            final(self).spec_next_id() == old(self).spec_next_id(),
    {
        let mut k: usize = 0;
        while k < budget
            invariant
                self.wf(),
                self.spec_registry()@.len() == old(self).spec_registry()@.len(),
                forall|i: int|
                    0 <= i < old(self).spec_registry()@.len() ==> Self::entry_evolves(
                        old(self).spec_registry()@[i],
                        self.spec_registry()@[i],
                    ),
                self.spec_next_id() == old(self).spec_next_id(),
            decreases budget - k,
        {
            match channel::channel_try_recv(&mut self.event_rx) {
                Some(e) => {
                    let ghost mid = self.spec_registry()@;
                    self.handle_event(&e);
                    proof {
                        assert forall|i: int|
                            0 <= i < old(self).spec_registry()@.len() implies Self::entry_evolves(
                            old(self).spec_registry()@[i],
                            self.spec_registry()@[i],
                        ) by {
                            Self::lemma_apply_evolves(mid[i], e);
                            Self::lemma_evolves_trans(
                                old(self).spec_registry()@[i],
                                mid[i],
                                self.spec_registry()@[i],
                            );
                        }
                    }
                },
                None => {
                    return true;
                },
            }
            k = k + 1;
        }
        false
    }

    /// Ask the download to pause; a request against an id without a
    /// control entry (unknown, or already terminal) is silently ignored.
    pub fn pause_download(&self, id: u64) -> (found: bool)
        ensures
            found == self.control_plane().has_entry(id),
    {
        self.control.send(id, Command::Pause)
    }

    /// Ask the download to resume; a request against an id without a
    /// control entry is silently ignored.
    pub fn resume_download(&self, id: u64) -> (found: bool)
        ensures
            found == self.control_plane().has_entry(id),
    {
        self.control.send(id, Command::Resume)
    }

    /// Whether the caller should keep redrawing continuously: a session
    /// acquisition is outstanding or some download is receiving data.
    pub fn needs_repaint(&self) -> (b: bool)
        ensures
            b == (self.spec_connecting() || exists|i: int|
                0 <= i < self.spec_registry()@.len() && self.spec_registry()@[i].state
                    is Downloading),
    {
        self.is_connecting || self.registry.any_downloading()
    }

    /// Read access to the table of downloads.
    pub fn registry(&self) -> (r: &Registry)
        ensures
            *r == self.spec_registry(),
    {
        &self.registry
    }

    /// Whether a session acquisition is outstanding.
    pub fn connecting(&self) -> (b: bool)
        ensures
            b == self.spec_connecting(),
    {
        self.is_connecting
    }
}

} // verus!
