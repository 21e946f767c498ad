//! The system-wide guarantees, stated over the models and proved once
//! and for all: every observed state path follows the transition graph,
//! counters are monotone and account exactly for the delivered chunks,
//! events of one download never touch another, and a lawful emission
//! history carries at most one terminal event, as its last element.

use vstd::prelude::*;

use crate::event::DownloadEvent;
use crate::item::DownloadItem;
use crate::task::protocol_run;
use crate::task::DownloadTask;
use crate::task::ProtocolState;

verus! {

/// The item after a whole event sequence is applied to it in order.
pub open spec fn run_item(item: DownloadItem, es: Seq<DownloadEvent>) -> DownloadItem
    decreases es.len(),
{
    if es.len() == 0 {
        item
    } else {
        run_item(item, es.drop_last()).spec_apply(es.last())
    }
}

/// The sum of the chunk sizes delivered for `id` in `es`.
pub open spec fn chunk_total(es: Seq<DownloadEvent>, id: u64) -> int
    decreases es.len(),
{
    if es.len() == 0 {
        0
    } else {
        chunk_total(es.drop_last(), id) + (match es.last() {
            DownloadEvent::ChunkReceived { id: i, size } => if i == id {
                size as int
            } else {
                0
            },
            _ => 0,
        })
    }
}

/// How many chunk events were delivered for `id` in `es`.
pub open spec fn chunk_count(es: Seq<DownloadEvent>, id: u64) -> int
    decreases es.len(),
{
    if es.len() == 0 {
        0
    } else {
        chunk_count(es.drop_last(), id) + (match es.last() {
            DownloadEvent::ChunkReceived { id: i, .. } => if i == id {
                1int
            } else {
                0
            },
            _ => 0,
        })
    }
}

/// Chunk totals and counts are never negative.
pub proof fn lemma_chunk_totals_nonneg(es: Seq<DownloadEvent>, id: u64)
    ensures
        chunk_total(es, id) >= 0,
        chunk_count(es, id) >= 0,
    decreases es.len(),
{
    if es.len() > 0 {
        lemma_chunk_totals_nonneg(es.drop_last(), id);
    }
}

/// Every observed state path follows the transition graph: under any
/// event sequence whatsoever, each step either leaves the item's state
/// where it was or moves it along one edge of the graph, and after a
/// terminal state nothing is ever applied again.
pub proof fn lemma_transitions_follow_graph(item: DownloadItem, es: Seq<DownloadEvent>, k: int)
    requires
        0 <= k < es.len(),
    ensures
        ({
            let before = run_item(item, es.subrange(0, k));
            let after = run_item(item, es.subrange(0, k + 1));
            &&& (after.state == before.state || before.state.step_allowed(after.state))
            &&& (before.state.is_terminal() ==> after == before)
        }),
{
    assert(es.subrange(0, k + 1).drop_last() =~= es.subrange(0, k));
    assert(es.subrange(0, k + 1).last() == es[k]);
}

/// Both counters are monotonically non-decreasing along any event
/// sequence whatsoever.
pub proof fn lemma_counters_monotone(item: DownloadItem, es: Seq<DownloadEvent>, k: int)
    requires
        0 <= k < es.len(),
    ensures
        run_item(item, es.subrange(0, k + 1)).bytes_received >= run_item(
            item,
            es.subrange(0, k),
        ).bytes_received,
        run_item(item, es.subrange(0, k + 1)).chunks_received >= run_item(
            item,
            es.subrange(0, k),
        ).chunks_received,
{
    assert(es.subrange(0, k + 1).drop_last() =~= es.subrange(0, k));
    assert(es.subrange(0, k + 1).last() == es[k]);
}

/// An event for one download never changes an item of another: fault
/// and progress are isolated per id.
pub proof fn lemma_other_id_isolated(item: DownloadItem, e: DownloadEvent)
    requires
        e.spec_id() != item.id,
    ensures
        item.spec_apply(e) == item,
{
}

/// What a lawful protocol state says about the item it has driven the
/// registry to.
pub open spec fn corresponds(st: ProtocolState, item: DownloadItem) -> bool {
    &&& (!st.started && !st.done ==> item.state is Waiting)
    &&& (st.started && !st.paused && !st.done ==> item.state is Downloading)
    &&& (st.started && st.paused && !st.done ==> item.state is Paused)
    &&& (st.done ==> item.state.is_terminal())
}

/// Under a lawful emission history that fits the counters, every event
/// lands: at each point — in particular at the terminal event —
/// `bytes_received` equals the sum of the delivered chunk sizes and
/// `chunks_received` their number, and the item's state tracks the
/// protocol state.
pub proof fn lemma_counters_match_history(item: DownloadItem, es: Seq<DownloadEvent>)
    requires
        item.is_fresh(),
        protocol_run(es, item.id) is Some,
        chunk_total(es, item.id) <= usize::MAX,
        chunk_count(es, item.id) <= usize::MAX,
    ensures
        run_item(item, es).bytes_received == chunk_total(es, item.id),
        run_item(item, es).chunks_received == chunk_count(es, item.id),
        run_item(item, es).id == item.id,
        corresponds(protocol_run(es, item.id).unwrap(), run_item(item, es)),
    decreases es.len(),
{
    if es.len() > 0 {
        let pre = es.drop_last();
        let e = es.last();
        lemma_chunk_totals_nonneg(pre, item.id);
        lemma_counters_match_history(item, pre);
    }
}

/// End to end: fold the emission history of a task that ended with the
/// bus still reachable into its fresh registry item, and the item lands
/// in a terminal state with `bytes_received` equal to the sum of the
/// delivered chunk sizes and `chunks_received` to their number.
pub proof fn lemma_finished_task_accounts_exactly(task: DownloadTask, item: DownloadItem)
    requires
        task.wf(),
        task.spec_phase() is Finished,
        task.spec_bus_open(),
        item.is_fresh(),
        item.id == task.task_id(),
        chunk_total(task.history(), item.id) <= usize::MAX,
        chunk_count(task.history(), item.id) <= usize::MAX,
    ensures
        run_item(item, task.history()).state.is_terminal(),
        run_item(item, task.history()).bytes_received == chunk_total(task.history(), item.id),
        run_item(item, task.history()).chunks_received == chunk_count(task.history(), item.id),
{
    lemma_counters_match_history(item, task.history());
}

/// A terminal event can only stand last in a lawful history: nothing is
/// emitted for a download after its `Completed` or `Error`.
pub proof fn lemma_terminal_is_last(h: Seq<DownloadEvent>, id: u64, k: int)
    requires
        protocol_run(h, id) is Some,
        0 <= k < h.len(),
        h[k].is_terminal_event(),
    ensures
        k == h.len() - 1,
        protocol_run(h, id).unwrap().done,
    decreases h.len(),
{
    let pre = h.drop_last();
    if k < h.len() - 1 {
        assert(pre[k] == h[k]);
        lemma_terminal_is_last(pre, id, k);
        assert(false);
    }
}

/// Once a lawful history is done, its last event is the one terminal
/// event: a task that ends with the bus still reachable has emitted
/// exactly one `Completed` or `Error`, at the very end.
pub proof fn lemma_done_ends_with_terminal(h: Seq<DownloadEvent>, id: u64)
    requires
        protocol_run(h, id) is Some,
        protocol_run(h, id).unwrap().done,
    ensures
        h.len() > 0,
        h.last().is_terminal_event(),
{
}

} // verus!
