//! Observations on the raw event protocol and on single registry items:
//! edge-triggered pause commands, the transition graph, terminal
//! freezing, and monotone counters.

use ant_download::event::Command;
use ant_download::event::DownloadEvent;
use ant_download::item::DownloadItem;
use ant_download::state::DownloadState;
use ant_download::state::Environment;
use ant_download::task::DownloadTask;

fn raw_task(
    id: u64,
) -> (
    DownloadTask,
    tokio::sync::mpsc::UnboundedSender<Command>,
    tokio::sync::mpsc::UnboundedReceiver<DownloadEvent>,
) {
    let (events_tx, events_rx) = tokio::sync::mpsc::unbounded_channel();
    let (control_tx, control_rx) = tokio::sync::mpsc::unbounded_channel();
    let task = DownloadTask::new(
        id,
        "address".to_string(),
        Environment::Alpha,
        "/downloads/address".to_string(),
        events_tx,
        control_rx,
    );
    (task, control_tx, events_rx)
}

#[test]
fn redundant_commands_emit_no_edge_events() {
    let (mut task, control_tx, mut events_rx) = raw_task(7);
    task.on_session(Ok(()));
    task.on_file_open(Ok(()));
    task.on_stream_start(Ok(()));

    // A pause, then a redundant pause: only one `Paused` goes out.
    control_tx.send(Command::Pause).unwrap();
    control_tx.send(Command::Pause).unwrap();
    assert!(task.poll_control(16));
    assert!(task.is_paused());

    // A resume, then a redundant resume: only one `Resumed` goes out.
    control_tx.send(Command::Resume).unwrap();
    control_tx.send(Command::Resume).unwrap();
    assert!(task.poll_control(16));
    assert!(!task.is_paused());

    let mut events = Vec::new();
    while let Ok(e) = events_rx.try_recv() {
        events.push(e);
    }
    assert_eq!(events.len(), 3);
    assert!(matches!(events[0], DownloadEvent::Started { id: 7 }));
    assert!(matches!(events[1], DownloadEvent::Paused { id: 7 }));
    assert!(matches!(events[2], DownloadEvent::Resumed { id: 7 }));
}

#[test]
fn emitted_events_arrive_in_emission_order() {
    let (mut task, _control_tx, mut events_rx) = raw_task(3);
    task.on_session(Ok(()));
    task.on_file_open(Ok(()));
    task.on_stream_start(Ok(()));
    assert!(task.on_chunk(10));
    assert!(task.on_chunk(20));
    task.on_stream_end(Ok(()));

    let mut events = Vec::new();
    while let Ok(e) = events_rx.try_recv() {
        assert_eq!(e.id(), 3);
        events.push(e);
    }
    assert_eq!(events.len(), 4);
    assert!(matches!(events[0], DownloadEvent::Started { id: 3 }));
    assert!(matches!(events[1], DownloadEvent::ChunkReceived { id: 3, size: 10 }));
    assert!(matches!(events[2], DownloadEvent::ChunkReceived { id: 3, size: 20 }));
    assert!(matches!(events[3], DownloadEvent::Completed { id: 3 }));
}

#[test]
fn item_follows_transition_graph() {
    let mut item = DownloadItem::new(1, "a".to_string(), "p".to_string(), 0);
    assert!(matches!(item.state, DownloadState::Waiting));
    item.apply_event(&DownloadEvent::Started { id: 1 });
    assert!(matches!(item.state, DownloadState::Downloading));
    item.apply_event(&DownloadEvent::Paused { id: 1 });
    assert!(matches!(item.state, DownloadState::Paused));
    item.apply_event(&DownloadEvent::Resumed { id: 1 });
    assert!(matches!(item.state, DownloadState::Downloading));
    item.apply_event(&DownloadEvent::Completed { id: 1 });
    assert!(matches!(item.state, DownloadState::Completed));
}

#[test]
fn nothing_applies_after_a_terminal_state() {
    let mut item = DownloadItem::new(1, "a".to_string(), "p".to_string(), 0);
    item.apply_event(&DownloadEvent::Started { id: 1 });
    item.apply_event(&DownloadEvent::Error { id: 1, message: "boom".to_string() });
    assert!(matches!(item.state, DownloadState::Error(ref m) if m == "boom"));

    item.apply_event(&DownloadEvent::Started { id: 1 });
    item.apply_event(&DownloadEvent::ChunkReceived { id: 1, size: 100 });
    item.apply_event(&DownloadEvent::Completed { id: 1 });
    assert!(matches!(item.state, DownloadState::Error(ref m) if m == "boom"));
    assert_eq!(item.bytes_received, 0);
    assert_eq!(item.chunks_received, 0);
}

#[test]
fn counters_never_decrease() {
    let mut item = DownloadItem::new(2, "a".to_string(), "p".to_string(), 0);
    item.apply_event(&DownloadEvent::Started { id: 2 });
    let mut last_bytes = 0;
    let mut last_chunks = 0;
    let events = [
        DownloadEvent::ChunkReceived { id: 2, size: 5 },
        DownloadEvent::Paused { id: 2 },
        DownloadEvent::Resumed { id: 2 },
        DownloadEvent::ChunkReceived { id: 2, size: 7 },
        DownloadEvent::Completed { id: 2 },
    ];
    for e in events {
        item.apply_event(&e);
        assert!(item.bytes_received >= last_bytes);
        assert!(item.chunks_received >= last_chunks);
        last_bytes = item.bytes_received;
        last_chunks = item.chunks_received;
    }
    assert_eq!(item.bytes_received, 12);
    assert_eq!(item.chunks_received, 2);
}

#[test]
fn events_for_another_id_are_ignored() {
    let mut item = DownloadItem::new(4, "a".to_string(), "p".to_string(), 0);
    item.apply_event(&DownloadEvent::Started { id: 5 });
    assert!(matches!(item.state, DownloadState::Waiting));
    item.apply_event(&DownloadEvent::ChunkReceived { id: 5, size: 9 });
    assert_eq!(item.bytes_received, 0);
}

#[test]
fn task_exposes_its_request() {
    let (task, _control_tx, _events_rx) = raw_task(11);
    assert_eq!(task.id(), 11);
    assert_eq!(task.address(), "address");
    assert_eq!(task.save_path(), "/downloads/address");
    assert_eq!(task.environment(), Environment::Alpha);
    assert!(!task.is_paused());
    assert!(!task.is_finished());
}
