//! End-to-end scenarios: a manager accepts start requests, tasks are
//! driven against a simulated content source, and the consumer loop
//! folds the emitted events into the registry.

use ant_download::event::DownloadEvent;
use ant_download::manager::DownloadManager;
use ant_download::state::DownloadState;
use ant_download::state::Environment;
use ant_download::task::DownloadTask;

fn start(mgr: &mut DownloadManager, address: &str, created_at: u64) -> DownloadTask {
    mgr.start_download(
        address.to_string(),
        Environment::Mainnet,
        format!("/downloads/{address}"),
        created_at,
    )
    .expect("start request should be accepted")
}

#[test]
fn completed_download_counts_all_chunks() {
    let mut mgr = DownloadManager::new();
    let mut task = start(&mut mgr, "alpha", 1);
    let id = task.id();

    task.on_session(Ok(()));
    task.on_file_open(Ok(()));
    task.on_stream_start(Ok(()));

    let mut file: Vec<u8> = Vec::new();
    for size in [10usize, 20, 30] {
        assert!(task.poll_control(16));
        assert!(!task.is_paused());
        file.extend(vec![0u8; size]);
        assert!(task.on_chunk(size));
    }
    task.on_stream_end(Ok(()));
    assert!(task.is_finished());

    assert!(mgr.process_events(64));
    let item = mgr.registry().get(id).expect("item must exist");
    assert!(matches!(item.state, DownloadState::Completed));
    assert_eq!(item.chunks_received, 3);
    assert_eq!(item.bytes_received, 60);
    assert_eq!(file.len(), 60);
    assert!(!mgr.needs_repaint());
}

#[test]
fn stream_failure_is_terminal_and_keeps_partial_output() {
    let mut mgr = DownloadManager::new();
    let mut task = start(&mut mgr, "beta", 1);
    let id = task.id();

    task.on_session(Ok(()));
    task.on_file_open(Ok(()));
    task.on_stream_start(Ok(()));

    let mut file: Vec<u8> = Vec::new();
    task.poll_control(16);
    file.extend(vec![0u8; 15]);
    assert!(task.on_chunk(15));
    task.poll_control(16);
    task.on_stream_failure("connection reset".to_string());
    assert!(task.is_finished());

    mgr.process_events(64);
    let item = mgr.registry().get(id).expect("item must exist");
    assert!(matches!(item.state, DownloadState::Error(ref m) if m == "connection reset"));
    assert_eq!(item.bytes_received, 15);
    assert_eq!(item.chunks_received, 1);
    assert_eq!(file.len(), 15);
}

#[test]
fn pause_freezes_counters_until_resume() {
    let mut mgr = DownloadManager::new();
    let mut task = start(&mut mgr, "gamma", 1);
    let id = task.id();

    task.on_session(Ok(()));
    task.on_file_open(Ok(()));
    task.on_stream_start(Ok(()));
    task.poll_control(16);
    assert!(task.on_chunk(10));
    mgr.process_events(64);

    assert!(mgr.pause_download(id));
    task.poll_control(16);
    assert!(task.is_paused());
    mgr.process_events(64);

    let item = mgr.registry().get(id).expect("item must exist");
    assert!(matches!(item.state, DownloadState::Paused));
    assert_eq!(item.chunks_received, 1);
    assert_eq!(item.bytes_received, 10);

    // No further command arrives: the task stays paused and consumes
    // nothing, so the counters stay fixed.
    task.poll_control(16);
    assert!(task.is_paused());
    mgr.process_events(64);
    let item = mgr.registry().get(id).expect("item must exist");
    assert_eq!(item.chunks_received, 1);
    assert_eq!(item.bytes_received, 10);

    // A resume lets consumption continue.
    assert!(mgr.resume_download(id));
    task.poll_control(16);
    assert!(!task.is_paused());
    assert!(task.on_chunk(5));
    mgr.process_events(64);
    let item = mgr.registry().get(id).expect("item must exist");
    assert!(matches!(item.state, DownloadState::Downloading));
    assert_eq!(item.bytes_received, 15);
}

#[test]
fn failures_are_isolated_between_downloads() {
    let mut mgr = DownloadManager::new();
    let mut first = start(&mut mgr, "keeps-going", 1);
    let mut second = start(&mut mgr, "fails-fast", 2);
    let first_id = first.id();
    let second_id = second.id();
    assert_ne!(first_id, second_id);

    // The second download's source fails immediately; the first
    // proceeds, interleaved with it.
    first.on_session(Ok(()));
    second.on_session(Err("no route to host".to_string()));
    assert!(second.is_finished());
    first.on_file_open(Ok(()));
    first.on_stream_start(Ok(()));
    mgr.process_events(64);
    for size in [10usize, 20, 30] {
        first.poll_control(16);
        assert!(first.on_chunk(size));
    }
    first.on_stream_end(Ok(()));
    mgr.process_events(64);

    let item = mgr.registry().get(first_id).expect("first item must exist");
    assert!(matches!(item.state, DownloadState::Completed));
    assert_eq!(item.bytes_received, 60);
    assert_eq!(item.chunks_received, 3);

    let item = mgr.registry().get(second_id).expect("second item must exist");
    assert!(matches!(item.state, DownloadState::Error(ref m) if m == "no route to host"));
    assert_eq!(item.bytes_received, 0);
    assert_eq!(item.chunks_received, 0);

    // Both downloads are terminal, so both control entries are gone.
    assert!(!mgr.pause_download(first_id));
    assert!(!mgr.resume_download(second_id));
}

#[test]
fn session_failure_reports_connection_error() {
    let mut mgr = DownloadManager::new();
    let mut task = start(&mut mgr, "nowhere", 1);
    let id = task.id();
    task.on_session(Err("failed to reach network".to_string()));
    assert!(task.is_finished());
    mgr.process_events(64);
    let item = mgr.registry().get(id).expect("item must exist");
    assert!(matches!(item.state, DownloadState::Error(ref m) if m == "failed to reach network"));
    assert!(!mgr.needs_repaint());
}

#[test]
fn file_open_failure_reports_io_error() {
    let mut mgr = DownloadManager::new();
    let mut task = start(&mut mgr, "readonly", 1);
    let id = task.id();
    task.on_session(Ok(()));
    task.on_file_open(Err("failed to create save file: permission denied".to_string()));
    assert!(task.is_finished());
    mgr.process_events(64);
    let item = mgr.registry().get(id).expect("item must exist");
    assert!(
        matches!(item.state, DownloadState::Error(ref m) if m.contains("permission denied"))
    );
}

#[test]
fn flush_failure_reports_io_error() {
    let mut mgr = DownloadManager::new();
    let mut task = start(&mut mgr, "full-disk", 1);
    let id = task.id();
    task.on_session(Ok(()));
    task.on_file_open(Ok(()));
    task.on_stream_start(Ok(()));
    task.poll_control(16);
    assert!(task.on_chunk(8));
    task.on_stream_end(Err("failed to flush file: no space left".to_string()));
    assert!(task.is_finished());
    mgr.process_events(64);
    let item = mgr.registry().get(id).expect("item must exist");
    assert!(matches!(item.state, DownloadState::Error(ref m) if m.contains("no space left")));
    assert_eq!(item.bytes_received, 8);
}

#[test]
fn stream_request_failure_is_terminal() {
    let mut mgr = DownloadManager::new();
    let mut task = start(&mut mgr, "bad-address", 1);
    let id = task.id();
    task.on_session(Ok(()));
    task.on_file_open(Ok(()));
    task.on_stream_start(Err("address not found".to_string()));
    assert!(task.is_finished());
    mgr.process_events(64);
    let item = mgr.registry().get(id).expect("item must exist");
    assert!(matches!(item.state, DownloadState::Error(ref m) if m == "address not found"));
}

#[test]
fn empty_address_is_rejected() {
    let mut mgr = DownloadManager::new();
    let rejected = mgr.start_download(
        String::new(),
        Environment::Mainnet,
        "/downloads/file".to_string(),
        1,
    );
    assert!(rejected.is_none());
    assert_eq!(mgr.registry().len(), 0);
}

#[test]
fn repaint_is_requested_while_active() {
    let mut mgr = DownloadManager::new();
    assert!(!mgr.needs_repaint());
    let mut task = start(&mut mgr, "active", 1);
    let id = task.id();
    // A session acquisition is outstanding.
    assert!(mgr.connecting());
    assert!(mgr.needs_repaint());
    task.on_session(Ok(()));
    mgr.process_events(64);
    // Now the download itself is active.
    assert!(!mgr.connecting());
    assert!(mgr.needs_repaint());
    task.on_file_open(Ok(()));
    task.on_stream_start(Ok(()));
    task.on_stream_end(Ok(()));
    mgr.process_events(64);
    assert!(!mgr.needs_repaint());
    let item = mgr.registry().get(id).expect("item must exist");
    assert!(matches!(item.state, DownloadState::Completed));
}

#[test]
fn pause_request_for_unknown_id_is_ignored() {
    let mgr = DownloadManager::new();
    assert!(!mgr.pause_download(42));
    assert!(!mgr.resume_download(42));
}

#[test]
fn closed_bus_stops_task_silently() {
    let (events_tx, events_rx) = tokio::sync::mpsc::unbounded_channel::<DownloadEvent>();
    let (_control_tx, control_rx) = tokio::sync::mpsc::unbounded_channel();
    drop(events_rx);
    let mut task = DownloadTask::new(
        9,
        "orphan".to_string(),
        Environment::Local,
        "/downloads/orphan".to_string(),
        events_tx,
        control_rx,
    );
    task.on_session(Ok(()));
    task.on_file_open(Ok(()));
    task.on_stream_start(Ok(()));
    assert!(!task.on_chunk(4));
    assert!(task.is_finished());
}
