//! Concurrent download orchestration: a per-download state machine, an
//! event protocol from download tasks to a single consumer, and a
//! pause/resume control plane.

pub mod channel;
pub mod control;
pub mod event;
pub mod item;
pub mod laws;
pub mod manager;
pub mod registry;
pub mod state;
pub mod task;
