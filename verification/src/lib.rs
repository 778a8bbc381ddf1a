//! Core engine of a personal video-archive synchronizer: the packed
//! download-status codec, the per-video / per-page task state machine,
//! the source-scan pipeline with its watermark discipline, the scheduling
//! and single-flight layer, and the notification queue with quiet hours
//! and per-channel deduplication.

pub mod api;
pub mod config;
pub mod cycle;
pub mod notify;
pub mod queue;
pub mod scan;
pub mod status;
pub mod strutil;
pub mod task;
pub mod time;
pub mod workflow;
