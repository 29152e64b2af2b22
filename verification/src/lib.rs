//! Core pipeline of a package-update notifier.
//!
//! The library watches an append-only index of published packages: it
//! classifies the difference between two consecutive index commits into a
//! change event (a new version, a retraction or its undoing), hands events
//! one at a time from a blocking index walker to an asynchronous notifier,
//! and plans the outbound notifications with bounded retry and pacing.

pub mod bot;
pub mod bridge;
pub mod cfg;
pub mod classifier;
pub mod dispatcher;
pub mod krate;
pub mod retry;
pub mod util;
pub mod walker;
