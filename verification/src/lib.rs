//! The live state of a terminal dashboard for agent sessions: changed
//! paths become typed changes, transcripts are tailed line by line, the
//! output and the end of spawned processes go into bounded records, and
//! the main loop decides what to reload and when to draw.

pub mod app;
pub mod config;
pub mod data;
pub mod event;
pub mod json;
pub mod keys;
pub mod model;
pub mod nav;
pub mod pane_send;
pub mod ranking;
pub mod reconcile;
pub mod text;
pub mod time;
pub mod watcher;
