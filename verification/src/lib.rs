//! Session control for a multi-party audio/video room server: rooms and their
//! participants, the directory of rooms, the per-connection session state
//! machine and the bookkeeping of a recording.
//!
//! The media engine, the signalling socket and the transcoder are driven by
//! the caller; this crate decides what they are asked to do and keeps the
//! state that those decisions rest on.
use vstd::prelude::*;

pub mod codecs;
pub mod engine;
pub mod history;
pub mod ids;
pub mod participant;
pub mod recording;
pub mod room;
pub mod rooms_registry;
pub mod util;
