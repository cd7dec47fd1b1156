//! The light effect engine: patterns of colored frames, the cursor that plays
//! them, and the policy that keeps a flaky device connection alive.
//!
//! - `pattern` reads pattern text into a table of frames; `text` holds its
//!   line and field grammar, `color` the colors and their hex notation.
//! - `cursor` is the playback state machine, `heart` the decisions of the
//!   effect loop around it.
//! - `link` decides when to connect to a serial light strip and what to
//!   write to it; `request` is the strip firmware's side of that line.
//! - `control`, `webhook`, `oauth` and `service` hold what the surrounding
//!   control plane asks of the engine, and its records.

pub mod color;
pub mod control;
pub mod cursor;
pub mod heart;
pub mod link;
pub mod oauth;
pub mod pattern;
pub mod request;
pub mod service;
pub mod text;
pub mod webhook;
