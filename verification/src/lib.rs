//! Supervision of a long-lived external metadata tool run in "stay open" mode.
//!
//! The library models the pipe-driven protocol spoken with the tool: encoding
//! per-file command blocks, routing the tool's output lines, and the
//! supervisor state machine that correlates each submitted command with its
//! completion sentinel and drives a deterministic shutdown. The process
//! handling itself (spawning, pipes, background reader threads) lives with
//! the caller, which feeds the observed events back into these functions.

pub mod codecs;
pub mod encoder;
pub mod job;
pub mod paths;
pub mod router;
pub mod supervisor;
