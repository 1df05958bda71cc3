//! The decisions and texts behind a coding agent's session trace, its prompt rendering and its
//! tool-call normalisation.
//!
//! - [`trace_logging`] records the events of a session, one JSON object per line; [`event`] builds
//!   the objects, [`jsonl`] frames the lines, [`clock`] reads the clocks, and [`json`] ties the
//!   JSON values of `serde_json` to mathematical trees.
//! - [`render_prompt`] renders an agent's system prompt, as a series of steps.
//! - [`toolcall_normalizer`] normalises a tool call against a tool catalogue.
//!
//! The library does no file or network access and awaits nothing: it says what is to be done, and
//! is told what came of it.

pub mod clock;
pub mod event;
pub mod json;
pub mod jsonl;
pub mod render_prompt;
pub mod toolcall_normalizer;
pub mod trace_logging;
