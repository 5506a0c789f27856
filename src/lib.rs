//! Telemetry and control for Jetson-class boards.
//!
//! - `parser`: one `tegrastats` status line to a snapshot.
//! - `control`: the controls a board offers and the validated path that
//!   changes them; host actions are returned to the caller to perform.
//! - `hardware`: what the board's files say about it.
//! - `health`: the daemon's counters.
//! - `collector`: source selection, retry backoff, synthetic snapshots.
//! - `server`: the daemon's decisions on a request (encoding, authorization,
//!   replies, HTTP routing).
//! - `metrics`: the metrics text.
//! - `client`: the command-line client's requests.
//! - `protocol`: the request/response schema.
//! - `history`: dashboard views and history windows.
//! - `namemap`, `text`, `pattern`: names-to-values maps, text helpers, and
//!   the calls into `regex` and `str`.
pub mod client;
pub mod collector;
pub mod control;
pub mod hardware;
pub mod health;
pub mod history;
pub mod metrics;
pub mod namemap;
pub mod parser;
pub mod pattern;
pub mod protocol;
pub mod server;
pub mod text;
