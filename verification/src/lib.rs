//! Core rules of a git Smart-HTTP hosting server: repository names and the
//! registry that owns them, the per-repository readers/writer lock, pkt-line
//! framing of the ref advertisement, the pack exchange with the git
//! toolchain, and the request state machine that ties them together.
//!
//! Everything here works on plain values. Processes, sockets and files are
//! the caller's business: the caller performs the action that a function of
//! this crate hands out and reports back what happened.

pub mod api;
pub mod bridge;
pub mod check;
pub mod config;
pub mod db;
pub mod error;
pub mod http;
pub mod lock;
pub mod name;
pub mod pktline;
pub mod process;
pub mod registry;
pub mod service;
pub mod session;
pub mod text;
