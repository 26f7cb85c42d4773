//! A verified core for an MPD bridge daemon: the wire codec for the
//! line-oriented protocol, the structured ACK error parser, the status
//! reconciler that turns raw key-value snapshots into typed change events,
//! and the decision logic of the command and idle channels.
//!
//! Network I/O, the async runtime and the IPC publishing layer live outside
//! this crate; they hand plain values in and take plain values back.

pub mod base;
pub mod channel;
pub mod codec;
pub mod commands;
pub mod config;
pub mod player;
pub mod error;
pub mod expand;
pub mod reconcile;
pub mod status;
pub mod strutil;
