//! Decision logic of an operator tool for a container-orchestration service:
//! token pagination, record building, container resolution and the session
//! state machines for port forwarding and interactive exec.
//!
//! Everything here works on plain values. Remote calls, child processes and
//! signals are performed by the caller, which feeds their outcomes back in.

pub mod action;
pub mod attach;
pub mod cluster;
pub mod decimal;
pub mod error;
pub mod forward;
pub mod inspect;
pub mod listing;
pub mod paginate;
pub mod records;
pub mod session;
pub mod table;
pub mod task;
pub mod text;
