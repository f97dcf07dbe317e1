//! Server-side HTTP connection core.
//!
//! The per-connection state machine that chooses between the HTTP/1 and the
//! HTTP/2 engine, switches from the first to the second when a client opens
//! with the HTTP/2 preface, surrenders the transport on an upgrade, and pairs
//! accepted streams with services. The engines and all I/O stay outside: every
//! operation here takes the outcome of an engine's step as a plain value and
//! says what the connection becomes and what is to be done next.

pub mod buf;
pub mod config;
pub mod conn;
pub mod machine;
pub mod proto;
pub mod rewind;
pub mod serve;
pub mod spawn_all;
pub mod upgrades;
