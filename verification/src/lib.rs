//! The interop protocol of an edge-compute bridge.
//!
//! A foreign caller that has no `Result`, no enums with payloads and no
//! ownership sees every operation of the runtime through four conventions:
//! a two-channel result (a value and an error slot), owned handles that are
//! moved in and out, pull-based cursors, and pending operations that are
//! polled, waited for or selected. This crate holds those conventions and
//! the rules each operation applies to its arguments and to what the runtime
//! answered; the calls into the runtime itself are made by the caller of
//! this crate, which hands the outcome over as plain values.

pub mod backend;
pub mod error;
pub mod http;
pub mod esi;
pub mod geo;
pub mod handle;
pub mod kv_store;
pub mod log;
pub mod security;
pub mod text;
