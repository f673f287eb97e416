//! Framed request/response exchange over a serial line.
//!
//! A request is written once; the reply is collected from as many partial
//! reads as it takes until it ends in a line feed, within a bounded number of
//! read attempts. The crate holds the decisions of that protocol and leaves
//! the device itself to the caller: the caller performs each step that
//! [`engine::Exchange`] asks for and reports what happened.

pub mod baud;
pub mod directory;
pub mod engine;
pub mod error;
pub mod frame;
pub mod handle;
pub mod laws;
pub mod settings;
