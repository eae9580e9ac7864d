//! Verified core of a device-to-device file-transfer client.
//!
//! The crate models the two long-lived processes of such a client — keeping a
//! logical connection alive and driving a resumable byte transfer — as pure
//! state machines that consume events and emit actions, together with a
//! bounded execution trace, a registry of in-flight transfers, and a
//! fault-injecting harness used to exercise the recovery rules.

pub mod chaos;
pub mod clock;
pub mod connection;
pub mod engine;
pub mod errors;
pub mod runtime;
pub mod text;
pub mod timeline;
pub mod transfer;
