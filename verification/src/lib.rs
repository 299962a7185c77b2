//! The local helper of a one-time-code authenticator.
//!
//! The authenticator publishes snapshots of its entries to the helper, which serves them to panels
//! of the same desktop session over a private Unix socket. This library holds what the helper
//! decides: which snapshots it takes over, how it answers requests, when a copied code leaves the
//! clipboard, where it listens and whom it lets in, which window comes to the front, and when the
//! hidden program is reloaded or restarted. Files, sockets, processes and windows are the business
//! of the program around it.

pub mod clipboard;
pub mod frame;
pub mod json;
pub mod launch;
pub mod laws;
pub mod protocol;
pub mod provenance;
pub mod size;
pub mod snapshot;
pub mod socket;
pub mod state;
pub mod text;
pub mod watchdog;
pub mod window;
