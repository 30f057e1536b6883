//! Core of a realtime event-distribution and command-dispatch gateway.
//!
//! The crate holds the verified logic of the gateway: a command dispatcher
//! that routes named operations to registered handlers and wraps every
//! outcome in a uniform reply envelope, an event hub that fans wire events
//! out to all registered subscriber channels, a per-connection session state
//! machine, and a per-resource watcher registry with idempotent activation.
//! The surrounding transport (HTTP endpoint, WebSocket upgrade, background
//! tasks) lives outside the library and drives these components.

pub mod broadcaster;
pub mod dispatch;
pub mod envelope;
pub mod error;
pub mod json;
pub mod session;
pub mod watcher;
pub mod wire;
