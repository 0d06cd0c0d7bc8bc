//! Protocol discovery and capability negotiation for a Wayland input-method
//! session.
//!
//! The crate models the sequence a text-input client runs against a Wayland
//! compositor: enumerate the advertised global protocol objects with a
//! synchronous round-trip, bind the mandatory seat, and bind two optional
//! protocol extensions (virtual keyboard, input method) with graceful
//! degradation when either is unsupported.  The decisions are taken here,
//! over plain values; the process that owns the live compositor connection
//! feeds registry events in and carries the binding decisions out.

pub mod binding;
pub mod connect;
pub mod connectors;
pub mod errors;
pub mod registry;
