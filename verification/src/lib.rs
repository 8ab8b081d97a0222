//! Core of a home-automation bridge: a verified protocol client and
//! trigger-to-action dispatch engine.
//!
//! The library covers the message envelope codec (correlation ids, tagged
//! JSON-shaped messages), the authentication/subscription handshake state
//! machine, the decoding and filtering of inbound events against a device
//! catalog, and the resolution of semantic events to ordered action plans.
//! Connection handling, process execution and (de)serialization to wire text
//! live outside the library and exchange plain values with it.

pub mod actions;
pub mod api;
pub mod config;
pub mod dispatch;
pub mod handshake;
pub mod hass_zha;
pub mod json;
pub mod triggers;
pub mod wire;
