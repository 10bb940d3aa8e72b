//! Startup configuration model for a network-facing notarization server.
//!
//! The model is a tree of immutable value objects: the root
//! [`properties::NotaryServerProperties`] aggregates independent leaf groups
//! (network identity, per-session ceilings, TLS, signing-key locations,
//! logging, authorization) plus a global `concurrency` admission ceiling.
//!
//! A configuration document arrives as a [`raw::RawNotaryServerProperties`]
//! in which every field is optional; loading fills in the documented
//! defaults, and a separate validation pass checks the cross-field rules
//! before the model is handed to any consumer.

pub mod error;
pub mod log_format;
pub mod properties;
pub mod raw;
pub mod validation;
