//! Connector-abstraction core of a payment-routing switch.
//!
//! The library defines the uniform integration contract a payment connector
//! implements (request construction, byte-order-mark-tolerant response
//! decoding, error normalization), the orchestration that drives one
//! connector call, the pre-authentication (3-D Secure) fold, webhook
//! signature extraction and event classification, and the dispute-evidence
//! file flows.
pub mod connector;
pub mod decode;
pub mod errors;
pub mod files;
pub mod json;
pub mod orchestrator;
pub mod pre_auth;
pub mod strutil;
pub mod transformers;
pub mod types;
pub mod webhook;
