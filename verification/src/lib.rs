//! Stateless push-notification dispatch pipeline.
//!
//! One inbound trigger is classified, its recipients are resolved (from the
//! request body, or from a token store the caller queries), a single
//! notification message is built, and the terminal outcome is mapped to an
//! HTTP status and body.  Every stage is a pure function of its inputs: the
//! pipeline holds no state across invocations.

pub mod direct;
pub mod laws;
pub mod message;
pub mod pipeline;
pub mod respond;
pub mod token;
pub mod trigger;
