//! The recording pipeline: event-bus payloads, capture configuration and frames,
//! and the encoder's muxing step.
pub mod bus;
pub mod capture;
pub mod encoder;
pub mod input;
