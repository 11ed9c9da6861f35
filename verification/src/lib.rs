//! Decoding layer for a single-wire temperature/humidity sensor.
//!
//! The sensor hands back a fixed four-byte payload; this crate turns that
//! payload into a strongly typed reading for the attached sensor model.
//! Temperatures use a sign-magnitude encoding (one sign bit, the rest an
//! unsigned magnitude), and each model applies its own fixed-point scaling.
//! Acquisition itself (the timing-sensitive wire protocol) is a collaborator
//! outside this crate: it supplies either the payload or an opaque error,
//! which is forwarded to the caller unchanged.

pub mod dht;
