//! A memory-safe access layer over the 51Degrees device-detection hash
//! engine.
//!
//! The native engine is reached through a foreign function interface and
//! exposes raw handles with manual allocation/free pairs and an out-of-band
//! exception object that must be inspected after every call.  This crate
//! holds the in-process half of that layer: the evidence collection that the
//! engine consumes, the value-typed snapshot of the foreign exception
//! protocol, the engine configuration, and the decision functions that turn
//! each foreign call's raw outcome (status codes, exception snapshots, byte
//! buffers) into structured results or errors.  Every function here carries a
//! contract and is verified; the thin boundary that owns the foreign handles
//! and performs the actual calls lives outside the verified library and
//! consults these functions for every decision.

pub mod evidence;
pub mod fiftyone_degrees;
pub mod hash_engine;
