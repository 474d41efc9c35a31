//! Deterministic VM exit logging for non-determinism diagnosis.
pub mod entry;
pub mod hash;
