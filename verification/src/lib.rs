//! Core of a KBART file harvester: derives a safe local filename from each
//! input URL, optionally validates the remote resource's header before a full
//! transfer, and drives each item through a per-item fetch state machine whose
//! outcomes are collected without one failure stopping the batch.

pub mod errors;
pub mod filename;
pub mod headers;
pub mod outcomes;
pub mod pipeline;
pub mod pool;
pub mod sanitize;
