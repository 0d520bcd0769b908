//! Ingestion-batch-deliver pipeline for short text events ("tweets").
//!
//! Concurrent producers append events into a [`buffer::BatchBuffer`]; a single
//! runner periodically drains the buffer, drives one embedding/similarity
//! round-trip per batch ([`runner`]), and publishes per-submitter results into
//! a [`store::ResultStore`], from which each session waiter claims exactly its
//! own entry ([`waiter`]).

pub mod auth;
pub mod buffer;
pub mod conversion;
pub mod entitlements;
pub mod models;
pub mod runner;
pub mod store;
pub mod waiter;
