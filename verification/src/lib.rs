//! Verified core of an SMS labeling pipeline.
//!
//! Short text messages are classified into a two-level taxonomy
//! (industry x message type) and a fixed set of entities is extracted.
//! A deterministic rule engine is fused with a best-effort model call;
//! results persist to a store and a batch executor drives the whole
//! pipeline with retries, cancellation and per-message fallback.

pub mod batch;
pub mod exporter;
pub mod extract;
pub mod fusion;
pub mod importer;
pub mod prompt;
pub mod provider;
pub mod rules;
pub mod schema;
pub mod selftest;
pub mod settings;
pub mod status;
pub mod store;
pub mod text;
