//! Engine lifecycle manager and protocol codec for a process-local
//! "virtual character" response engine.
//!
//! The crate discovers installed character bundles ("ghosts"), decides which
//! response-engine family a bundle requires, models the state machine that
//! governs initialize -> load -> active -> unload -> finalize transitions
//! across the foreign boundary, and builds the line-oriented SHIORI/3.0
//! request text exchanged with the engine.
//!
//! The native engine itself is a black box: every boundary entry point is
//! performed by the embedding program, which feeds the returned status codes
//! and buffers back into the verified state machine here.

pub mod codec;
pub mod detect;
pub mod engine;
pub mod errors;
pub mod foreign;
pub mod interface;
pub mod manager;
pub mod manifest;
pub mod sakura;
pub mod text;

pub use errors::ShioriError;
