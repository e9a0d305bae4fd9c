//! The two stores and the engine that applies records to them.
pub mod client_manager;
pub mod engine;
pub mod laws;
pub mod tx_manager;
