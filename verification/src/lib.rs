//! Verified configuration and decision logic of the Logos development node and runtime.

pub mod ratio;
pub mod runtime_config;
pub mod era;
pub mod keys;
pub mod chain_spec;
pub mod benchmarking;
pub mod cli;
pub mod service;
