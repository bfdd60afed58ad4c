//! Runs WebAssembly modules announced by a registry contract on chain, and
//! tracks how far the chain has been processed.

pub mod address;
pub mod chain;
pub mod extract;
pub mod processor;
pub mod sandbox;
