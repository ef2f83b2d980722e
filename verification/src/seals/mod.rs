//! Single-use seals defined over transaction outputs.

pub mod commitment;
pub mod tx;
pub mod witness;
