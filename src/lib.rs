//! Comparison of a general-purpose hash (SHA-256), a blockchain-native
//! sponge hash (Keccak-256) and a proof-system-friendly algebraic hash
//! (Poseidon over the BLS12-381 scalar field): hash adapters, a benchmark
//! runner, a table of circuit-constraint estimates and a text report.

pub mod field;
pub mod digest;
pub mod constraints;
pub mod text;
pub mod bench;
pub mod report;
