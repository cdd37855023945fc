//! Timed repetition of one hash adapter over a fixed input.

use vstd::prelude::*;
use std::time::Instant;
use crate::digest::{hash_sha256, hash_keccak256, hash_poseidon, sha256_of, keccak256_of, poseidon_hash_of};

verus! {

#[verifier::external_type_specification]
#[verifier::external_body]
pub struct ExInstant(std::time::Instant);

/// Relies on `std::time::Instant::now`: a reading of the monotonic clock.
#[verifier::external_body]
fn clock_now() -> (r: Instant) {
    Instant::now()
}

/// Relies on `std::time::Instant::elapsed`: the time since `start`,
/// converted to whole nanoseconds. Nothing is promised of the value.
#[verifier::external_body]
fn nanos_since(start: &Instant) -> (r: u128) {
    start.elapsed().as_nanos()
}

/// How many times each adapter is called in one benchmark run.
pub const DEFAULT_ITERATIONS: usize = 1000;

/// The hash families under comparison.
#[derive(Clone, Copy, Debug, PartialEq, Eq, Structural)]
pub enum HashFamily {
    Sha256,
    Keccak256,
    Poseidon,
}

impl HashFamily {
    /// The digest this family gives for `data`.
    pub open spec fn digest_of(self, data: Seq<u8>) -> Seq<u8> {
        match self {
            HashFamily::Sha256 => sha256_of(data),
            HashFamily::Keccak256 => keccak256_of(data),
            HashFamily::Poseidon => poseidon_hash_of(data),
        }
    }

    /// Hashes `data` with this family's adapter.
    pub fn hash(&self, data: &[u8]) -> (r: Vec<u8>)
        ensures
            r@ == self.digest_of(data@),
            r@.len() == 32,
    {
        match self {
            HashFamily::Sha256 => hash_sha256(data),
            HashFamily::Keccak256 => hash_keccak256(data),
            HashFamily::Poseidon => hash_poseidon(data),
        }
    }
}

/// The figures reported for one benchmark: total whole milliseconds and
/// whole microseconds per call, both truncated.
#[derive(Clone, Copy, Debug, PartialEq, Eq, Structural)]
pub struct BenchmarkResult {
    pub millis: u128,
    pub micros_per_hash: u128,
}

/// The figures for `iterations` calls that took `nanos` nanoseconds in all.
pub open spec fn figures_of(nanos: u128, iterations: usize) -> BenchmarkResult {
    BenchmarkResult {
        millis: nanos / 1_000_000,
        micros_per_hash: nanos / 1000 / (iterations as u128),
    }
}

/// Turns an elapsed time in nanoseconds and a call count into the reported
/// figures, truncating each division.
pub fn benchmark_figures(nanos: u128, iterations: usize) -> (r: BenchmarkResult)
    requires
        iterations > 0,
    ensures
        r == figures_of(nanos, iterations),
{
    BenchmarkResult { millis: nanos / 1_000_000, micros_per_hash: nanos / 1000 / (iterations as u128) }
}

/// Calls the adapter of `hash_fn` on `input` `iterations` times in a row,
/// discarding the digests, and reports the wall-clock time taken.
pub fn benchmark_hash(hash_fn: HashFamily, input: &[u8], iterations: usize) -> (r: BenchmarkResult)
    requires
        iterations > 0,
    ensures
        exists|nanos: u128| r == figures_of(nanos, iterations),
{
    let start = clock_now();
    let mut i: usize = 0;
    while i < iterations
        invariant
            i <= iterations,
        decreases iterations - i,
    {
        let _digest = hash_fn.hash(input);
        i = i + 1;
    }
    let nanos = nanos_since(&start);
    benchmark_figures(nanos, iterations)
}

} // verus!
