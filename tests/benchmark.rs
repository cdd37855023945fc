use hash_compare::bench::{benchmark_figures, benchmark_hash, BenchmarkResult, HashFamily};

#[test]
fn figures_truncate_divisions() {
    assert_eq!(
        benchmark_figures(1_234_567_890, 1000),
        BenchmarkResult { millis: 1234, micros_per_hash: 1234 }
    );
    assert_eq!(
        benchmark_figures(999_999, 1000),
        BenchmarkResult { millis: 0, micros_per_hash: 0 }
    );
    assert_eq!(
        benchmark_figures(5_000_000, 3),
        BenchmarkResult { millis: 5, micros_per_hash: 1666 }
    );
}

#[test]
fn benchmark_figures_are_consistent() {
    for family in [HashFamily::Sha256, HashFamily::Keccak256, HashFamily::Poseidon] {
        let r = benchmark_hash(family, b"This is a test message.", 5);
        assert!(r.micros_per_hash * 5 < (r.millis + 1) * 1000);
    }
}
