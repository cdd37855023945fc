use hash_compare::bench::BenchmarkResult;
use hash_compare::report::{
    benchmark_line, constraint_lines, header_lines, report_lines, section_lines,
    summary_table_lines, table_row, use_case_lines,
};

fn result(millis: u128, micros_per_hash: u128) -> BenchmarkResult {
    BenchmarkResult { millis, micros_per_hash }
}

fn expected_report(iterations: usize, r: [BenchmarkResult; 3]) -> Vec<String> {
    let mut out = String::new();
    out += &format!("\n{}\n", "=".repeat(70));
    out += "    Ethereum Hash Function Comparison Framework\n";
    out += &format!("{}\n", "=".repeat(70));
    out += "\nComparing traditional vs SNARK-friendly hash functions\n";
    out += &format!("Iterations: {}\n", iterations);
    out += &format!("{}\n\n", "=".repeat(70));
    out += &format!("\n>>> {}\n{}\n", "1. Performance Benchmarks", "-".repeat(70));
    out += "\n";
    let names = ["SHA-256   ", "Keccak-256", "Poseidon  "];
    for i in 0..3 {
        out += &format!(
            "  {} => {} ms ({} μs per hash)\n",
            names[i], r[i].millis, r[i].micros_per_hash
        );
    }
    out += &format!("\n>>> {}\n{}\n", "2. SNARK Constraint Estimates", "-".repeat(70));
    out += "\n  (Lower is better for zero-knowledge proofs)\n\n";
    out += &format!("  SHA-256    => ~{:>6} constraints\n", 25000);
    out += &format!("  Keccak-256 => ~{:>6} constraints\n", 150000);
    out += &format!("  Poseidon   => ~{:>6} constraints (250x better!)\n", 100);
    out += &format!("\n>>> {}\n{}\n", "Use Case Recommendations", "-".repeat(70));
    out += "\n  SHA-256:\n";
    out += "    ✓ General-purpose cryptographic hashing\n";
    out += "    ✓ Bitcoin and legacy systems\n";
    out += "    ✗ Not optimized for zkSNARKs (high constraint count)\n";
    out += "\n  Keccak-256:\n";
    out += "    ✓ Ethereum smart contracts (native opcode)\n";
    out += "    ✓ Address generation and transaction hashing\n";
    out += "    ✗ Very expensive in zkSNARKs\n";
    out += "\n  Poseidon:\n";
    out += "    ✓ Zero-knowledge proof systems\n";
    out += "    ✓ Rollups and Layer 2 solutions\n";
    out += "    ✓ Privacy-preserving applications\n";
    out += "    ✗ Not hardware-accelerated like SHA-256\n";
    out += &format!("\n>>> {}\n{}\n", "Summary Comparison Table", "-".repeat(70));
    out += &format!(
        "\n  {:<15} {:<20} {:<20} {:<20}\n",
        "Property", "SHA-256", "Keccak-256", "Poseidon"
    );
    out += &format!("  {}\n", "-".repeat(75));
    out += &format!(
        "  {:<15} {:<20} {:<20} {:<20}\n",
        "Speed",
        format!("{} ms", r[0].millis),
        format!("{} ms", r[1].millis),
        format!("{} ms", r[2].millis)
    );
    out += &format!(
        "  {:<15} {:<20} {:<20} {:<20}\n",
        "SNARK Cost", "~25,000 constr.", "~150,000 constr.", "~100 constr."
    );
    out += &format!(
        "  {:<15} {:<20} {:<20} {:<20}\n",
        "Ethereum Use", "Legacy systems", "Native (EVM)", "zkApps/Rollups"
    );
    out += &format!(
        "  {:<15} {:<20} {:<20} {:<20}\n",
        "Best For", "General purpose", "Smart contracts", "Zero-knowledge"
    );
    out += "\n";
    out.lines().map(|l| l.to_string()).collect()
}

#[test]
fn full_report_text() {
    let r = [result(12, 12), result(3, 3), result(4567, 4567)];
    let lines = report_lines(1000, &r[0], &r[1], &r[2]);
    assert_eq!(lines, expected_report(1000, r));
    assert_eq!(lines.len(), 55);
}

#[test]
fn report_with_large_figures() {
    let r = [result(123456789012345678901234, 0), result(0, 0), result(u128::MAX, u128::MAX)];
    let lines = report_lines(7, &r[0], &r[1], &r[2]);
    assert_eq!(lines, expected_report(7, r));
}

#[test]
fn reports_differ_only_in_timing_lines() {
    let a = report_lines(1000, &result(1, 2), &result(3, 4), &result(5, 6));
    let b = report_lines(1000, &result(10, 20), &result(30, 40), &result(50, 60));
    assert_eq!(a.len(), b.len());
    for i in 0..a.len() {
        if (13..=15).contains(&i) || i == 50 {
            assert_ne!(a[i], b[i]);
        } else {
            assert_eq!(a[i], b[i]);
        }
    }
}

#[test]
fn report_sections_appear_in_order() {
    let lines = report_lines(1000, &result(1, 1), &result(2, 2), &result(3, 3));
    let text = lines.join("\n");
    let headers = [
        "Performance Benchmarks",
        "SNARK Constraint Estimates",
        "Use Case Recommendations",
        "Summary Comparison Table",
    ];
    let mut last = 0;
    for h in headers {
        let at = text[last..].find(h).expect("section header missing") + last;
        assert!(at >= last);
        last = at + h.len();
    }
}

#[test]
fn header_names_iterations() {
    let lines = header_lines(1000);
    assert_eq!(lines.len(), 9);
    assert_eq!(lines[2], "    Ethereum Hash Function Comparison Framework");
    assert_eq!(lines[6], "Iterations: 1000");
    assert_eq!(lines[7], "=".repeat(70));
}

#[test]
fn section_heading_lines() {
    assert_eq!(section_lines("Title"), vec![String::new(), ">>> Title".to_string(), "-".repeat(70)]);
}

#[test]
fn benchmark_line_layout() {
    assert_eq!(
        benchmark_line("SHA-256   ", &result(12, 34)),
        "  SHA-256    => 12 ms (34 μs per hash)"
    );
}

#[test]
fn constraint_lines_use_lookup() {
    let lines = constraint_lines();
    assert_eq!(lines[6], "  SHA-256    => ~ 25000 constraints");
    assert_eq!(lines[7], "  Keccak-256 => ~150000 constraints");
    assert_eq!(lines[8], "  Poseidon   => ~   100 constraints (250x better!)");
}

#[test]
fn use_case_notes() {
    let lines = use_case_lines();
    assert_eq!(lines.len(), 19);
    assert_eq!(lines[1], ">>> Use Case Recommendations");
    assert_eq!(lines[18], "    ✗ Not hardware-accelerated like SHA-256");
}

#[test]
fn summary_table_layout() {
    let lines = summary_table_lines(1, 22, 333);
    assert_eq!(lines.len(), 11);
    assert_eq!(
        lines[6],
        format!("  {:<15} {:<20} {:<20} {:<20}", "Speed", "1 ms", "22 ms", "333 ms")
    );
    assert_eq!(
        table_row("a", "b", "c", "d"),
        format!("  {:<15} {:<20} {:<20} {:<20}", "a", "b", "c", "d")
    );
}
