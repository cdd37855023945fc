//! The comparison report, as a list of text lines: banner, benchmark
//! figures, constraint estimates, use-case notes and a summary table.

use vstd::prelude::*;
use crate::bench::BenchmarkResult;
use crate::constraints::{get_snark_constraints, snark_constraints_of};
use crate::text::{decimal_of, repeat_of, left_aligned, right_aligned, decimal_text, repeat_text, pad_right, pad_left};

verus! {

/// Width of the banner and section rules.
pub const RULE_WIDTH: usize = 70;

/// Width of the rule under the summary table's column titles.
pub const TABLE_RULE_WIDTH: usize = 75;

/// Width of the summary table's first column.
pub const NAME_COLUMN_WIDTH: usize = 15;

/// Width of each of the summary table's family columns.
pub const FAMILY_COLUMN_WIDTH: usize = 20;

/// The characters of each line.
pub open spec fn texts_of(lines: Seq<String>) -> Seq<Seq<char>> {
    lines.map_values(|s: String| s@)
}

/// The banner that opens the report.
pub open spec fn header_text(iterations: nat) -> Seq<Seq<char>> {
    seq![
        Seq::empty(),
        repeat_of("="@, RULE_WIDTH as nat),
        "    Ethereum Hash Function Comparison Framework"@,
        repeat_of("="@, RULE_WIDTH as nat),
        Seq::empty(),
        "Comparing traditional vs SNARK-friendly hash functions"@,
        "Iterations: "@ + decimal_of(iterations),
        repeat_of("="@, RULE_WIDTH as nat),
        Seq::empty(),
    ]
}

/// The title line of a report section.
pub open spec fn heading_text(title: Seq<char>) -> Seq<char> {
    ">>> "@ + title
}

/// The heading of a report section.
pub open spec fn section_text(title: Seq<char>) -> Seq<Seq<char>> {
    seq![Seq::empty(), heading_text(title), repeat_of("-"@, RULE_WIDTH as nat)]
}

/// The line that reports one benchmark under the column name `name`.
pub open spec fn benchmark_line_text(name: Seq<char>, r: BenchmarkResult) -> Seq<char> {
    "  "@ + name + " => "@ + decimal_of(r.millis as nat) + " ms ("@ + decimal_of(
        r.micros_per_hash as nat,
    ) + " μs per hash)"@
}

/// The benchmark section for the three families' results.
pub open spec fn benchmark_text(
    sha: BenchmarkResult,
    keccak: BenchmarkResult,
    poseidon: BenchmarkResult,
) -> Seq<Seq<char>> {
    section_text("1. Performance Benchmarks"@) + seq![
        Seq::empty(),
        benchmark_line_text("SHA-256   "@, sha),
        benchmark_line_text("Keccak-256"@, keccak),
        benchmark_line_text("Poseidon  "@, poseidon),
    ]
}

/// One line of the constraint section: `lead`, the estimate for `label`
/// right-aligned in six columns, then `tail`.
pub open spec fn constraint_line_text(lead: Seq<char>, label: Seq<char>, tail: Seq<char>) -> Seq<
    char,
> {
    lead + right_aligned(decimal_of(snark_constraints_of(label) as nat), 6) + tail
}

/// The constraint-estimate section.
pub open spec fn constraint_text() -> Seq<Seq<char>> {
    section_text("2. SNARK Constraint Estimates"@) + seq![
        Seq::empty(),
        "  (Lower is better for zero-knowledge proofs)"@,
        Seq::empty(),
        constraint_line_text("  SHA-256    => ~"@, "SHA-256"@, " constraints"@),
        constraint_line_text("  Keccak-256 => ~"@, "Keccak-256"@, " constraints"@),
        constraint_line_text("  Poseidon   => ~"@, "Poseidon"@, " constraints (250x better!)"@),
    ]
}

/// The use-case section: fixed notes on each family.
pub open spec fn use_case_text() -> Seq<Seq<char>> {
    section_text("Use Case Recommendations"@) + seq![
        Seq::empty(),
        "  SHA-256:"@,
        "    ✓ General-purpose cryptographic hashing"@,
        "    ✓ Bitcoin and legacy systems"@,
        "    ✗ Not optimized for zkSNARKs (high constraint count)"@,
        Seq::empty(),
        "  Keccak-256:"@,
        "    ✓ Ethereum smart contracts (native opcode)"@,
        "    ✓ Address generation and transaction hashing"@,
        "    ✗ Very expensive in zkSNARKs"@,
        Seq::empty(),
        "  Poseidon:"@,
        "    ✓ Zero-knowledge proof systems"@,
        "    ✓ Rollups and Layer 2 solutions"@,
        "    ✓ Privacy-preserving applications"@,
        "    ✗ Not hardware-accelerated like SHA-256"@,
    ]
}

/// A row of the summary table, each cell left-aligned in its column.
pub open spec fn table_row_text(a: Seq<char>, b: Seq<char>, c: Seq<char>, d: Seq<char>) -> Seq<
    char,
> {
    "  "@ + left_aligned(a, NAME_COLUMN_WIDTH as nat) + " "@ + left_aligned(
        b,
        FAMILY_COLUMN_WIDTH as nat,
    ) + " "@ + left_aligned(c, FAMILY_COLUMN_WIDTH as nat) + " "@ + left_aligned(
        d,
        FAMILY_COLUMN_WIDTH as nat,
    )
}

/// The summary table's speed row for the three total times.
pub open spec fn speed_row_text(sha_ms: nat, keccak_ms: nat, poseidon_ms: nat) -> Seq<char> {
    table_row_text(
        "Speed"@,
        decimal_of(sha_ms) + " ms"@,
        decimal_of(keccak_ms) + " ms"@,
        decimal_of(poseidon_ms) + " ms"@,
    )
}

/// The summary-table section.
pub open spec fn summary_text(sha_ms: nat, keccak_ms: nat, poseidon_ms: nat) -> Seq<Seq<char>> {
    section_text("Summary Comparison Table"@) + seq![
        Seq::empty(),
        table_row_text("Property"@, "SHA-256"@, "Keccak-256"@, "Poseidon"@),
        "  "@ + repeat_of("-"@, TABLE_RULE_WIDTH as nat),
        speed_row_text(sha_ms, keccak_ms, poseidon_ms),
        table_row_text("SNARK Cost"@, "~25,000 constr."@, "~150,000 constr."@, "~100 constr."@),
        table_row_text("Ethereum Use"@, "Legacy systems"@, "Native (EVM)"@, "zkApps/Rollups"@),
        table_row_text("Best For"@, "General purpose"@, "Smart contracts"@, "Zero-knowledge"@),
        Seq::empty(),
    ]
}

/// The whole report, in the order it is printed.
pub open spec fn report_text(
    iterations: nat,
    sha: BenchmarkResult,
    keccak: BenchmarkResult,
    poseidon: BenchmarkResult,
) -> Seq<Seq<char>> {
    header_text(iterations) + benchmark_text(sha, keccak, poseidon) + constraint_text()
        + use_case_text() + summary_text(
        sha.millis as nat,
        keccak.millis as nat,
        poseidon.millis as nat,
    )
}

fn add_line(lines: &mut Vec<String>, s: String)
    ensures
        texts_of(final(lines)@) == texts_of(old(lines)@).push(s@),
{
    lines.push(s);
    assert(texts_of(lines@) =~= texts_of(old(lines)@).push(s@));
}

fn add_text(lines: &mut Vec<String>, s: &str)
    ensures
        texts_of(final(lines)@) == texts_of(old(lines)@).push(s@),
{
    add_line(lines, String::from_str(s));
}

fn add_all(lines: &mut Vec<String>, more: Vec<String>)
    ensures
        texts_of(final(lines)@) == texts_of(old(lines)@) + texts_of(more@),
{
    let mut more = more;
    let ghost m = more@;
    lines.append(&mut more);
    assert(texts_of(lines@) =~= texts_of(old(lines)@) + texts_of(m));
}

/// `prefix` followed by `s`.
fn joined(prefix: &str, s: &str) -> (r: String)
    ensures
        r@ == prefix@ + s@,
{
    let mut out = String::from_str(prefix);
    out.append(s);
    out
}

/// The banner that opens the report.
pub fn header_lines(iterations: usize) -> (r: Vec<String>)
    ensures
        texts_of(r@) == header_text(iterations as nat),
{
    let mut lines: Vec<String> = Vec::new();
    add_line(&mut lines, String::new());
    add_line(&mut lines, repeat_text("=", RULE_WIDTH));
    add_text(&mut lines, "    Ethereum Hash Function Comparison Framework");
    add_line(&mut lines, repeat_text("=", RULE_WIDTH));
    add_line(&mut lines, String::new());
    add_text(&mut lines, "Comparing traditional vs SNARK-friendly hash functions");
    let count = decimal_text(iterations as u128);
    add_line(&mut lines, joined("Iterations: ", count.as_str()));
    add_line(&mut lines, repeat_text("=", RULE_WIDTH));
    add_line(&mut lines, String::new());
    assert(texts_of(lines@) =~= header_text(iterations as nat));
    lines
}

/// The heading of a report section titled `title`.
pub fn section_lines(title: &str) -> (r: Vec<String>)
    ensures
        texts_of(r@) == section_text(title@),
{
    let mut lines: Vec<String> = Vec::new();
    add_line(&mut lines, String::new());
    add_line(&mut lines, joined(">>> ", title));
    add_line(&mut lines, repeat_text("-", RULE_WIDTH));
    assert(texts_of(lines@) =~= section_text(title@));
    lines
}

/// The line that reports one benchmark under the column name `name`.
pub fn benchmark_line(name: &str, result: &BenchmarkResult) -> (r: String)
    ensures
        r@ == benchmark_line_text(name@, *result),
{
    let mut out = joined("  ", name);
    out.append(" => ");
    let millis = decimal_text(result.millis);
    out.append(millis.as_str());
    out.append(" ms (");
    let micros = decimal_text(result.micros_per_hash);
    out.append(micros.as_str());
    out.append(" μs per hash)");
    out
}

/// The benchmark section for the three families' results.
pub fn benchmark_lines(sha: &BenchmarkResult, keccak: &BenchmarkResult, poseidon: &BenchmarkResult) -> (r: Vec<String>)
    ensures
        texts_of(r@) == benchmark_text(*sha, *keccak, *poseidon),
{
    let mut lines = section_lines("1. Performance Benchmarks");
    add_line(&mut lines, String::new());
    add_line(&mut lines, benchmark_line("SHA-256   ", sha));
    add_line(&mut lines, benchmark_line("Keccak-256", keccak));
    add_line(&mut lines, benchmark_line("Poseidon  ", poseidon));
    assert(texts_of(lines@) =~= benchmark_text(*sha, *keccak, *poseidon));
    lines
}

fn constraint_line(lead: &str, label: &str, tail: &str) -> (r: String)
    ensures
        r@ == constraint_line_text(lead@, label@, tail@),
{
    let estimate = decimal_text(get_snark_constraints(label) as u128);
    let column = pad_left(estimate.as_str(), 6);
    let mut out = joined(lead, column.as_str());
    out.append(tail);
    out
}

/// The constraint-estimate section.
pub fn constraint_lines() -> (r: Vec<String>)
    ensures
        texts_of(r@) == constraint_text(),
{
    let mut lines = section_lines("2. SNARK Constraint Estimates");
    add_line(&mut lines, String::new());
    add_text(&mut lines, "  (Lower is better for zero-knowledge proofs)");
    add_line(&mut lines, String::new());
    add_line(&mut lines, constraint_line("  SHA-256    => ~", "SHA-256", " constraints"));
    add_line(&mut lines, constraint_line("  Keccak-256 => ~", "Keccak-256", " constraints"));
    add_line(
        &mut lines,
        constraint_line("  Poseidon   => ~", "Poseidon", " constraints (250x better!)"),
    );
    assert(texts_of(lines@) =~= constraint_text());
    lines
}

/// The use-case section.
pub fn use_case_lines() -> (r: Vec<String>)
    ensures
        texts_of(r@) == use_case_text(),
{
    let mut lines = section_lines("Use Case Recommendations");
    add_line(&mut lines, String::new());
    add_text(&mut lines, "  SHA-256:");
    add_text(&mut lines, "    ✓ General-purpose cryptographic hashing");
    add_text(&mut lines, "    ✓ Bitcoin and legacy systems");
    add_text(&mut lines, "    ✗ Not optimized for zkSNARKs (high constraint count)");
    add_line(&mut lines, String::new());
    add_text(&mut lines, "  Keccak-256:");
    add_text(&mut lines, "    ✓ Ethereum smart contracts (native opcode)");
    add_text(&mut lines, "    ✓ Address generation and transaction hashing");
    add_text(&mut lines, "    ✗ Very expensive in zkSNARKs");
    add_line(&mut lines, String::new());
    add_text(&mut lines, "  Poseidon:");
    add_text(&mut lines, "    ✓ Zero-knowledge proof systems");
    add_text(&mut lines, "    ✓ Rollups and Layer 2 solutions");
    add_text(&mut lines, "    ✓ Privacy-preserving applications");
    add_text(&mut lines, "    ✗ Not hardware-accelerated like SHA-256");
    assert(texts_of(lines@) =~= use_case_text());
    lines
}

/// A row of the summary table, each cell left-aligned in its column.
pub fn table_row(a: &str, b: &str, c: &str, d: &str) -> (r: String)
    ensures
        r@ == table_row_text(a@, b@, c@, d@),
{
    let mut out = String::from_str("  ");
    let cell = pad_right(a, NAME_COLUMN_WIDTH);
    out.append(cell.as_str());
    out.append(" ");
    let cell = pad_right(b, FAMILY_COLUMN_WIDTH);
    out.append(cell.as_str());
    out.append(" ");
    let cell = pad_right(c, FAMILY_COLUMN_WIDTH);
    out.append(cell.as_str());
    out.append(" ");
    let cell = pad_right(d, FAMILY_COLUMN_WIDTH);
    out.append(cell.as_str());
    out
}

fn millis_cell(ms: u128) -> (r: String)
    ensures
        r@ == decimal_of(ms as nat) + " ms"@,
{
    let mut out = decimal_text(ms);
    out.append(" ms");
    out
}

/// The summary-table section for the three families' total times.
pub fn summary_table_lines(sha_time: u128, keccak_time: u128, poseidon_time: u128) -> (r: Vec<
    String,
>)
    ensures
        texts_of(r@) == summary_text(sha_time as nat, keccak_time as nat, poseidon_time as nat),
{
    let mut lines = section_lines("Summary Comparison Table");
    add_line(&mut lines, String::new());
    add_line(&mut lines, table_row("Property", "SHA-256", "Keccak-256", "Poseidon"));
    let rule = repeat_text("-", TABLE_RULE_WIDTH);
    add_line(&mut lines, joined("  ", rule.as_str()));
    let sha_cell = millis_cell(sha_time);
    let keccak_cell = millis_cell(keccak_time);
    let poseidon_cell = millis_cell(poseidon_time);
    add_line(
        &mut lines,
        table_row("Speed", sha_cell.as_str(), keccak_cell.as_str(), poseidon_cell.as_str()),
    );
    add_line(
        &mut lines,
        table_row("SNARK Cost", "~25,000 constr.", "~150,000 constr.", "~100 constr."),
    );
    add_line(
        &mut lines,
        table_row("Ethereum Use", "Legacy systems", "Native (EVM)", "zkApps/Rollups"),
    );
    add_line(
        &mut lines,
        table_row("Best For", "General purpose", "Smart contracts", "Zero-knowledge"),
    );
    add_line(&mut lines, String::new());
    assert(texts_of(lines@) =~= summary_text(sha_time as nat, keccak_time as nat, poseidon_time as nat));
    lines
}

/// The whole report for a run of `iterations` calls per family.
pub fn report_lines(
    iterations: usize,
    sha: &BenchmarkResult,
    keccak: &BenchmarkResult,
    poseidon: &BenchmarkResult,
) -> (r: Vec<String>)
    ensures
        texts_of(r@) == report_text(iterations as nat, *sha, *keccak, *poseidon),
{
    let mut lines = header_lines(iterations);
    add_all(&mut lines, benchmark_lines(sha, keccak, poseidon));
    add_all(&mut lines, constraint_lines());
    add_all(&mut lines, use_case_lines());
    add_all(&mut lines, summary_table_lines(sha.millis, keccak.millis, poseidon.millis));
    lines
}

/// Whether line `i` of the report carries a measured time: the three
/// benchmark lines and the summary table's speed row.
pub open spec fn is_timing_line(i: int) -> bool {
    13 <= i <= 15 || i == 50
}

/// Two reports for the same iteration count have the same number of lines
/// and agree on every line that carries no measured time.
pub proof fn lemma_report_differs_only_in_timings(
    iterations: nat,
    sha: BenchmarkResult,
    keccak: BenchmarkResult,
    poseidon: BenchmarkResult,
    sha2: BenchmarkResult,
    keccak2: BenchmarkResult,
    poseidon2: BenchmarkResult,
)
    ensures
        report_text(iterations, sha, keccak, poseidon).len() == report_text(
            iterations,
            sha2,
            keccak2,
            poseidon2,
        ).len(),
        forall|i: int|
            0 <= i < report_text(iterations, sha, keccak, poseidon).len() && !is_timing_line(i)
                ==> #[trigger] report_text(iterations, sha, keccak, poseidon)[i] == report_text(
                iterations,
                sha2,
                keccak2,
                poseidon2,
            )[i],
{
    let r1 = report_text(iterations, sha, keccak, poseidon);
    let r2 = report_text(iterations, sha2, keccak2, poseidon2);
    let r = r1.update(13, benchmark_line_text("SHA-256   "@, sha2)).update(
        14,
        benchmark_line_text("Keccak-256"@, keccak2),
    ).update(15, benchmark_line_text("Poseidon  "@, poseidon2)).update(
        50,
        speed_row_text(sha2.millis as nat, keccak2.millis as nat, poseidon2.millis as nat),
    );
    assert(r1.len() == 55);
    assert(r =~= r2);
}

/// The report holds the four section headings, in this order: performance
/// benchmarks, constraint estimates, use cases, summary table.
pub proof fn lemma_report_section_order(
    iterations: nat,
    sha: BenchmarkResult,
    keccak: BenchmarkResult,
    poseidon: BenchmarkResult,
)
    ensures
        exists|i: int, j: int, k: int, l: int|
            0 <= i < j < k < l < report_text(iterations, sha, keccak, poseidon).len()
                && report_text(iterations, sha, keccak, poseidon)[i] == heading_text(
                "1. Performance Benchmarks"@,
            ) && report_text(iterations, sha, keccak, poseidon)[j] == heading_text(
                "2. SNARK Constraint Estimates"@,
            ) && report_text(iterations, sha, keccak, poseidon)[k] == heading_text(
                "Use Case Recommendations"@,
            ) && report_text(iterations, sha, keccak, poseidon)[l] == heading_text(
                "Summary Comparison Table"@,
            ),
{
    let r = report_text(iterations, sha, keccak, poseidon);
    assert(r[10] == heading_text("1. Performance Benchmarks"@));
    assert(r[17] == heading_text("2. SNARK Constraint Estimates"@));
    assert(r[26] == heading_text("Use Case Recommendations"@));
    assert(r[45] == heading_text("Summary Comparison Table"@));
}

} // verus!
