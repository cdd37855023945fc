use hash_compare::constraints::{get_snark_constraints, same_text};

#[test]
fn known_families_have_literature_estimates() {
    assert_eq!(get_snark_constraints("SHA-256"), 25000);
    assert_eq!(get_snark_constraints("Keccak-256"), 150000);
    assert_eq!(get_snark_constraints("Poseidon"), 100);
}

#[test]
fn unknown_families_get_zero() {
    assert_eq!(get_snark_constraints(""), 0);
    assert_eq!(get_snark_constraints("sha-256"), 0);
    assert_eq!(get_snark_constraints("SHA-256 "), 0);
    assert_eq!(get_snark_constraints("Blake2s"), 0);
}

#[test]
fn same_text_compares_characters() {
    assert!(same_text("μs", "μs"));
    assert!(!same_text("ab", "abc"));
    assert!(!same_text("abd", "abc"));
    assert!(same_text("", ""));
}
