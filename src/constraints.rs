//! Literature estimates of how many arithmetic-circuit constraints one hash
//! evaluation costs inside a zero-knowledge proof.

use vstd::prelude::*;

verus! {

/// The estimated constraint count for a hash family label; 0 for a label
/// that names no known family.
pub open spec fn snark_constraints_of(label: Seq<char>) -> usize {
    if label == "SHA-256"@ {
        25_000
    } else if label == "Keccak-256"@ {
        150_000
    } else if label == "Poseidon"@ {
        100
    } else {
        0
    }
}

/// Whether two strings hold the same characters.
pub fn same_text(a: &str, b: &str) -> (r: bool)
    ensures
        r == (a@ == b@),
{
    let n = a.unicode_len();
    if n != b.unicode_len() {
        return false;
    }
    let mut i: usize = 0;
    while i < n
        invariant
            n == a@.len(),
            n == b@.len(),
            i <= n,
            a@.take(i as int) == b@.take(i as int),
        decreases n - i,
    {
        if a.get_char(i) != b.get_char(i) {
            assert(a@[i as int] != b@[i as int]);
            return false;
        }
        assert(a@.take(i + 1) =~= a@.take(i as int).push(a@[i as int]));
        assert(b@.take(i + 1) =~= b@.take(i as int).push(b@[i as int]));
        i = i + 1;
    }
    assert(a@ =~= a@.take(n as int));
    assert(b@ =~= b@.take(n as int));
    true
}

/// Estimated constraint count of one evaluation of the named hash family:
/// "SHA-256" 25000, "Keccak-256" 150000, "Poseidon" 100, anything else 0.
pub fn get_snark_constraints(hash_type: &str) -> (r: usize)
    ensures
        r == snark_constraints_of(hash_type@),
{
    if same_text(hash_type, "SHA-256") {
        25_000
    } else if same_text(hash_type, "Keccak-256") {
        150_000
    } else if same_text(hash_type, "Poseidon") {
        100
    } else {
        0
    }
}

/// The lookup gives 25000, 150000 and 100 for the three family labels.
pub proof fn lemma_known_family_constraints()
    ensures
        snark_constraints_of("SHA-256"@) == 25_000,
        snark_constraints_of("Keccak-256"@) == 150_000,
        snark_constraints_of("Poseidon"@) == 100,
{
    reveal_strlit("SHA-256");
    reveal_strlit("Keccak-256");
    reveal_strlit("Poseidon");
    assert("Keccak-256"@.len() != "SHA-256"@.len());
    assert("Poseidon"@.len() != "SHA-256"@.len());
    assert("Poseidon"@.len() != "Keccak-256"@.len());
}

/// Any label other than the three family labels gets 0.
pub proof fn lemma_unknown_family_constraints(label: Seq<char>)
    requires
        label != "SHA-256"@,
        label != "Keccak-256"@,
        label != "Poseidon"@,
    ensures
        snark_constraints_of(label) == 0,
{
}

} // verus!
