//! The three hash adapters. Each maps an arbitrary byte sequence to a
//! 32-byte digest.

use vstd::prelude::*;
use crate::field::{packed_repr, repr_is_canonical, zero_repr, pack_input, lemma_zero_repr_canonical};
use sha2::Digest;
use tiny_keccak::Hasher;
use ff::PrimeField;

verus! {

/// The SHA-256 digest of a byte sequence.
pub uninterp spec fn sha256_of(data: Seq<u8>) -> Seq<u8>;

/// The Keccak-256 digest of a byte sequence.
pub uninterp spec fn keccak256_of(data: Seq<u8>) -> Seq<u8>;

/// The Poseidon digest (arity 2, standard strength, BLS12-381 scalar field)
/// of the field element whose canonical little-endian representation is `repr`,
/// written as that digest element's little-endian representation.
pub uninterp spec fn poseidon_of(repr: Seq<u8>) -> Seq<u8>;

/// Relies on sha2's `Sha256` (`Digest::new`, `update`, `finalize`): the
/// digest depends on the bytes alone and is 32 bytes long.
#[verifier::external_body]
fn sha256_digest(data: &[u8]) -> (r: Vec<u8>)
    ensures
        r@ == sha256_of(data@),
        r@.len() == 32,
{
    let mut hasher = sha2::Sha256::new();
    hasher.update(data);
    hasher.finalize().to_vec()
}

/// Relies on tiny_keccak's `Keccak::v256` with `update` and `finalize`: the
/// digest depends on the bytes alone and fills the 32-byte output.
#[verifier::external_body]
fn keccak256_digest(data: &[u8]) -> (r: Vec<u8>)
    ensures
        r@ == keccak256_of(data@),
        r@.len() == 32,
{
    let mut keccak = tiny_keccak::Keccak::v256();
    let mut output = [0u8; 32];
    keccak.update(data);
    keccak.finalize(&mut output);
    output.to_vec()
}

/// Relies on blstrs's `PrimeField::from_repr` for `Scalar`, which reads the
/// bytes as little-endian (`from_bytes_le`) and accepts them exactly when
/// blst's `blst_scalar_fr_check` finds the value below the modulus r.
#[verifier::external_body]
fn scalar_repr_accepted(repr: &[u8; 32]) -> (r: bool)
    ensures
        r == repr_is_canonical(repr@),
{
    bool::from(blstrs::Scalar::from_repr(*repr).is_some())
}

/// Relies on neptune's `Poseidon::<Scalar, U2>` (`PoseidonConstants::new`,
/// `Poseidon::new`, one `input`, `hash`): the digest depends on the input
/// element alone; `from_repr` and `to_repr` convert between the element and
/// its 32 little-endian bytes. One input never overfills an arity-2 sponge.
#[verifier::external_body]
fn poseidon_digest(repr: &[u8; 32]) -> (r: Vec<u8>)
    requires
        repr_is_canonical(repr@),
    ensures
        r@ == poseidon_of(repr@),
        r@.len() == 32,
{
    let element = blstrs::Scalar::from_repr(*repr).unwrap();
    let constants = neptune::poseidon::PoseidonConstants::<blstrs::Scalar, typenum::U2>::new();
    let mut p = neptune::Poseidon::<blstrs::Scalar, typenum::U2>::new(&constants);
    p.input(element).unwrap();
    p.hash().to_repr().to_vec()
}

/// The field representation that the Poseidon adapter hashes for `data`: the
/// packed input when it is canonical, else the zero element.
pub open spec fn poseidon_input_repr(data: Seq<u8>) -> Seq<u8> {
    if repr_is_canonical(packed_repr(data)) {
        packed_repr(data)
    } else {
        zero_repr()
    }
}

/// What the Poseidon adapter returns for `data`.
pub open spec fn poseidon_hash_of(data: Seq<u8>) -> Seq<u8> {
    poseidon_of(poseidon_input_repr(data))
}

/// SHA-256 digest of `data`.
pub fn hash_sha256(data: &[u8]) -> (r: Vec<u8>)
    ensures
        r@ == sha256_of(data@),
        r@.len() == 32,
{
    sha256_digest(data)
}

/// Keccak-256 digest of `data` (the original Keccak padding used by Ethereum).
pub fn hash_keccak256(data: &[u8]) -> (r: Vec<u8>)
    ensures
        r@ == keccak256_of(data@),
        r@.len() == 32,
{
    keccak256_digest(data)
}

/// Poseidon digest of `data`. The first 31 bytes are packed into one field
/// element; a packing that is not a valid element falls back to zero.
pub fn hash_poseidon(data: &[u8]) -> (r: Vec<u8>)
    ensures
        r@ == poseidon_hash_of(data@),
        r@.len() == 32,
{
    let packed = pack_input(data);
    if scalar_repr_accepted(&packed) {
        poseidon_digest(&packed)
    } else {
        proof {
            lemma_zero_repr_canonical();
        }
        let zero: [u8; 32] = [0u8; 32];
        assert(zero@ =~= zero_repr());
        poseidon_digest(&zero)
    }
}

/// Each adapter is a function of its input: equal inputs give equal digests.
pub proof fn lemma_adapters_deterministic(a: Seq<u8>, b: Seq<u8>)
    requires
        a == b,
    ensures
        sha256_of(a) == sha256_of(b),
        keccak256_of(a) == keccak256_of(b),
        poseidon_hash_of(a) == poseidon_hash_of(b),
{
}

/// The Poseidon adapter reads no more than the first 31 input bytes.
pub proof fn lemma_poseidon_reads_first_31_bytes(data: Seq<u8>)
    requires
        data.len() > 31,
    ensures
        poseidon_hash_of(data) == poseidon_hash_of(data.take(31)),
{
    assert(packed_repr(data) =~= packed_repr(data.take(31)));
}

/// An input whose packing is not a valid field element hashes exactly as the
/// all-zero representation does, and that representation is itself valid.
pub proof fn lemma_poseidon_invalid_falls_back_to_zero(data: Seq<u8>)
    requires
        !repr_is_canonical(packed_repr(data)),
    ensures
        poseidon_hash_of(data) == poseidon_of(zero_repr()),
        repr_is_canonical(zero_repr()),
{
    lemma_zero_repr_canonical();
}

} // verus!
