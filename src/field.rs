//! Byte-level model of BLS12-381 scalar field elements and the packing of
//! arbitrary input bytes into one canonical field representation.

use vstd::prelude::*;

verus! {

/// Number of bytes in the little-endian representation of a scalar.
pub const REPR_LEN: usize = 32;

/// Number of input bytes packed into one scalar: 31 bytes always stay
/// below the 255-bit modulus.
pub const PACKED_INPUT_LEN: usize = 31;

/// The unsigned integer that `b` encodes in little-endian byte order.
pub open spec fn le_value(b: Seq<u8>) -> nat
    decreases b.len(),
{
    if b.len() == 0 {
        0
    } else {
        b[0] as nat + 256 * le_value(b.drop_first())
    }
}

/// The order r of the BLS12-381 scalar field,
/// 0x73eda753299d7d483339d80809a1d80553bda402fffe5bfeffffffff00000001.
pub open spec fn scalar_modulus() -> nat {
    let w: nat = 0x1_0000_0000_0000_0000;
    (0x73ed_a753_299d_7d48nat * w * w * w + 0x3339_d808_09a1_d805nat * w * w
        + 0x53bd_a402_fffe_5bfenat * w + 0xffff_ffff_0000_0001nat) as nat
}

/// A 32-byte little-endian representation of an element of the scalar field,
/// i.e. one whose value lies below the modulus.
pub open spec fn repr_is_canonical(b: Seq<u8>) -> bool {
    b.len() == REPR_LEN && le_value(b) < scalar_modulus()
}

/// The representation of the zero element: 32 zero bytes.
pub open spec fn zero_repr() -> Seq<u8> {
    Seq::new(REPR_LEN as nat, |j: int| 0u8)
}

/// How many input bytes take part in the packed representation.
pub open spec fn packed_len(data: Seq<u8>) -> int {
    if data.len() < PACKED_INPUT_LEN {
        data.len() as int
    } else {
        PACKED_INPUT_LEN as int
    }
}

/// The packing of `data` into 32 bytes: byte 0 is zero, bytes 1 to 31 hold
/// the first 31 input bytes in order, and the rest is zero-filled.
pub open spec fn packed_repr(data: Seq<u8>) -> Seq<u8> {
    Seq::new(
        REPR_LEN as nat,
        |j: int|
            if 1 <= j && j <= packed_len(data) {
                data[j - 1]
            } else {
                0u8
            },
    )
}

/// A sequence of zero bytes encodes zero.
pub proof fn lemma_zero_bytes_value(b: Seq<u8>)
    requires
        forall|j: int| 0 <= j < b.len() ==> b[j] == 0,
    ensures
        le_value(b) == 0,
    decreases b.len(),
{
    if b.len() > 0 {
        lemma_zero_bytes_value(b.drop_first());
    }
}

/// The zero representation is canonical.
pub proof fn lemma_zero_repr_canonical()
    ensures
        repr_is_canonical(zero_repr()),
{
    lemma_zero_bytes_value(zero_repr());
}

/// Packs the first 31 bytes of `data` into a 32-byte scalar representation
/// (see `packed_repr`).
pub fn pack_input(data: &[u8]) -> (r: [u8; 32])
    ensures
        r@ == packed_repr(data@),
{
    let n: usize = if data.len() < PACKED_INPUT_LEN {
        data.len()
    } else {
        PACKED_INPUT_LEN
    };
    let mut bytes: [u8; 32] = [0u8; 32];
    let mut i: usize = 0;
    while i < n
        invariant
            n == packed_len(data@),
            n <= PACKED_INPUT_LEN,
            i <= n,
            bytes@.len() == REPR_LEN,
            forall|j: int|
                0 <= j < REPR_LEN ==> #[trigger] bytes@[j] == (if 1 <= j && j <= i {
                    data@[j - 1]
                } else {
                    0u8
                }),
        decreases n - i,
    {
        bytes[i + 1] = data[i];
        i = i + 1;
    }
    assert(bytes@ =~= packed_repr(data@));
    bytes
}

} // verus!
