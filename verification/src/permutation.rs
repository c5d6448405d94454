//! The permutation layer: every bit of a byte moves to the position that a
//! table assigns to it.

use crate::tables::{P_BOX, RP_BOX};
use vstd::prelude::*;

verus! {

/// Bit `j` of `byte`, as 0 or 1.
pub open spec fn bit_at(byte: u8, j: u8) -> u8 {
    (byte >> j) & 1
}

/// The byte assembled from bits `0..n` of `byte`, bit `j` placed at position
/// `table[j]`; all other positions are 0.
pub open spec fn place_bits(byte: u8, table: Seq<u8>, n: nat) -> u8
    decreases n,
{
    if n == 0 {
        0
    } else {
        let j = (n - 1) as nat;
        place_bits(byte, table, j) | (bit_at(byte, j as u8) << table[j as int])
    }
}

/// `byte` with its bits rearranged by `P_BOX`.
pub open spec fn spec_permute_byte(byte: u8) -> u8 {
    place_bits(byte, P_BOX@, 8)
}

/// `byte` with its bits rearranged by `RP_BOX`.
pub open spec fn spec_permute_byte_inv(byte: u8) -> u8 {
    place_bits(byte, RP_BOX@, 8)
}

/// The permutation layer over a byte sequence: byte by byte, in order.
pub open spec fn spec_permutation(input: Seq<u8>) -> Seq<u8> {
    input.map_values(|byte: u8| spec_permute_byte(byte))
}

/// The inverse permutation layer over a byte sequence: byte by byte, in
/// order.
pub open spec fn spec_permutation_inv(input: Seq<u8>) -> Seq<u8> {
    input.map_values(|byte: u8| spec_permute_byte_inv(byte))
}

/// All eight bits of `byte` spread out: bit 0 placed at position `d0`, bit 1
/// at `d1`, and so on.
pub open spec fn spread_bits(
    byte: u8,
    d0: u8,
    d1: u8,
    d2: u8,
    d3: u8,
    d4: u8,
    d5: u8,
    d6: u8,
    d7: u8,
) -> u8 {
    (bit_at(byte, 0) << d0) | (bit_at(byte, 1) << d1) | (bit_at(byte, 2) << d2)
        | (bit_at(byte, 3) << d3) | (bit_at(byte, 4) << d4) | (bit_at(byte, 5) << d5)
        | (bit_at(byte, 6) << d6) | (bit_at(byte, 7) << d7)
}

/// Bit `d0` of `to` is bit 0 of `from`, bit `d1` of `to` is bit 1 of `from`,
/// and so on.
spec fn bits_moved(from: u8, to: u8, d0: u8, d1: u8, d2: u8, d3: u8, d4: u8, d5: u8, d6: u8, d7: u8)
    -> bool {
    &&& bit_at(to, d0) == bit_at(from, 0)
    &&& bit_at(to, d1) == bit_at(from, 1)
    &&& bit_at(to, d2) == bit_at(from, 2)
    &&& bit_at(to, d3) == bit_at(from, 3)
    &&& bit_at(to, d4) == bit_at(from, 4)
    &&& bit_at(to, d5) == bit_at(from, 5)
    &&& bit_at(to, d6) == bit_at(from, 6)
    &&& bit_at(to, d7) == bit_at(from, 7)
}

/// Over all eight positions, `place_bits` is the eight bits spread out by
/// the first eight entries of the table.
proof fn lemma_place_bits_spread(byte: u8, table: Seq<u8>)
    ensures
        place_bits(byte, table, 8) == spread_bits(
            byte,
            table[0],
            table[1],
            table[2],
            table[3],
            table[4],
            table[5],
            table[6],
            table[7],
        ),
{
    reveal_with_fuel(place_bits, 9);
    let first = bit_at(byte, 0) << table[0];
    assert(0u8 | first == first) by (bit_vector);
}

/// The two permutations written out with the entries of their tables.
pub proof fn lemma_permute_byte_spread(byte: u8)
    ensures
        spec_permute_byte(byte) == spread_bits(byte, 0, 4, 1, 5, 2, 6, 3, 7),
        spec_permute_byte_inv(byte) == spread_bits(byte, 0, 2, 4, 6, 1, 3, 5, 7),
{
    lemma_place_bits_spread(byte, P_BOX@);
    lemma_place_bits_spread(byte, RP_BOX@);
}

/// Bit `P_BOX[j]` of the permuted byte is bit `j` of the byte, and bit
/// `RP_BOX[j]` of the inversely permuted byte is bit `j` of the byte. As
/// both tables are bijections of the bit positions, this fixes all eight
/// bits of each result.
pub proof fn lemma_permute_byte_bits(byte: u8, j: u8)
    requires
        j < 8,
    ensures
        bit_at(spec_permute_byte(byte), P_BOX[j as int]) == bit_at(byte, j),
        bit_at(spec_permute_byte_inv(byte), RP_BOX[j as int]) == bit_at(byte, j),
{
    lemma_permute_byte_spread(byte);
    assert(bits_moved(byte, spread_bits(byte, 0, 4, 1, 5, 2, 6, 3, 7), 0, 4, 1, 5, 2, 6, 3, 7))
        by (bit_vector);
    assert(bits_moved(byte, spread_bits(byte, 0, 2, 4, 6, 1, 3, 5, 7), 0, 2, 4, 6, 1, 3, 5, 7))
        by (bit_vector);
}

/// Permuting a byte and then permuting it back, or the other way round,
/// gives the byte back.
pub proof fn lemma_permute_byte_round_trip(byte: u8)
    ensures
        spec_permute_byte_inv(spec_permute_byte(byte)) == byte,
        spec_permute_byte(spec_permute_byte_inv(byte)) == byte,
{
    lemma_permute_byte_spread(byte);
    lemma_permute_byte_spread(spec_permute_byte(byte));
    lemma_permute_byte_spread(spec_permute_byte_inv(byte));
    assert(spread_bits(spread_bits(byte, 0, 4, 1, 5, 2, 6, 3, 7), 0, 2, 4, 6, 1, 3, 5, 7) == byte)
        by (bit_vector);
    assert(spread_bits(spread_bits(byte, 0, 2, 4, 6, 1, 3, 5, 7), 0, 4, 1, 5, 2, 6, 3, 7) == byte)
        by (bit_vector);
}

/// Permutation followed by inverse permutation is the identity on byte
/// sequences, and so is inverse permutation followed by permutation. The
/// empty sequence is included.
pub proof fn lemma_permutation_round_trip(input: Seq<u8>)
    ensures
        spec_permutation_inv(spec_permutation(input)) == input,
        spec_permutation(spec_permutation_inv(input)) == input,
{
    assert forall|i: int| 0 <= i < input.len() implies spec_permute_byte_inv(
        spec_permute_byte(#[trigger] input[i]),
    ) == input[i] && spec_permute_byte(spec_permute_byte_inv(input[i])) == input[i] by {
        lemma_permute_byte_round_trip(input[i]);
    }
    assert(spec_permutation_inv(spec_permutation(input)) =~= input);
    assert(spec_permutation(spec_permutation_inv(input)) =~= input);
}

/// Moves each bit `j` of `byte` to position `table[j]`.
fn place_all_bits(byte: u8, table: &[u8; 8]) -> (out: u8)
    requires
        forall|j: int| 0 <= j < 8 ==> (#[trigger] table@[j]) < 8,
    ensures
        out == place_bits(byte, table@, 8),
{
    let mut temp: u8 = 0;
    for j in 0..8u8
        invariant
            temp == place_bits(byte, table@, j as nat),
            forall|k: int| 0 <= k < 8 ==> (#[trigger] table@[k]) < 8,
    {
        let bit: u8 = (byte >> j) & 0x01;
        temp |= bit << table[j as usize];
    }
    temp
}

/// Rearranges the bits of one byte by `P_BOX`: bit `j` of `byte` becomes bit
/// `P_BOX[j]` of the result.
pub fn permute_byte(byte: u8) -> (out: u8)
    ensures
        out == spec_permute_byte(byte),
        forall|j: u8| j < 8 ==> bit_at(out, P_BOX[j as int]) == #[trigger] bit_at(byte, j),
{
    proof {
        assert forall|j: u8| j < 8 implies bit_at(spec_permute_byte(byte), P_BOX[j as int])
            == #[trigger] bit_at(byte, j) by {
            lemma_permute_byte_bits(byte, j);
        }
    }
    place_all_bits(byte, &P_BOX)
}

/// Rearranges the bits of one byte by `RP_BOX`: bit `j` of `byte` becomes
/// bit `RP_BOX[j]` of the result.
pub fn permute_byte_inv(byte: u8) -> (out: u8)
    ensures
        out == spec_permute_byte_inv(byte),
        forall|j: u8| j < 8 ==> bit_at(out, RP_BOX[j as int]) == #[trigger] bit_at(byte, j),
{
    proof {
        assert forall|j: u8| j < 8 implies bit_at(spec_permute_byte_inv(byte), RP_BOX[j as int])
            == #[trigger] bit_at(byte, j) by {
            lemma_permute_byte_bits(byte, j);
        }
    }
    place_all_bits(byte, &RP_BOX)
}

/// Permutes the bits of every byte of `input` by `P_BOX`. The result is a
/// new vector of the same length.
pub fn permutation(input: Vec<u8>) -> (output: Vec<u8>)
    ensures
        output@ == spec_permutation(input@),
        output.len() == input.len(),
{
    let mut output: Vec<u8> = vec![0u8; input.len()];
    for i in 0..input.len()
        invariant
            output.len() == input.len(),
            forall|k: int| 0 <= k < i ==> output[k] == spec_permute_byte(input[k]),
    {
        output[i] = permute_byte(input[i]);
    }
    output
}

/// Permutes the bits of every byte of `input` by `RP_BOX`. The result is a
/// new vector of the same length.
pub fn permutation_inv(input: Vec<u8>) -> (output: Vec<u8>)
    ensures
        output@ == spec_permutation_inv(input@),
        output.len() == input.len(),
{
    let mut output: Vec<u8> = vec![0u8; input.len()];
    for i in 0..input.len()
        invariant
            output.len() == input.len(),
            forall|k: int| 0 <= k < i ==> output[k] == spec_permute_byte_inv(input[k]),
    {
        output[i] = permute_byte_inv(input[i]);
    }
    output
}

} // verus!
