//! The substitution layer: each byte is split into its two nibbles, each
//! nibble is replaced through a table, and the results are joined again.

use crate::tables::{lemma_s_box_inverse, RS_BOX, S_BOX};
use vstd::prelude::*;

verus! {

/// Bits 4 to 7 of `byte`, as a value in `0..16`.
pub open spec fn high_nibble(byte: u8) -> u8 {
    byte >> 4
}

/// Bits 0 to 3 of `byte`, as a value in `0..16`.
pub open spec fn low_nibble(byte: u8) -> u8 {
    byte & 0x0f
}

/// The byte with `high` in bits 4 to 7 and `low` in bits 0 to 3.
pub open spec fn join_nibbles(high: u8, low: u8) -> u8 {
    (high << 4) | low
}

/// The nibble that `S_BOX` puts in place of nibble `x`.
pub open spec fn spec_sub_nibble(x: u8) -> u8
    recommends
        x < 16,
{
    S_BOX[x as int]
}

/// The nibble that `RS_BOX` puts in place of nibble `x`.
pub open spec fn spec_sub_nibble_inv(x: u8) -> u8
    recommends
        x < 16,
{
    RS_BOX[x as int]
}

/// `byte` with each of its nibbles replaced through `S_BOX`.
pub open spec fn spec_sub_byte(byte: u8) -> u8 {
    join_nibbles(spec_sub_nibble(high_nibble(byte)), spec_sub_nibble(low_nibble(byte)))
}

/// `byte` with each of its nibbles replaced through `RS_BOX`.
pub open spec fn spec_sub_byte_inv(byte: u8) -> u8 {
    join_nibbles(spec_sub_nibble_inv(high_nibble(byte)), spec_sub_nibble_inv(low_nibble(byte)))
}

/// The substitution layer over a byte sequence: byte by byte, in order.
pub open spec fn spec_substitution(input: Seq<u8>) -> Seq<u8> {
    input.map_values(|byte: u8| spec_sub_byte(byte))
}

/// The inverse substitution layer over a byte sequence: byte by byte, in
/// order.
pub open spec fn spec_substitution_inv(input: Seq<u8>) -> Seq<u8> {
    input.map_values(|byte: u8| spec_sub_byte_inv(byte))
}

/// The two nibbles of a byte are nibble values, their numeric reading is
/// quotient and remainder by 16, and joined they give the byte back.
pub proof fn lemma_split_nibbles(byte: u8)
    by (bit_vector)
    ensures
        high_nibble(byte) == byte / 16,
        low_nibble(byte) == byte % 16,
        high_nibble(byte) < 16,
        low_nibble(byte) < 16,
        join_nibbles(high_nibble(byte), low_nibble(byte)) == byte,
{
}

/// A byte joined from two nibble values is `16 * high + low` and has exactly
/// those two nibbles.
pub proof fn lemma_join_nibbles(high: u8, low: u8)
    by (bit_vector)
    requires
        high < 16,
        low < 16,
    ensures
        join_nibbles(high, low) == 16 * high + low,
        high_nibble(join_nibbles(high, low)) == high,
        low_nibble(join_nibbles(high, low)) == low,
{
}

/// Substituting a nibble and then substituting back, or the other way
/// round, gives the nibble back; both substitutions stay within the nibble
/// values.
pub proof fn lemma_sub_nibble_round_trip(x: u8)
    requires
        x < 16,
    ensures
        spec_sub_nibble(x) < 16,
        spec_sub_nibble_inv(x) < 16,
        spec_sub_nibble_inv(spec_sub_nibble(x)) == x,
        spec_sub_nibble(spec_sub_nibble_inv(x)) == x,
{
    lemma_s_box_inverse(x as int);
}

/// Substituting a byte and then substituting back, or the other way round,
/// gives the byte back.
pub proof fn lemma_sub_byte_round_trip(byte: u8)
    ensures
        spec_sub_byte_inv(spec_sub_byte(byte)) == byte,
        spec_sub_byte(spec_sub_byte_inv(byte)) == byte,
{
    let high = high_nibble(byte);
    let low = low_nibble(byte);
    lemma_split_nibbles(byte);
    lemma_sub_nibble_round_trip(high);
    lemma_sub_nibble_round_trip(low);
    lemma_join_nibbles(spec_sub_nibble(high), spec_sub_nibble(low));
    lemma_join_nibbles(spec_sub_nibble_inv(high), spec_sub_nibble_inv(low));
}

/// Substitution followed by inverse substitution is the identity on byte
/// sequences, and so is inverse substitution followed by substitution. The
/// empty sequence is included.
pub proof fn lemma_substitution_round_trip(input: Seq<u8>)
    ensures
        spec_substitution_inv(spec_substitution(input)) == input,
        spec_substitution(spec_substitution_inv(input)) == input,
{
    assert forall|i: int| 0 <= i < input.len() implies spec_sub_byte_inv(
        spec_sub_byte(#[trigger] input[i]),
    ) == input[i] && spec_sub_byte(spec_sub_byte_inv(input[i])) == input[i] by {
        lemma_sub_byte_round_trip(input[i]);
    }
    assert(spec_substitution_inv(spec_substitution(input)) =~= input);
    assert(spec_substitution(spec_substitution_inv(input)) =~= input);
}

/// Replaces one nibble through `S_BOX`.
pub fn sub_nibble(x: u8) -> (y: u8)
    requires
        x < 16,
    ensures
        y == spec_sub_nibble(x),
        y < 16,
{
    S_BOX[x as usize]
}

/// Replaces one nibble through `RS_BOX`.
pub fn sub_nibble_inv(x: u8) -> (y: u8)
    requires
        x < 16,
    ensures
        y == spec_sub_nibble_inv(x),
        y < 16,
{
    RS_BOX[x as usize]
}

/// Replaces both nibbles of one byte through `S_BOX`.
pub fn sub_byte(byte: u8) -> (out: u8)
    ensures
        out == spec_sub_byte(byte),
{
    let t1: u8 = (byte & 0xf0) >> 4;
    let t2: u8 = byte & 0x0f;
    assert(t1 == high_nibble(byte) && t1 < 16 && t2 < 16) by (bit_vector)
        requires
            t1 == (byte & 0xf0) >> 4,
            t2 == byte & 0x0f,
    ;
    (sub_nibble(t1) << 4) | sub_nibble(t2)
}

/// Replaces both nibbles of one byte through `RS_BOX`.
pub fn sub_byte_inv(byte: u8) -> (out: u8)
    ensures
        out == spec_sub_byte_inv(byte),
{
    let t1: u8 = (byte & 0xf0) >> 4;
    let t2: u8 = byte & 0x0f;
    assert(t1 == high_nibble(byte) && t1 < 16 && t2 < 16) by (bit_vector)
        requires
            t1 == (byte & 0xf0) >> 4,
            t2 == byte & 0x0f,
    ;
    (sub_nibble_inv(t1) << 4) | sub_nibble_inv(t2)
}

/// Substitutes every byte of `input` through `S_BOX`, nibble by nibble. The
/// result is a new vector of the same length.
pub fn substitution(input: Vec<u8>) -> (output: Vec<u8>)
    ensures
        output@ == spec_substitution(input@),
        output.len() == input.len(),
{
    let mut output: Vec<u8> = vec![0u8; input.len()];
    for i in 0..input.len()
        invariant
            output.len() == input.len(),
            forall|k: int| 0 <= k < i ==> output[k] == spec_sub_byte(input[k]),
    {
        output[i] = sub_byte(input[i]);
    }
    output
}

/// Substitutes every byte of `input` through `RS_BOX`, nibble by nibble. The
/// result is a new vector of the same length.
pub fn substitution_inv(input: Vec<u8>) -> (output: Vec<u8>)
    ensures
        output@ == spec_substitution_inv(input@),
        output.len() == input.len(),
{
    let mut output: Vec<u8> = vec![0u8; input.len()];
    for i in 0..input.len()
        invariant
            output.len() == input.len(),
            forall|k: int| 0 <= k < i ==> output[k] == spec_sub_byte_inv(input[k]),
    {
        output[i] = sub_byte_inv(input[i]);
    }
    output
}

} // verus!
