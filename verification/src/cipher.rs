//! The two layers composed: substitution then permutation to encipher, and
//! the inverses in the opposite order to decipher.

use crate::permutation::{
    lemma_permutation_round_trip, lemma_permute_byte_spread, permutation, permutation_inv,
    spec_permutation, spec_permutation_inv, spread_bits,
};
use crate::substitution::{
    high_nibble, join_nibbles, lemma_substitution_round_trip, low_nibble, spec_sub_byte,
    spec_sub_byte_inv, spec_substitution, spec_substitution_inv, substitution, substitution_inv,
};
use vstd::prelude::*;

verus! {

/// The forward pass: substitution, then permutation.
pub open spec fn spec_encipher(input: Seq<u8>) -> Seq<u8> {
    spec_permutation(spec_substitution(input))
}

/// The reverse pass: inverse permutation, then inverse substitution.
pub open spec fn spec_decipher(input: Seq<u8>) -> Seq<u8> {
    spec_substitution_inv(spec_permutation_inv(input))
}

/// Deciphering what was enciphered gives the input back, and enciphering
/// what was deciphered does too. The layers are undone in the opposite
/// order of their application.
pub proof fn lemma_cipher_round_trip(input: Seq<u8>)
    ensures
        spec_decipher(spec_encipher(input)) == input,
        spec_encipher(spec_decipher(input)) == input,
{
    lemma_permutation_round_trip(spec_substitution(input));
    lemma_substitution_round_trip(input);
    lemma_substitution_round_trip(spec_permutation_inv(input));
    lemma_permutation_round_trip(input);
}

/// The inverse layers have to be applied in the opposite order of the
/// forward pass: there is an input that inverse substitution followed by
/// inverse permutation does not recover from its enciphered form.
pub proof fn lemma_inverse_order_matters()
    ensures
        exists|input: Seq<u8>|
            spec_permutation_inv(spec_substitution_inv(#[trigger] spec_encipher(input))) != input,
{
    let input = seq![0x00u8];
    assert(high_nibble(0x00) == 0x0 && low_nibble(0x00) == 0x0 && join_nibbles(0x9, 0x9) == 0x99)
        by (bit_vector);
    assert(spec_sub_byte(0x00) == 0x99);
    lemma_permute_byte_spread(0x99);
    assert(spread_bits(0x99, 0, 4, 1, 5, 2, 6, 3, 7) == 0xa5) by (bit_vector);
    assert(spec_encipher(input)[0] == 0xa5);
    assert(high_nibble(0xa5) == 0xa && low_nibble(0xa5) == 0x5 && join_nibbles(0x2, 0x7) == 0x27)
        by (bit_vector);
    assert(spec_sub_byte_inv(0xa5) == 0x27);
    lemma_permute_byte_spread(0x27);
    assert(spread_bits(0x27, 0, 2, 4, 6, 1, 3, 5, 7) == 0x1d) by (bit_vector);
    let misordered = spec_permutation_inv(spec_substitution_inv(spec_encipher(input)));
    assert(misordered[0] == 0x1d);
    assert(misordered != input);
}

/// On the empty sequence every layer, and with them both passes, give the
/// empty sequence.
pub proof fn lemma_empty_input()
    ensures
        spec_substitution(Seq::empty()) == Seq::<u8>::empty(),
        spec_substitution_inv(Seq::empty()) == Seq::<u8>::empty(),
        spec_permutation(Seq::empty()) == Seq::<u8>::empty(),
        spec_permutation_inv(Seq::empty()) == Seq::<u8>::empty(),
        spec_encipher(Seq::empty()) == Seq::<u8>::empty(),
        spec_decipher(Seq::empty()) == Seq::<u8>::empty(),
{
}

/// Enciphers `input`: substitution, then permutation.
pub fn encipher(input: Vec<u8>) -> (output: Vec<u8>)
    ensures
        output@ == spec_encipher(input@),
        output.len() == input.len(),
{
    permutation(substitution(input))
}

/// Deciphers `input`: inverse permutation, then inverse substitution.
pub fn decipher(input: Vec<u8>) -> (output: Vec<u8>)
    ensures
        output@ == spec_decipher(input@),
        output.len() == input.len(),
{
    substitution_inv(permutation_inv(input))
}

} // verus!
