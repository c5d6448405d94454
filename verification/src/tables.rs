//! The four constant tables, and what it means for a table and its inverse
//! to be valid.
//!
//! A table is a sequence of small integers read as a function from index to
//! entry. The substitution tables act on nibble values `0..16`, the
//! permutation tables on bit positions `0..8`. Each table is a bijection of
//! its index range, and each comes with the table of the inverse function.

use vstd::prelude::*;

verus! {

/// Substitution table: nibble `x` is replaced by `S_BOX[x]`.
pub const S_BOX: [u8; 16] = [
    0x9, 0x4, 0xa, 0xb, 0xd, 0x1, 0x8, 0x5, 0x6, 0x2, 0x0, 0x3, 0xc, 0xe, 0xf, 0x7,
];

/// Inverse substitution table: nibble `y` is replaced by the `x` with
/// `S_BOX[x] == y`.
pub const RS_BOX: [u8; 16] = [
    0xa, 0x5, 0x9, 0xb, 0x1, 0x7, 0x8, 0xf, 0x6, 0x0, 0x2, 0x3, 0xc, 0x4, 0xd, 0xe,
];

/// Permutation table: bit `j` of a byte moves to bit `P_BOX[j]`.
pub const P_BOX: [u8; 8] = [0, 4, 1, 5, 2, 6, 3, 7];

/// Inverse permutation table: bit `d` of a byte moves back to the `j` with
/// `P_BOX[j] == d`.
pub const RP_BOX: [u8; 8] = [0, 2, 4, 6, 1, 3, 5, 7];

/// Every entry of `table` is itself an index into a table of that length.
pub open spec fn maps_into_range(table: Seq<u8>) -> bool {
    forall|i: int| 0 <= i < table.len() ==> (#[trigger] table[i]) < table.len()
}

/// Looking an index up in `table` and the entry found in `inverse` leads
/// back to the index.
pub open spec fn inverts(inverse: Seq<u8>, table: Seq<u8>) -> bool {
    &&& inverse.len() == table.len()
    &&& maps_into_range(table)
    &&& forall|i: int| 0 <= i < table.len() ==> inverse[(#[trigger] table[i]) as int] == i
}

/// Each of the two tables undoes the other.
pub open spec fn inverse_pair(table: Seq<u8>, inverse: Seq<u8>) -> bool {
    inverts(inverse, table) && inverts(table, inverse)
}

/// `table` maps its index range onto itself, and hits every value exactly
/// once.
pub open spec fn is_bijection(table: Seq<u8>) -> bool {
    &&& maps_into_range(table)
    &&& table.no_duplicates()
    &&& forall|value: u8| value < table.len() ==> #[trigger] table.contains(value)
}

/// Two tables that undo each other are both bijections.
pub proof fn lemma_inverse_pair_is_bijection(table: Seq<u8>, inverse: Seq<u8>)
    requires
        inverse_pair(table, inverse),
    ensures
        is_bijection(table),
        is_bijection(inverse),
{
    lemma_inverted_is_bijection(table, inverse);
    lemma_inverted_is_bijection(inverse, table);
}

/// A table that is undone by, and undoes, another table is a bijection.
proof fn lemma_inverted_is_bijection(table: Seq<u8>, inverse: Seq<u8>)
    requires
        inverts(inverse, table),
        inverts(table, inverse),
    ensures
        is_bijection(table),
{
    assert forall|i: int, j: int|
        0 <= i < table.len() && 0 <= j < table.len() && i != j implies table[i] != table[j] by {
        assert(inverse[table[i] as int] == i);
        assert(inverse[table[j] as int] == j);
    }
    assert forall|value: u8| value < table.len() implies #[trigger] table.contains(value) by {
        let i = inverse[value as int] as int;
        assert(table[i] == value);
    }
}

/// The substitution tables have sixteen entries each, are bijections of the
/// nibble values, and undo each other.
pub proof fn lemma_substitution_tables()
    ensures
        S_BOX@.len() == 16,
        RS_BOX@.len() == 16,
        inverse_pair(S_BOX@, RS_BOX@),
        is_bijection(S_BOX@),
        is_bijection(RS_BOX@),
{
    lemma_inverse_pair_is_bijection(S_BOX@, RS_BOX@);
}

/// The permutation tables have eight entries each, are bijections of the
/// bit positions, and undo each other.
pub proof fn lemma_permutation_tables()
    ensures
        P_BOX@.len() == 8,
        RP_BOX@.len() == 8,
        inverse_pair(P_BOX@, RP_BOX@),
        is_bijection(P_BOX@),
        is_bijection(RP_BOX@),
{
    lemma_inverse_pair_is_bijection(P_BOX@, RP_BOX@);
}

/// For every bit position `j`, `RP_BOX[P_BOX[j]] == j` and
/// `P_BOX[RP_BOX[j]] == j`.
pub proof fn lemma_p_box_inverse(j: int)
    requires
        0 <= j < 8,
    ensures
        P_BOX[j] < 8,
        RP_BOX[j] < 8,
        RP_BOX[P_BOX[j] as int] == j,
        P_BOX[RP_BOX[j] as int] == j,
{
}

/// For every nibble value `x`, `RS_BOX[S_BOX[x]] == x` and
/// `S_BOX[RS_BOX[x]] == x`.
pub proof fn lemma_s_box_inverse(x: int)
    requires
        0 <= x < 16,
    ensures
        S_BOX[x] < 16,
        RS_BOX[x] < 16,
        RS_BOX[S_BOX[x] as int] == x,
        S_BOX[RS_BOX[x] as int] == x,
{
}

/// Whether `inverse`, looked up after `table`, leads back to every index of
/// `table`.
fn check_inverts(inverse: &[u8], table: &[u8]) -> (ok: bool)
    ensures
        ok == inverts(inverse@, table@),
{
    let n: usize = table.len();
    if inverse.len() != n {
        return false;
    }
    for i in 0..n
        invariant
            n == table@.len(),
            n == inverse@.len(),
            forall|k: int| 0 <= k < i ==> (#[trigger] table@[k]) < n,
            forall|k: int| 0 <= k < i ==> inverse@[(#[trigger] table@[k]) as int] == k,
    {
        let entry: usize = table[i] as usize;
        if entry >= n {
            return false;
        }
        if inverse[entry] as usize != i {
            return false;
        }
    }
    true
}

/// Tells whether `table` and `inverse` are tables of two functions that undo
/// each other: the test a program runs on its tables before it relies on
/// them.
pub fn is_inverse_pair(table: &[u8], inverse: &[u8]) -> (ok: bool)
    ensures
        ok == inverse_pair(table@, inverse@),
{
    check_inverts(inverse, table) && check_inverts(table, inverse)
}

} // verus!
