//! A one-round, unkeyed substitution-permutation network over byte sequences.
//!
//! The substitution layer replaces each nibble of a byte through a fixed
//! 4-bit table; the permutation layer moves each bit of a byte to the
//! position a fixed table assigns to it. Both layers come with their exact
//! inverses, and every transform is a pure function from bytes to bytes.

pub mod cipher;
pub mod permutation;
pub mod substitution;
pub mod tables;
