use spn_cipher::permutation::{permutation, permutation_inv, permute_byte, permute_byte_inv};
use spn_cipher::tables::{P_BOX, RP_BOX};

#[test]
fn permute_byte_moves_each_single_bit_to_its_target() {
    assert_eq!(permute_byte(0x01), 0x01);
    assert_eq!(permute_byte(0x02), 0x10);
    assert_eq!(permute_byte(0x04), 0x02);
    assert_eq!(permute_byte(0x08), 0x20);
    assert_eq!(permute_byte(0x10), 0x04);
    assert_eq!(permute_byte(0x20), 0x40);
    assert_eq!(permute_byte(0x40), 0x08);
    assert_eq!(permute_byte(0x80), 0x80);
}

#[test]
fn permute_byte_inv_moves_each_single_bit_to_its_target() {
    assert_eq!(permute_byte_inv(0x01), 0x01);
    assert_eq!(permute_byte_inv(0x02), 0x04);
    assert_eq!(permute_byte_inv(0x04), 0x10);
    assert_eq!(permute_byte_inv(0x08), 0x40);
    assert_eq!(permute_byte_inv(0x10), 0x02);
    assert_eq!(permute_byte_inv(0x20), 0x08);
    assert_eq!(permute_byte_inv(0x40), 0x20);
    assert_eq!(permute_byte_inv(0x80), 0x80);
}

#[test]
fn permute_byte_exact_values() {
    assert_eq!(permute_byte(0x00), 0x00);
    assert_eq!(permute_byte(0xff), 0xff);
    assert_eq!(permute_byte(0x0f), 0x33);
    assert_eq!(permute_byte(0xf0), 0xcc);
    assert_eq!(permute_byte(0xaa), 0xf0);
    assert_eq!(permute_byte(0xd6), 0x9e);
}

#[test]
fn permute_byte_inv_exact_values() {
    assert_eq!(permute_byte_inv(0x00), 0x00);
    assert_eq!(permute_byte_inv(0xff), 0xff);
    assert_eq!(permute_byte_inv(0x33), 0x0f);
    assert_eq!(permute_byte_inv(0xcc), 0xf0);
    assert_eq!(permute_byte_inv(0xf0), 0xaa);
    assert_eq!(permute_byte_inv(0x9e), 0xd6);
}

#[test]
fn permute_byte_puts_bit_j_at_the_table_entry() {
    for byte in 0..=255u8 {
        let forth = permute_byte(byte);
        let back = permute_byte_inv(byte);
        for j in 0..8usize {
            assert_eq!((forth >> P_BOX[j]) & 1, (byte >> j) & 1);
            assert_eq!((back >> RP_BOX[j]) & 1, (byte >> j) & 1);
        }
    }
}

#[test]
fn permute_byte_keeps_the_number_of_set_bits() {
    for byte in 0..=255u8 {
        assert_eq!(permute_byte(byte).count_ones(), byte.count_ones());
        assert_eq!(permute_byte_inv(byte).count_ones(), byte.count_ones());
    }
}

#[test]
fn permute_byte_round_trips_on_every_byte() {
    for byte in 0..=255u8 {
        assert_eq!(permute_byte_inv(permute_byte(byte)), byte);
        assert_eq!(permute_byte(permute_byte_inv(byte)), byte);
    }
}

#[test]
fn permutation_of_hello_world() {
    let input = vec![72, 101, 108, 108, 111, 32, 119, 111, 114, 108, 100, 33];
    assert_eq!(
        permutation(input),
        vec![40, 75, 106, 106, 123, 64, 95, 123, 92, 106, 74, 65]
    );
}

#[test]
fn permutation_inv_of_hello_world() {
    let input = vec![72, 101, 108, 108, 111, 32, 119, 111, 114, 108, 100, 33];
    assert_eq!(
        permutation_inv(input),
        vec![96, 57, 120, 120, 125, 8, 63, 125, 46, 120, 56, 9]
    );
}

#[test]
fn permutation_works_byte_by_byte() {
    let input = vec![0x02, 0x0f, 0xaa, 0x02, 0x80];
    assert_eq!(permutation(input), vec![0x10, 0x33, 0xf0, 0x10, 0x80]);
}

#[test]
fn permutation_round_trips_on_a_sequence() {
    let input: Vec<u8> = (0..=255u8).collect();
    assert_eq!(permutation_inv(permutation(input.clone())), input);
    assert_eq!(permutation(permutation_inv(input.clone())), input);
}

#[test]
fn permutation_keeps_the_length() {
    for n in [0usize, 1, 2, 7, 64, 1000] {
        let input = vec![0xa5u8; n];
        assert_eq!(permutation(input.clone()).len(), n);
        assert_eq!(permutation_inv(input).len(), n);
    }
}

#[test]
fn permutation_of_nothing_is_nothing() {
    assert_eq!(permutation(Vec::new()), Vec::<u8>::new());
    assert_eq!(permutation_inv(Vec::new()), Vec::<u8>::new());
}
