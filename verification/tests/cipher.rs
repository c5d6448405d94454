use spn_cipher::cipher::{decipher, encipher};
use spn_cipher::permutation::{permutation, permutation_inv};
use spn_cipher::substitution::{substitution, substitution_inv};

fn hello_world() -> Vec<u8> {
    vec![72, 101, 108, 108, 111, 32, 119, 111, 114, 108, 100, 33]
}

#[test]
fn hello_world_is_twelve_ascii_bytes() {
    assert_eq!("Hello world!".as_bytes().to_vec(), hello_world());
    assert_eq!(hello_world().len(), 12);
}

#[test]
fn hello_world_survives_the_four_transforms() {
    let subst = substitution(hello_world());
    let perm = permutation(subst);
    let perm_inv = permutation_inv(perm);
    let subst_inv = substitution_inv(perm_inv);
    assert_eq!(
        subst_inv,
        vec![72, 101, 108, 108, 111, 32, 119, 111, 114, 108, 100, 33]
    );
}

#[test]
fn hello_world_enciphered() {
    assert_eq!(
        encipher(hello_world()),
        vec![158, 129, 162, 162, 147, 225, 15, 147, 60, 162, 163, 194]
    );
}

#[test]
fn hello_world_deciphered_again() {
    let cipher = vec![158, 129, 162, 162, 147, 225, 15, 147, 60, 162, 163, 194];
    assert_eq!(decipher(cipher), hello_world());
}

#[test]
fn inverse_permutation_undoes_only_the_permutation() {
    let cipher = encipher(hello_world());
    assert_eq!(
        permutation_inv(cipher),
        vec![214, 129, 140, 140, 135, 169, 85, 135, 90, 140, 141, 164]
    );
}

#[test]
fn inverses_in_the_forward_order_do_not_recover_hello_world() {
    let cipher = encipher(hello_world());
    let wrong = permutation_inv(substitution_inv(cipher));
    assert_ne!(wrong, hello_world());
    assert_eq!(wrong, vec![81, 57, 73, 73, 69, 179, 220, 69, 218, 73, 77, 225]);
}

#[test]
fn encipher_is_substitution_then_permutation() {
    let input: Vec<u8> = (0..=255u8).collect();
    assert_eq!(encipher(input.clone()), permutation(substitution(input.clone())));
    assert_ne!(encipher(input.clone()), substitution(permutation(input)));
}

#[test]
fn decipher_is_inverse_permutation_then_inverse_substitution() {
    let input: Vec<u8> = (0..=255u8).collect();
    assert_eq!(
        decipher(input.clone()),
        substitution_inv(permutation_inv(input))
    );
}

#[test]
fn cipher_round_trips_on_every_byte() {
    let input: Vec<u8> = (0..=255u8).collect();
    assert_eq!(decipher(encipher(input.clone())), input);
    assert_eq!(encipher(decipher(input.clone())), input);
}

#[test]
fn cipher_changes_the_sample_input() {
    assert_ne!(encipher(hello_world()), hello_world());
}

#[test]
fn cipher_keeps_the_length() {
    for n in [0usize, 1, 12, 255, 4096] {
        let input = vec![0x3cu8; n];
        assert_eq!(encipher(input.clone()).len(), n);
        assert_eq!(decipher(input).len(), n);
    }
}

#[test]
fn cipher_of_nothing_is_nothing() {
    assert_eq!(encipher(Vec::new()), Vec::<u8>::new());
    assert_eq!(decipher(Vec::new()), Vec::<u8>::new());
}
