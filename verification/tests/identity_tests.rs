use chess_attest::identity::derive_match_id;
use sha2::{Digest as _, Sha256};

#[test]
fn match_id_is_deterministic() {
    let whites = vec![2u8; 33];
    let blacks = vec![3u8; 33];
    let nonce = 1u128.to_le_bytes();
    let first = derive_match_id(&whites, &blacks, &nonce);
    let second = derive_match_id(&whites, &blacks, &nonce);
    assert_eq!(first, second);
}

#[test]
fn match_id_is_the_digest_of_the_concatenation() {
    let whites = vec![2u8; 33];
    let blacks = vec![3u8; 33];
    let nonce = 1u128.to_le_bytes();
    let parts = [whites.as_slice(), blacks.as_slice(), &nonce].concat();
    let expected: [u8; 32] = Sha256::digest(&parts).into();
    assert_eq!(derive_match_id(&whites, &blacks, &nonce), expected);
}

#[test]
fn different_nonces_give_different_ids() {
    let whites = vec![2u8; 33];
    let blacks = vec![3u8; 33];
    let first = derive_match_id(&whites, &blacks, &1u128.to_le_bytes());
    let second = derive_match_id(&whites, &blacks, &2u128.to_le_bytes());
    assert_ne!(first, second);
}

#[test]
fn swapped_players_give_a_different_id() {
    let whites = vec![2u8; 33];
    let blacks = vec![3u8; 33];
    let nonce = 1u128.to_le_bytes();
    let first = derive_match_id(&whites, &blacks, &nonce);
    let second = derive_match_id(&blacks, &whites, &nonce);
    assert_ne!(first, second);
}
