use chess_attest::signing::signing_message;

#[test]
fn the_signed_message_is_the_exact_concatenation() {
    let match_id = [7u8; 32];
    let message = signing_message(&match_id, "board w - - 0 1", "e2e4");
    let mut expected = vec![7u8; 32];
    expected.extend_from_slice(b"board w - - 0 1");
    expected.extend_from_slice(b"e2e4");
    assert_eq!(message, expected);
}

#[test]
fn the_signed_message_binds_all_three_fields() {
    let first = signing_message(&[1u8; 32], "same board", "e2e4");
    let other_id = signing_message(&[2u8; 32], "same board", "e2e4");
    let other_board = signing_message(&[1u8; 32], "other board", "e2e4");
    let other_move = signing_message(&[1u8; 32], "same board", "d2d4");
    assert_ne!(first, other_id);
    assert_ne!(first, other_board);
    assert_ne!(first, other_move);
}
