use rookie::errors::BoardError;

#[test]
fn board_corruption_keeps_the_message() {
    let BoardError::BoardCorruption(msg) = BoardError::board_corruption("two colors");
    assert_eq!(msg, "two colors");
}

#[test]
fn board_corruption_messages_are_distinguishable() {
    let BoardError::BoardCorruption(a) = BoardError::board_corruption("two colors");
    let BoardError::BoardCorruption(b) = BoardError::board_corruption("color with no piece");
    assert_ne!(a, b);
}
