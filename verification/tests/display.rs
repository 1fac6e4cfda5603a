use chess_moves::piece::{Colour, Piece, Type};
use chess_moves::{max, min, min_max};

#[test]
fn debug_labels_join_side_and_kind() {
    assert_eq!(Piece(Type::Bishop, Colour::White).to_debug_string(), "White Bishop");
    assert_eq!(Piece(Type::Rook, Colour::Black).to_debug_string(), "Black Rook");
    assert_eq!(Piece(Type::Knight, Colour::White).to_debug_string(), "White Knight");
    assert_eq!(Piece(Type::King, Colour::Black).to_debug_string(), "Black King");
    assert_eq!(Piece(Type::Queen, Colour::White).to_debug_string(), "White Queen");
    assert_eq!(Piece(Type::Pawn, Colour::Black).to_debug_string(), "Black Pawn");
    assert_eq!(Piece(Type::Empty, Colour::Empty).to_debug_string(), "Blank Piece");
}

#[test]
fn display_form_encodes_side_and_kind() {
    assert_eq!(Piece(Type::Rook, Colour::White).to_string(), (',', 'I'));
    assert_eq!(Piece(Type::Knight, Colour::Black).to_string(), ('\'', 'Z'));
    assert_eq!(Piece(Type::Bishop, Colour::White).to_string(), (',', 'T'));
    assert_eq!(Piece(Type::King, Colour::Black).to_string(), ('\'', 'K'));
    assert_eq!(Piece(Type::Queen, Colour::White).to_string(), (',', 'Q'));
    assert_eq!(Piece(Type::Pawn, Colour::Black).to_string(), ('\'', 'P'));
    assert_eq!(Piece(Type::Empty, Colour::Empty).to_string(), (' ', ' '));
}

#[test]
fn ordering_utility_normalises_pairs() {
    assert_eq!(min(3, 5), 3);
    assert_eq!(min(5, 3), 3);
    assert_eq!(max(3, 5), 5);
    assert_eq!(max(5, 3), 5);
    assert_eq!(min_max(7, 1), (1, 7));
    assert_eq!(min_max(1, 7), (1, 7));
    assert_eq!(min_max(4, 4), (4, 4));
    assert_eq!(min_max(0, 0), (0, 0));
}
