//! The board and piece model, the move-legality predicate and the
//! state-transition operation that applies a legal move.

use vstd::prelude::*;

verus! {

/// A piece is a (kind, side) pair. An empty square holds the sentinel
/// `Piece(Type::Empty, Colour::Empty)`; the intended invariant is that
/// the kind is `Empty` if and only if the side is (see [`Piece::wf`]).
#[derive(Copy, Clone, PartialEq, Eq, Structural)]
pub struct Piece(pub Type, pub Colour);

/// The closed enumeration of piece kinds, with a sentinel for an empty
/// square.
#[derive(Copy, Clone, PartialEq, Eq, Structural)]
pub enum Type {
    Rook,
    Knight,
    Bishop,
    King,
    Queen,
    Pawn,
    Empty,
}

/// The closed enumeration of sides, with a sentinel used only together
/// with the empty piece kind.
#[derive(Copy, Clone, PartialEq, Eq, Structural)]
pub enum Colour {
    White,
    Black,
    Empty,
}

impl Piece {
    /// A well-formed piece has no side exactly when it has no kind: an
    /// empty square has no colour.
    pub open spec fn wf(self) -> bool {
        self.0 == Type::Empty <==> self.1 == Colour::Empty
    }
}

/// The name the debug label uses for each piece kind.
pub open spec fn spec_type_name(t: Type) -> Seq<char> {
    match t {
        Type::Rook => "Rook"@,
        Type::Knight => "Knight"@,
        Type::Bishop => "Bishop"@,
        Type::King => "King"@,
        Type::Queen => "Queen"@,
        Type::Pawn => "Pawn"@,
        Type::Empty => "Piece"@,
    }
}

/// The name the debug label uses for each side.
pub open spec fn spec_colour_name(c: Colour) -> Seq<char> {
    match c {
        Colour::White => "White"@,
        Colour::Black => "Black"@,
        Colour::Empty => "Blank"@,
    }
}

/// The glyph that stands for each piece kind in the two-character
/// display form.
pub open spec fn spec_type_char(t: Type) -> char {
    match t {
        Type::Rook => 'I',
        Type::Knight => 'Z',
        Type::Bishop => 'T',
        Type::King => 'K',
        Type::Queen => 'Q',
        Type::Pawn => 'P',
        Type::Empty => ' ',
    }
}

/// The glyph that stands for each side in the two-character display
/// form.
pub open spec fn spec_colour_char(c: Colour) -> char {
    match c {
        Colour::White => ',',
        Colour::Black => '\'',
        Colour::Empty => ' ',
    }
}

impl Piece {
    /// A human-readable label: the side's name, a space, the kind's
    /// name ("White Bishop"; "Blank Piece" for an empty square).
    pub fn to_debug_string(&self) -> (r: String)
        ensures
            r@ == spec_colour_name(self.1) + " "@ + spec_type_name(self.0),
    {
        let which_type: &str = match self.0 {
            Type::Rook => "Rook",
            Type::Knight => "Knight",
            Type::Bishop => "Bishop",
            Type::King => "King",
            Type::Queen => "Queen",
            Type::Pawn => "Pawn",
            Type::Empty => "Piece",
        };
        let which_colour: &str = match self.1 {
            Colour::White => "White",
            Colour::Black => "Black",
            Colour::Empty => "Blank",
        };
        String::from_str(which_colour).concat(" ").concat(which_type)
    }

    /// The compact display form: one character for the side, one for
    /// the kind.
    pub fn to_string(&self) -> (r: (char, char))
        ensures
            r.0 == spec_colour_char(self.1),
            r.1 == spec_type_char(self.0),
    {
        let which_type: char = match self.0 {
            Type::Rook => 'I',
            Type::Knight => 'Z',
            Type::Bishop => 'T',
            Type::King => 'K',
            Type::Queen => 'Q',
            Type::Pawn => 'P',
            Type::Empty => ' ',
        };
        let which_colour: char = match self.1 {
            Colour::White => ',',
            Colour::Black => '\'',
            Colour::Empty => ' ',
        };
        (which_colour, which_type)
    }
}

/// The piece on `board` at a (file, rank) coordinate pair. Rows of the
/// grid are ranks, so the rank indexes first.
pub open spec fn at(board: [[Piece; 8]; 8], pos: (usize, usize)) -> Piece {
    board@[pos.1 as int]@[pos.0 as int]
}

/// Both coordinates of a (file, rank) pair lie on the board.
pub open spec fn in_bounds(pos: (usize, usize)) -> bool {
    pos.0 < 8 && pos.1 < 8
}

/// Every square of the board holds a well-formed piece.
pub open spec fn board_wf(board: [[Piece; 8]; 8]) -> bool {
    forall|p: (usize, usize)| in_bounds(p) ==> (#[trigger] at(board, p)).wf()
}

/// Every square of the rank `y` strictly between files `x1` and `x2`
/// is empty.
pub open spec fn rank_clear(board: [[Piece; 8]; 8], y: usize, x1: int, x2: int) -> bool {
    forall|x: int| x1 < x < x2 ==> board@[y as int]@[x].0 == Type::Empty
}

/// Every square of the file `x` strictly between ranks `y1` and `y2`
/// is empty.
pub open spec fn file_clear(board: [[Piece; 8]; 8], x: usize, y1: int, y2: int) -> bool {
    forall|y: int| y1 < y < y2 ==> board@[y]@[x as int].0 == Type::Empty
}

/// A rook's path from `move_from` to `move_to` is unobstructed: the
/// squares strictly between the two, along their shared rank or file,
/// are all empty. The shared rank is checked first, as the scan does,
/// so on a single square the path is trivially clear.
pub open spec fn rook_path_clear(
    board: [[Piece; 8]; 8],
    move_from: (usize, usize),
    move_to: (usize, usize),
) -> bool {
    let x1 = vstd::math::min(move_from.0 as int, move_to.0 as int);
    let x2 = vstd::math::max(move_from.0 as int, move_to.0 as int);
    let y1 = vstd::math::min(move_from.1 as int, move_to.1 as int);
    let y2 = vstd::math::max(move_from.1 as int, move_to.1 as int);
    if move_from.1 == move_to.1 {
        rank_clear(board, move_from.1, x1, x2)
    } else {
        file_clear(board, move_from.0, y1, y2)
    }
}

/// The (file, rank) offset from `move_from` to `move_to` is one of the
/// eight canonical knight jumps.
pub open spec fn knight_offset(move_from: (usize, usize), move_to: (usize, usize)) -> bool {
    let dx = move_to.0 - move_from.0;
    let dy = move_to.1 - move_from.1;
    ||| (dx == -1 && dy == -2)
    ||| (dx == 1 && dy == -2)
    ||| (dx == 2 && dy == -1)
    ||| (dx == 2 && dy == 1)
    ||| (dx == 1 && dy == 2)
    ||| (dx == -1 && dy == 2)
    ||| (dx == -2 && dy == 1)
    ||| (dx == -2 && dy == -1)
}

/// The move-legality rule. A rook may move along a clear rank or file;
/// a knight may jump by a canonical offset; neither may land on a
/// square held by its own side. The remaining kinds have no movement
/// rule yet, and an empty source square moves nowhere: for those the
/// predicate is false.
pub open spec fn spec_can_move(
    board: [[Piece; 8]; 8],
    move_from: (usize, usize),
    move_to: (usize, usize),
) -> bool {
    let piece = at(board, move_from);
    match piece.0 {
        Type::Rook => (move_from.0 == move_to.0 || move_from.1 == move_to.1)
            && rook_path_clear(board, move_from, move_to)
            && at(board, move_to).1 != piece.1,
        Type::Knight => knight_offset(move_from, move_to) && at(board, move_to).1 != piece.1,
        _ => false,
    }
}

/// Scans the squares strictly between `move_from` and `move_to` along
/// their shared rank (or, failing that, along the source file between
/// the two ranks) and returns the first occupied square, if any: the
/// blocking coordinate a path-blocked diagnostic would name. Returns
/// `None` exactly when the rook path is clear.
pub fn rook_path_blocker(
    board: &[[Piece; 8]; 8],
    move_from: (usize, usize),
    move_to: (usize, usize),
) -> (r: Option<(usize, usize)>)
    requires
        in_bounds(move_from),
        in_bounds(move_to),
    ensures
        r is None <==> rook_path_clear(*board, move_from, move_to),
        r matches Some(p) ==> in_bounds(p) && at(*board, p).0 != Type::Empty && (
            if move_from.1 == move_to.1 {
                p.1 == move_from.1
                    && vstd::math::min(move_from.0 as int, move_to.0 as int) < p.0
                    && p.0 < vstd::math::max(move_from.0 as int, move_to.0 as int)
                    && rank_clear(*board, move_from.1, vstd::math::min(move_from.0 as int, move_to.0 as int), p.0 as int)
            } else {
                p.0 == move_from.0
                    && vstd::math::min(move_from.1 as int, move_to.1 as int) < p.1
                    && p.1 < vstd::math::max(move_from.1 as int, move_to.1 as int)
                    && file_clear(*board, move_from.0, vstd::math::min(move_from.1 as int, move_to.1 as int), p.1 as int)
            }
        ),
{
    let (x1, x2) = crate::min_max(move_from.0, move_to.0);
    let (y1, y2) = crate::min_max(move_from.1, move_to.1);
    if move_from.1 == move_to.1 {
        let mut x: usize = x1 + 1;
        while x < x2
            invariant
                in_bounds(move_from),
                in_bounds(move_to),
                move_from.1 == move_to.1,
                x1 == vstd::math::min(move_from.0 as int, move_to.0 as int),
                x2 == vstd::math::max(move_from.0 as int, move_to.0 as int),
                x1 < x,
                rank_clear(*board, move_from.1, x1 as int, x as int),
            decreases x2 - x,
        {
            if board[move_from.1][x].0 != Type::Empty {
                return Some((x, move_from.1));
            }
            x = x + 1;
        }
        None
    } else {
        let mut y: usize = y1 + 1;
        while y < y2
            invariant
                in_bounds(move_from),
                in_bounds(move_to),
                move_from.1 != move_to.1,
                y1 == vstd::math::min(move_from.1 as int, move_to.1 as int),
                y2 == vstd::math::max(move_from.1 as int, move_to.1 as int),
                y1 < y,
                file_clear(*board, move_from.0, y1 as int, y as int),
            decreases y2 - y,
        {
            if board[y][move_from.0].0 != Type::Empty {
                return Some((move_from.0, y));
            }
            y = y + 1;
        }
        None
    }
}

/// Applies the move from `from_pos` to `to_pos` if it is legal: the
/// source square becomes empty and the moving piece lands on the
/// destination, overwriting whatever stood there. The result is
/// (moved, game over): `moved` says whether the move was legal and
/// applied, `game over` whether it captured a king of either side. An
/// illegal move leaves the board untouched.
pub fn move_to(
    board: &mut [[Piece; 8]; 8],
    from_pos: (usize, usize),
    to_pos: (usize, usize),
) -> (r: (bool, bool))
    requires
        in_bounds(from_pos),
        in_bounds(to_pos),
    ensures
        r.0 == spec_can_move(*old(board), from_pos, to_pos),
        r.1 == (r.0 && from_pos != to_pos && at(*old(board), to_pos).0 == Type::King),
        !r.0 ==> *final(board) == *old(board),
        r.0 ==> at(*final(board), to_pos) == at(*old(board), from_pos),
        (r.0 && from_pos != to_pos) ==> at(*final(board), from_pos) == (Piece(Type::Empty, Colour::Empty)),
        forall|p: (usize, usize)| in_bounds(p) && p != from_pos && p != to_pos
            ==> at(*final(board), p) == at(*old(board), p),
        board_wf(*old(board)) ==> board_wf(*final(board)),
{
    let empty_piece = Piece(Type::Empty, Colour::Empty);
    let piece: Piece = board[from_pos.1][from_pos.0];

    if can_move_to(board, &from_pos, &to_pos) {
        board[from_pos.1][from_pos.0] = empty_piece;

        // a king captured on the destination ends the game; the source
        // square was emptied first, so a move onto its own square
        // never counts its mover as captured
        let game_over: bool = board[to_pos.1][to_pos.0].0 == Type::King;

        board[to_pos.1][to_pos.0] = piece;

        proof {
            if board_wf(*old(board)) {
                assert(at(*old(board), from_pos).wf());
                assert forall|p: (usize, usize)| in_bounds(p) implies (#[trigger] at(
                    *board,
                    p,
                )).wf() by {
                    assert(at(*old(board), p).wf());
                }
            }
        }

        return (true, game_over);
    }

    (false, false)
}

/// The pure legality predicate: whether the piece standing on
/// `move_from` may move to `move_to` under its movement rule, as
/// [`spec_can_move`] states it. Bishop, king, queen and pawn have no
/// rule yet, so for them it returns false; likewise when `move_from`
/// holds no piece.
pub fn can_move_to(
    board: &[[Piece; 8]; 8],
    move_from: &(usize, usize),
    move_to: &(usize, usize),
) -> (r: bool)
    requires
        in_bounds(*move_from),
        in_bounds(*move_to),
    ensures
        r == spec_can_move(*board, *move_from, *move_to),
{
    let move_from = *move_from;
    let move_to = *move_to;

    let piece: Piece = board[move_from.1][move_from.0];

    match piece.0 {
        Type::Rook => {
            // the squares must share a file or a rank
            if !(move_from.0 == move_to.0 || move_from.1 == move_to.1) {
                return false;
            }

            // no piece may stand strictly between them
            if rook_path_blocker(board, move_from, move_to).is_some() {
                return false;
            }

            // no capture of the mover's own side
            if board[move_to.1][move_to.0].1 == piece.1 {
                return false;
            }

            true
        },
        Type::Knight => {
            // the offset must be one of the eight knight jumps
            let can_move: bool = (move_to.0 + 1 == move_from.0 && move_to.1 + 2 == move_from.1)
                || (move_from.0 + 1 == move_to.0 && move_to.1 + 2 == move_from.1)
                || (move_from.0 + 2 == move_to.0 && move_to.1 + 1 == move_from.1)
                || (move_from.0 + 2 == move_to.0 && move_from.1 + 1 == move_to.1)
                || (move_from.0 + 1 == move_to.0 && move_from.1 + 2 == move_to.1)
                || (move_to.0 + 1 == move_from.0 && move_from.1 + 2 == move_to.1)
                || (move_to.0 + 2 == move_from.0 && move_from.1 + 1 == move_to.1)
                || (move_to.0 + 2 == move_from.0 && move_to.1 + 1 == move_from.1);
            if !can_move {
                return false;
            }

            // no capture of the mover's own side
            if board[move_to.1][move_to.0].1 == piece.1 {
                return false;
            }

            true
        },
        _ => false,
    }
}

/// Whether the king on `king_position` is under attack. Attack
/// detection is an extension point not yet implemented: the predicate
/// is unconditionally false.
pub fn in_check(board: &[[Piece; 8]; 8], king_position: (usize, usize)) -> (r: bool)
    ensures
        r == false,
{
    false
}

/// Whether the king on `king_position` is under attack with no legal
/// move escaping it. Like [`in_check`], an extension point not yet
/// implemented: the predicate is unconditionally false.
pub fn in_checkmate(board: &[[Piece; 8]; 8], king_position: (usize, usize)) -> (r: bool)
    ensures
        r == false,
{
    false
}

/// A square with no piece on it can move nowhere: when the source
/// square is empty, no move out of it is legal.
pub proof fn lemma_empty_source_never_moves(
    board: [[Piece; 8]; 8],
    move_from: (usize, usize),
    move_to: (usize, usize),
)
    requires
        at(board, move_from).0 == Type::Empty,
    ensures
        !spec_can_move(board, move_from, move_to),
{
}

/// A rook on a clear rank or file may move: when the two squares share
/// a file or a rank, no piece stands strictly between them, and the
/// destination does not hold a piece of the rook's own side, the move
/// is legal.
pub proof fn lemma_rook_clear_line_moves(
    board: [[Piece; 8]; 8],
    move_from: (usize, usize),
    move_to: (usize, usize),
)
    requires
        at(board, move_from).0 == Type::Rook,
        move_from.0 == move_to.0 || move_from.1 == move_to.1,
        rook_path_clear(board, move_from, move_to),
        at(board, move_to).1 != at(board, move_from).1,
    ensures
        spec_can_move(board, move_from, move_to),
{
}

/// A rook's move along an obstructed rank or file is illegal, whatever
/// occupies the destination.
pub proof fn lemma_rook_blocked_path(
    board: [[Piece; 8]; 8],
    move_from: (usize, usize),
    move_to: (usize, usize),
)
    requires
        at(board, move_from).0 == Type::Rook,
        !rook_path_clear(board, move_from, move_to),
    ensures
        !spec_can_move(board, move_from, move_to),
{
}

/// A rook's move between squares that share neither a file nor a rank
/// is illegal.
pub proof fn lemma_rook_off_line_never_moves(
    board: [[Piece; 8]; 8],
    move_from: (usize, usize),
    move_to: (usize, usize),
)
    requires
        at(board, move_from).0 == Type::Rook,
        move_from.0 != move_to.0,
        move_from.1 != move_to.1,
    ensures
        !spec_can_move(board, move_from, move_to),
{
}

/// A knight's move is legal exactly when its (file, rank) offset is
/// one of the eight canonical jumps and the destination does not hold
/// a piece of the knight's own side. In particular a zero offset — a
/// "move" onto its own square — is illegal.
pub proof fn lemma_knight_move_characterised(
    board: [[Piece; 8]; 8],
    move_from: (usize, usize),
    move_to: (usize, usize),
)
    requires
        at(board, move_from).0 == Type::Knight,
    ensures
        spec_can_move(board, move_from, move_to) <==> (knight_offset(move_from, move_to)
            && at(board, move_to).1 != at(board, move_from).1),
        move_from == move_to ==> !spec_can_move(board, move_from, move_to),
{
}

/// Bishop, king, queen and pawn have no movement rule yet: any move of
/// such a piece is reported illegal.
pub proof fn lemma_unimplemented_kinds_never_move(
    board: [[Piece; 8]; 8],
    move_from: (usize, usize),
    move_to: (usize, usize),
)
    requires
        at(board, move_from).0 == Type::Bishop || at(board, move_from).0 == Type::King
            || at(board, move_from).0 == Type::Queen || at(board, move_from).0 == Type::Pawn,
    ensures
        !spec_can_move(board, move_from, move_to),
{
}

/// A legal move always changes square: its source and destination
/// differ. On a single square the destination holds the mover itself,
/// a piece of its own side, so the move is rejected. Hence, on a legal
/// move, [`move_to`] reports the game over exactly when the piece the
/// destination held before the move was a king.
pub proof fn lemma_legal_move_changes_square(
    board: [[Piece; 8]; 8],
    move_from: (usize, usize),
    move_to: (usize, usize),
)
    requires
        spec_can_move(board, move_from, move_to),
    ensures
        move_from != move_to,
{
    assert(move_from == move_to ==> at(board, move_from) == at(board, move_to));
}

} // verus!
