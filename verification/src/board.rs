use vstd::prelude::*;
use crate::piece::Piece;
use crate::piece::PieceKind;
use crate::square::Color;
use crate::square::File;
use crate::square::Square;
use crate::square::file_index;
use crate::square::file_of;
use crate::square::osv;
use crate::square::other_color;
use crate::square::rank_of;
use crate::square::square_at;
use crate::moves::Move;
use crate::setup::back_rank;
use crate::setup::first_bishop_index;
use crate::setup::first_knight_index;
use crate::setup::king_index;
use crate::setup::kings_rook_index;
use crate::setup::queen_index;
use crate::setup::queens_rook_index;
use crate::setup::second_bishop_index;
use crate::setup::second_knight_index;
use crate::square::file_with_index;

verus! {

/// The four castling permissions, one per side of the board and color.
#[derive(Copy, Clone, Debug, PartialEq, Eq, Structural)]
pub enum CastlingRights {
    /// White can castle kingside
    WhiteKingside,
    /// White can castle queenside
    WhiteQueenside,
    /// Black can castle kingside
    BlackKingside,
    /// Black can castle queenside
    BlackQueenside,
}

/// The current truth value of each of the four castling permissions.
#[derive(Copy, Clone, Debug, PartialEq, Eq, Structural)]
pub struct CastlingSet {
    pub white_kingside: bool,
    pub white_queenside: bool,
    pub black_kingside: bool,
    pub black_queenside: bool,
}

/// The errors that move application and undo can report.
#[derive(Copy, Clone, Debug, PartialEq, Eq, Structural)]
pub enum MoveError {
    /// The origin square is empty or holds a piece other than the declared mover,
    WrongMover,
    /// Some other validation of the move against the board failed: the
    /// destination contents do not match the declared capture, or a special
    /// move's squares are not laid out as the move claims.
    WrongCapture,
    /// Undo was requested with an empty history.
    NothingToUndo,
    /// The board no longer matches what the recorded move must have produced.
    CorruptUndo,
}

/// The per-move snapshot of the scalar state that a move overwrites,
/// kept so that undo can restore it exactly.
#[derive(Copy, Clone, Debug, PartialEq, Eq)]
pub struct UndoInfo {
    pub en_passant_square: Option<Square>,
    pub castling: CastlingSet,
    pub halfmove_count: u16,
    pub move_number: u16,
    pub white_king: Square,
    pub black_king: Square,
}

/// The mathematical value of an [`UndoInfo`].
pub ghost struct UndoInfoV {
    pub en_passant_square: Option<int>,
    pub castling: CastlingSet,
    pub halfmove_count: u16,
    pub move_number: u16,
    pub white_king: int,
    pub black_king: int,
}

impl View for UndoInfo {
    type V = UndoInfoV;

    closed spec fn view(&self) -> UndoInfoV {
        UndoInfoV {
            en_passant_square: osv(self.en_passant_square),
            castling: self.castling,
            halfmove_count: self.halfmove_count,
            move_number: self.move_number,
            white_king: self.white_king@,
            black_king: self.black_king@,
        }
    }
}

/// The mathematical value of a [`Board`]: each field as a plain value,
/// squares indexed `file + 8 * rank` from 0 to 63.
#[verifier::ext_equal]
pub ghost struct BoardView {
    pub squares: Seq<Option<Piece>>,
    pub side_to_move: Color,
    pub move_number: u16,
    pub halfmove_count: u16,
    pub en_passant_square: Option<int>,
    pub white_king: int,
    pub black_king: int,
    pub castling: CastlingSet,
    pub initial_king_file: File,
    pub initial_queens_rook_file: File,
    pub initial_kings_rook_file: File,
    pub moves_done: Seq<Move>,
    pub undo_infos: Seq<UndoInfoV>,
}

/// Validity of a board value: 64 squares, one undo snapshot per recorded
/// move, and the three recorded starting files in strictly increasing order
/// (queenside rook, then king, then kingside rook).
pub open spec fn board_inv(v: BoardView) -> bool {
    &&& v.squares.len() == 64
    &&& v.moves_done.len() == v.undo_infos.len()
    &&& file_index(v.initial_queens_rook_file) < file_index(v.initial_king_file) < file_index(
        v.initial_kings_rook_file,
    )
}

/// The home rank of a color: 0 for White, 7 for Black.
pub open spec fn back_rank_of(c: Color) -> int {
    match c {
        Color::White => 0,
        Color::Black => 7,
    }
}

/// Both of the move's squares are on the board.
pub open spec fn move_in_bounds(m: Move) -> bool {
    &&& 0 <= m.from@ < 64
    &&& 0 <= m.to@ < 64
}

/// The piece that ends up on the destination of a normal move:
/// the promoted piece if the move promotes, else the mover itself.
pub open spec fn placed_piece(m: Move) -> Piece {
    match m.promoted_to {
        Some(k) => Piece { kind: k, color: m.moving_piece.color },
        None => m.moving_piece,
    }
}

/// The piece restored to the origin when a move is undone: a pawn of the
/// mover's color if the move promoted, else the mover itself.
pub open spec fn unpromoted_piece(m: Move) -> Piece {
    match m.promoted_to {
        Some(_) => Piece { kind: PieceKind::Pawn, color: m.moving_piece.color },
        None => m.moving_piece,
    }
}

/// A pawn advance of exactly two ranks on one file (16 in square encoding).
pub open spec fn is_double_push(m: Move) -> bool {
    &&& m.moving_piece.kind == PieceKind::Pawn
    &&& (m.to@ - m.from@ == 16 || m.from@ - m.to@ == 16)
}

/// The square an en-passant capture removes a pawn from: the destination's
/// file on the origin's rank.
pub open spec fn ep_capture_square(m: Move) -> int {
    square_at(file_of(m.to@), rank_of(m.from@))
}

/// Whether a castling move is to the kingside (destination on the g-file).
pub open spec fn is_kingside(m: Move) -> bool {
    file_of(m.to@) == 6
}

/// The square the castling rook starts on, from the recorded initial files.
pub open spec fn castle_rook_from(v: BoardView, m: Move) -> int {
    let c = m.moving_piece.color;
    if is_kingside(m) {
        square_at(file_index(v.initial_kings_rook_file), back_rank_of(c))
    } else {
        square_at(file_index(v.initial_queens_rook_file), back_rank_of(c))
    }
}

/// The square the castling rook lands on: beside the king, on the f-file
/// for kingside castling and the d-file for queenside.
pub open spec fn castle_rook_to(m: Move) -> int {
    let c = m.moving_piece.color;
    if is_kingside(m) {
        square_at(5, back_rank_of(c))
    } else {
        square_at(3, back_rank_of(c))
    }
}

/// Validation of a normal (non-castling, non-en-passant) move: the mover
/// stands on the origin, the declared capture matches the destination's
/// contents, and only a pawn may promote.
pub open spec fn normal_enabled(v: BoardView, m: Move) -> bool {
    &&& v.squares[m.from@] == Some(m.moving_piece)
    &&& v.squares[m.to@] == m.captured_piece
    &&& (m.promoted_to is Some ==> m.moving_piece.kind == PieceKind::Pawn)
}

/// Validation of an en-passant move: the mover stands on the origin, the
/// move is properly diagonal (file and rank both change), the declared
/// capture matches the contents of the bypassed square, and the destination
/// is empty.
pub open spec fn ep_enabled(v: BoardView, m: Move) -> bool {
    &&& v.squares[m.from@] == Some(m.moving_piece)
    &&& file_of(m.to@) != file_of(m.from@)
    &&& rank_of(m.to@) != rank_of(m.from@)
    &&& v.squares[ep_capture_square(m)] == m.captured_piece
    &&& v.squares[m.to@] is None
}

/// Validation of a castling move: a king moving from the recorded initial
/// king square of its color to the g- or c-file of its home rank, declaring
/// no capture and no promotion, with its rook on the recorded initial rook
/// square and both destination squares free (or about to be vacated by the
/// king or rook themselves).
pub open spec fn castle_enabled(v: BoardView, m: Move) -> bool {
    let c = m.moving_piece.color;
    let rf = castle_rook_from(v, m);
    let rt = castle_rook_to(m);
    &&& v.squares[m.from@] == Some(m.moving_piece)
    &&& m.moving_piece.kind == PieceKind::King
    &&& m.from@ == square_at(file_index(v.initial_king_file), back_rank_of(c))
    &&& (file_of(m.to@) == 6 || file_of(m.to@) == 2)
    &&& rank_of(m.to@) == back_rank_of(c)
    &&& m.captured_piece is None
    &&& m.promoted_to is None
    &&& v.squares[rf] == Some(Piece { kind: PieceKind::Rook, color: c })
    &&& (m.to@ == m.from@ || m.to@ == rf || v.squares[m.to@] is None)
    &&& (rt == m.from@ || rt == rf || v.squares[rt] is None)
}

/// Whether the board accepts the move. A move flagged as castling is treated
/// as castling whatever its other flag says; then en passant; else normal.
pub open spec fn apply_enabled(v: BoardView, m: Move) -> bool {
    &&& move_in_bounds(m)
    &&& if m.castling {
        castle_enabled(v, m)
    } else if m.en_passant {
        ep_enabled(v, m)
    } else {
        normal_enabled(v, m)
    }
}

/// The error a rejected move reports: `WrongMover` exactly when the origin
/// does not hold the declared mover, else `WrongCapture`.
pub open spec fn apply_err(v: BoardView, m: Move) -> MoveError {
    if !move_in_bounds(m) || v.squares[m.from@] != Some(m.moving_piece) {
        MoveError::WrongMover
    } else {
        MoveError::WrongCapture
    }
}

/// The board contents after an accepted move.
pub open spec fn apply_squares(v: BoardView, m: Move) -> Seq<Option<Piece>> {
    let c = m.moving_piece.color;
    if m.castling {
        v.squares.update(m.from@, None).update(castle_rook_from(v, m), None).update(
            m.to@,
            Some(m.moving_piece),
        ).update(castle_rook_to(m), Some(Piece { kind: PieceKind::Rook, color: c }))
    } else if m.en_passant {
        v.squares.update(m.from@, None).update(ep_capture_square(m), None).update(
            m.to@,
            Some(m.moving_piece),
        )
    } else {
        v.squares.update(m.from@, None).update(m.to@, Some(placed_piece(m)))
    }
}

/// Clears both castling permissions of one color.
pub open spec fn clear_rights(cs: CastlingSet, c: Color) -> CastlingSet {
    match c {
        Color::White => CastlingSet {
            white_kingside: false,
            white_queenside: false,
            black_kingside: cs.black_kingside,
            black_queenside: cs.black_queenside,
        },
        Color::Black => CastlingSet {
            white_kingside: cs.white_kingside,
            white_queenside: cs.white_queenside,
            black_kingside: false,
            black_queenside: false,
        },
    }
}

/// Clears the kingside permission of one color.
pub open spec fn clear_kingside(cs: CastlingSet, c: Color) -> CastlingSet {
    match c {
        Color::White => CastlingSet { white_kingside: false, ..cs },
        Color::Black => CastlingSet { black_kingside: false, ..cs },
    }
}

/// Clears the queenside permission of one color.
pub open spec fn clear_queenside(cs: CastlingSet, c: Color) -> CastlingSet {
    match c {
        Color::White => CastlingSet { white_queenside: false, ..cs },
        Color::Black => CastlingSet { black_queenside: false, ..cs },
    }
}

/// The castling permissions after a move: a king move (castling included)
/// clears both of its color's permissions; a rook moving off the recorded
/// initial square of one of its color's rooks clears that side's permission.
pub open spec fn rights_after(v: BoardView, m: Move) -> CastlingSet {
    let c = m.moving_piece.color;
    if m.moving_piece.kind == PieceKind::King {
        clear_rights(v.castling, c)
    } else if m.moving_piece.kind == PieceKind::Rook && m.from@ == square_at(
        file_index(v.initial_kings_rook_file),
        back_rank_of(c),
    ) {
        clear_kingside(v.castling, c)
    } else if m.moving_piece.kind == PieceKind::Rook && m.from@ == square_at(
        file_index(v.initial_queens_rook_file),
        back_rank_of(c),
    ) {
        clear_queenside(v.castling, c)
    } else {
        v.castling
    }
}

/// Adds one, stopping at the largest `u16` value.
pub open spec fn saturating_inc(x: u16) -> u16 {
    if x < 0xffff {
        (x + 1) as u16
    } else {
        x
    }
}

/// The fifty-move-rule clock after a move: reset by pawn moves and
/// captures, otherwise incremented.
pub open spec fn halfmove_after(v: BoardView, m: Move) -> u16 {
    if m.moving_piece.kind == PieceKind::Pawn || m.captured_piece is Some {
        0
    } else {
        saturating_inc(v.halfmove_count)
    }
}

/// The fullmove number after a move: incremented after Black moves.
pub open spec fn move_number_after(v: BoardView) -> u16 {
    if v.side_to_move == Color::Black {
        saturating_inc(v.move_number)
    } else {
        v.move_number
    }
}

/// The en-passant target after a move: the skipped square after a double
/// pawn push, cleared by every other move.
pub open spec fn ep_after(m: Move) -> Option<int> {
    if !m.castling && !m.en_passant && is_double_push(m) {
        Some((m.from@ + m.to@) / 2)
    } else {
        None
    }
}

/// The white king's cached square after a move.
pub open spec fn white_king_after(v: BoardView, m: Move) -> int {
    if m.moving_piece.kind == PieceKind::King && m.moving_piece.color == Color::White {
        m.to@
    } else {
        v.white_king
    }
}

/// The black king's cached square after a move.
pub open spec fn black_king_after(v: BoardView, m: Move) -> int {
    if m.moving_piece.kind == PieceKind::King && m.moving_piece.color == Color::Black {
        m.to@
    } else {
        v.black_king
    }
}

/// The snapshot an accepted move pushes for later undo.
pub open spec fn snapshot_of(v: BoardView) -> UndoInfoV {
    UndoInfoV {
        en_passant_square: v.en_passant_square,
        castling: v.castling,
        halfmove_count: v.halfmove_count,
        move_number: v.move_number,
        white_king: v.white_king,
        black_king: v.black_king,
    }
}

/// The whole board state after an accepted move.
pub open spec fn apply_state(v: BoardView, m: Move) -> BoardView {
    BoardView {
        squares: apply_squares(v, m),
        side_to_move: other_color(v.side_to_move),
        move_number: move_number_after(v),
        halfmove_count: halfmove_after(v, m),
        en_passant_square: ep_after(m),
        white_king: white_king_after(v, m),
        black_king: black_king_after(v, m),
        castling: rights_after(v, m),
        initial_king_file: v.initial_king_file,
        initial_queens_rook_file: v.initial_queens_rook_file,
        initial_kings_rook_file: v.initial_kings_rook_file,
        moves_done: v.moves_done.push(m),
        undo_infos: v.undo_infos.push(snapshot_of(v)),
    }
}

/// Undo validation for a normal move: the piece the move placed is still on
/// the destination and the origin is still empty.
pub open spec fn normal_undo_ok(v: BoardView, m: Move) -> bool {
    &&& v.squares[m.to@] == Some(placed_piece(m))
    &&& (m.from@ != m.to@ ==> v.squares[m.from@] is None)
}

/// Undo validation for an en-passant move.
pub open spec fn ep_undo_ok(v: BoardView, m: Move) -> bool {
    &&& file_of(m.to@) != file_of(m.from@)
    &&& rank_of(m.to@) != rank_of(m.from@)
    &&& v.squares[m.to@] == Some(m.moving_piece)
    &&& v.squares[m.from@] is None
    &&& v.squares[ep_capture_square(m)] is None
}

/// Undo validation for a castling move.
pub open spec fn castle_undo_ok(v: BoardView, m: Move) -> bool {
    let c = m.moving_piece.color;
    let rf = castle_rook_from(v, m);
    let rt = castle_rook_to(m);
    &&& m.moving_piece.kind == PieceKind::King
    &&& m.from@ == square_at(file_index(v.initial_king_file), back_rank_of(c))
    &&& (file_of(m.to@) == 6 || file_of(m.to@) == 2)
    &&& rank_of(m.to@) == back_rank_of(c)
    &&& m.captured_piece is None
    &&& m.promoted_to is None
    &&& v.squares[m.to@] == Some(m.moving_piece)
    &&& v.squares[rt] == Some(Piece { kind: PieceKind::Rook, color: c })
    &&& (m.from@ == m.to@ || m.from@ == rt || v.squares[m.from@] is None)
    &&& (rf == m.to@ || rf == rt || v.squares[rf] is None)
}

/// Whether the most recent recorded move can be undone against the current
/// board contents.
pub open spec fn undo_enabled(v: BoardView) -> bool {
    &&& v.moves_done.len() > 0
    &&& v.undo_infos.len() > 0
    &&& {
        let m = v.moves_done.last();
        &&& move_in_bounds(m)
        &&& if m.castling {
            castle_undo_ok(v, m)
        } else if m.en_passant {
            ep_undo_ok(v, m)
        } else {
            normal_undo_ok(v, m)
        }
    }
}

/// The error a rejected undo reports.
pub open spec fn undo_err(v: BoardView) -> MoveError {
    if v.moves_done.len() == 0 {
        MoveError::NothingToUndo
    } else {
        MoveError::CorruptUndo
    }
}

/// The board contents after undoing move `m`.
pub open spec fn undo_squares(v: BoardView, m: Move) -> Seq<Option<Piece>> {
    let c = m.moving_piece.color;
    if m.castling {
        v.squares.update(m.to@, None).update(castle_rook_to(m), None).update(
            m.from@,
            Some(m.moving_piece),
        ).update(castle_rook_from(v, m), Some(Piece { kind: PieceKind::Rook, color: c }))
    } else if m.en_passant {
        v.squares.update(m.to@, None).update(ep_capture_square(m), m.captured_piece).update(
            m.from@,
            Some(m.moving_piece),
        )
    } else {
        v.squares.update(m.to@, m.captured_piece).update(m.from@, Some(unpromoted_piece(m)))
    }
}

/// The whole board state after an accepted undo.
pub open spec fn undo_state(v: BoardView) -> BoardView {
    let m = v.moves_done.last();
    let u = v.undo_infos.last();
    let c = m.moving_piece.color;
    BoardView {
        squares: undo_squares(v, m),
        side_to_move: other_color(v.side_to_move),
        move_number: u.move_number,
        halfmove_count: u.halfmove_count,
        en_passant_square: u.en_passant_square,
        white_king: u.white_king,
        black_king: u.black_king,
        castling: u.castling,
        initial_king_file: v.initial_king_file,
        initial_queens_rook_file: v.initial_queens_rook_file,
        initial_kings_rook_file: v.initial_kings_rook_file,
        moves_done: v.moves_done.drop_last(),
        undo_infos: v.undo_infos.drop_last(),
    }
}

/// Compares two optional pieces.
fn opt_piece_eq(a: Option<Piece>, b: Option<Piece>) -> (r: bool)
    ensures
        r == (a == b),
{
    match (a, b) {
        (None, None) => true,
        (Some(x), Some(y)) => x == y,
        _ => false,
    }
}

/// Copies a vector of copyable values element by element.
fn copy_vec<T: Copy>(v: &Vec<T>) -> (r: Vec<T>)
    ensures
        r@ == v@,
{
    let mut r: Vec<T> = Vec::new();
    let mut i: usize = 0;
    while i < v.len()
        invariant
            i <= v@.len(),
            r@ == v@.subrange(0, i as int),
        decreases v@.len() - i,
    {
        r.push(v[i]);
        i = i + 1;
    }
    proof {
        assert(r@ =~= v@);
    }
    r
}

/// A chess position: the piece on each square, the side to move, the move
/// counters, the en-passant target, the cached king squares, the castling
/// permissions, the recorded initial files that define castling geometry,
/// and the history of applied moves with the snapshots that make undo exact.
#[derive(Clone, Debug, PartialEq, Eq)]
pub struct Board {
    board: Vec<Option<Piece>>,
    side_to_move: Color,
    move_number: u16,
    halfmove_count: u16,
    en_passant_square: Option<Square>,
    white_king: Square,
    black_king: Square,
    castling: CastlingSet,
    initial_king_file: File,
    initial_queens_rook_file: File,
    initial_kings_rook_file: File,
    move_list: Vec<Move>,
    undo_stack: Vec<UndoInfo>,
}


/// The piece the Chess960 starting position for number `n` puts on square
/// `i`: the derived back rank mirrored on both home ranks, pawns filling
/// both second ranks, and every other square empty.
pub open spec fn initial_piece_at(n: int, i: int) -> Option<Piece> {
    if 0 <= i < 8 {
        Some(Piece { kind: back_rank(n)[i], color: Color::White })
    } else if 8 <= i < 16 {
        Some(Piece { kind: PieceKind::Pawn, color: Color::White })
    } else if 48 <= i < 56 {
        Some(Piece { kind: PieceKind::Pawn, color: Color::Black })
    } else if 56 <= i < 64 {
        Some(Piece { kind: back_rank(n)[i - 56], color: Color::Black })
    } else {
        None
    }
}

/// The whole Chess960 starting position for number `n` in `[0, 960)`:
/// White to move, counters at their start values, no en-passant target,
/// all four castling permissions standing, and the derived files recorded.
pub open spec fn chess960_position(n: int) -> BoardView {
    BoardView {
        squares: Seq::new(64, |i: int| initial_piece_at(n, i)),
        side_to_move: Color::White,
        move_number: 1,
        halfmove_count: 0,
        en_passant_square: None,
        white_king: king_index(n),
        black_king: king_index(n) + 56,
        castling: CastlingSet {
            white_kingside: true,
            white_queenside: true,
            black_kingside: true,
            black_queenside: true,
        },
        initial_king_file: file_with_index(king_index(n)),
        initial_queens_rook_file: file_with_index(queens_rook_index(n)),
        initial_kings_rook_file: file_with_index(kings_rook_index(n)),
        moves_done: Seq::empty(),
        undo_infos: Seq::empty(),
    }
}

impl View for Board {
    type V = BoardView;

    closed spec fn view(&self) -> BoardView {
        BoardView {
            squares: self.board@,
            side_to_move: self.side_to_move,
            move_number: self.move_number,
            halfmove_count: self.halfmove_count,
            en_passant_square: osv(self.en_passant_square),
            white_king: self.white_king@,
            black_king: self.black_king@,
            castling: self.castling,
            initial_king_file: self.initial_king_file,
            initial_queens_rook_file: self.initial_queens_rook_file,
            initial_kings_rook_file: self.initial_kings_rook_file,
            moves_done: self.move_list@,
            undo_infos: self.undo_stack@.map_values(|u: UndoInfo| u@),
        }
    }
}

impl Board {
    /// Constructs a new board with the standard starting position.
    /// Equivalent to `Board::new_chess960(518)`.
    pub fn new() -> (b: Board)
        ensures
            b@ == chess960_position(518),
            b.wf(),
    {
        Board::new_chess960(518)
    }

    /// Constructs a new board with Chess960 starting position number
    /// `position_number`, taken modulo 960 (so numbers 960, 961, ... repeat
    /// positions 0, 1, ...).
    pub fn new_chess960(position_number: u32) -> (b: Board)
        ensures
            b@ == chess960_position((position_number as int) % 960),
            b.wf(),
    {
        let n1: u32 = position_number % 960;
        let ghost nn = n1 as int;
        proof {
            crate::setup::lemma_back_rank_structure(nn);
        }
        let parts = crate::setup::build_back_rank(n1);
        let order = parts.0;
        let qr = parts.1;
        let kf = parts.2;
        let kr = parts.3;
        let mut sq: Vec<Option<Piece>> = Vec::new();
        let mut i: usize = 0;
        while i < 64
            invariant
                i <= 64,
                sq@.len() == i,
                order@ == back_rank(nn),
                order@.len() == 8,
                forall|j: int| 0 <= j < i ==> sq@[j] == initial_piece_at(nn, j),
            decreases 64 - i,
        {
            let p: Option<Piece> = if i < 8 {
                Some(Piece { kind: order[i], color: Color::White })
            } else if i < 16 {
                Some(Piece { kind: PieceKind::Pawn, color: Color::White })
            } else if i < 48 {
                None
            } else if i < 56 {
                Some(Piece { kind: PieceKind::Pawn, color: Color::Black })
            } else {
                Some(Piece { kind: order[i - 56], color: Color::Black })
            };
            sq.push(p);
            i = i + 1;
        }
        let b = Board {
            board: sq,
            side_to_move: Color::White,
            move_number: 1,
            halfmove_count: 0,
            en_passant_square: None,
            white_king: Square::from_int(kf as u32),
            black_king: Square::from_int(kf as u32 + 56),
            castling: CastlingSet {
                white_kingside: true,
                white_queenside: true,
                black_kingside: true,
                black_queenside: true,
            },
            initial_king_file: crate::square::file_from_index(kf),
            initial_queens_rook_file: crate::square::file_from_index(qr),
            initial_kings_rook_file: crate::square::file_from_index(kr),
            move_list: Vec::new(),
            undo_stack: Vec::new(),
        };
        proof {
            assert(b@.squares =~= chess960_position(nn).squares);
            assert(b@.undo_infos =~= chess960_position(nn).undo_infos);
            assert(b@ =~= chess960_position(nn));
        }
        b
    }

    /// Validity of this board; every constructor establishes it and every
    /// mutator preserves it.
    pub open spec fn wf(&self) -> bool {
        board_inv(self@)
    }

    /// Returns the piece on the given square, or `None` if it is empty.
    pub fn get_piece(&self, sq: Square) -> (r: Option<Piece>)
        requires
            self.wf(),
        ensures
            r == self@.squares[sq@],
    {
        let i = sq.as_index();
        self.board[i]
    }

    /// Returns which side is to move now.
    pub fn get_side_to_move(&self) -> (c: Color)
        ensures
            c == self@.side_to_move,
    {
        self.side_to_move
    }

    /// Returns the current en-passant target square, if one is set.
    pub fn get_en_passant_square(&self) -> (r: Option<Square>)
        ensures
            osv(r) == self@.en_passant_square,
    {
        self.en_passant_square
    }

    /// Returns the cached square of the given color's king.
    pub fn get_king_square(&self, color: Color) -> (s: Square)
        ensures
            s@ == if color == Color::White {
                self@.white_king
            } else {
                self@.black_king
            },
    {
        match color {
            Color::White => self.white_king,
            Color::Black => self.black_king,
        }
    }

    /// Returns whether the given castling permission still stands.
    pub fn get_castling_right(&self, right: CastlingRights) -> (b: bool)
        ensures
            b == right_value(self@.castling, right),
    {
        match right {
            CastlingRights::WhiteKingside => self.castling.white_kingside,
            CastlingRights::WhiteQueenside => self.castling.white_queenside,
            CastlingRights::BlackKingside => self.castling.black_kingside,
            CastlingRights::BlackQueenside => self.castling.black_queenside,
        }
    }

    /// The file the kings started on.
    pub fn get_initial_king_file(&self) -> (f: File)
        ensures
            f == self@.initial_king_file,
    {
        self.initial_king_file
    }

    /// The file the queenside (lower-file) rooks started on.
    pub fn get_initial_queenside_rook_file(&self) -> (f: File)
        ensures
            f == self@.initial_queens_rook_file,
    {
        self.initial_queens_rook_file
    }

    /// The file the kingside (higher-file) rooks started on.
    pub fn get_initial_kingside_rook_file(&self) -> (f: File)
        ensures
            f == self@.initial_kings_rook_file,
    {
        self.initial_kings_rook_file
    }

    /// Makes a move on the board, modifying it in place. Returns `Ok(())`
    /// exactly when the move passes validation against the current board;
    /// a rejected move leaves the board untouched and reports `WrongMover`
    /// when the origin does not hold the declared mover, else `WrongCapture`.
    #[verifier::rlimit(100)]
    pub fn do_move_inplace(&mut self, m: Move) -> (r: Result<(), MoveError>)
        requires
            old(self).wf(),
        ensures
            final(self).wf(),
            apply_enabled(old(self)@, m) ==> r == Ok::<(), MoveError>(()) && final(self)@
                == apply_state(old(self)@, m),
            !apply_enabled(old(self)@, m) ==> r == Err::<(), MoveError>(apply_err(old(self)@, m))
                && final(self)@ == old(self)@,
    {
        let ghost pre = self@;
        let from_idx = m.from.as_index();
        let to_idx = m.to.as_index();
        if !opt_piece_eq(self.board[from_idx], Some(m.moving_piece)) {
            return Err(MoveError::WrongMover);
        }
        let c = m.moving_piece.color;
        let br: usize = match c {
            Color::White => 0,
            Color::Black => 7,
        };
        let snapshot = UndoInfo {
            en_passant_square: self.en_passant_square,
            castling: self.castling,
            halfmove_count: self.halfmove_count,
            move_number: self.move_number,
            white_king: self.white_king,
            black_king: self.black_king,
        };
        if m.castling {
            if m.moving_piece.kind != PieceKind::King {
                return Err(MoveError::WrongCapture);
            }
            let kf = crate::square::file_to_index(self.initial_king_file) as usize;
            if from_idx != kf + 8 * br {
                return Err(MoveError::WrongCapture);
            }
            let to_file = to_idx % 8;
            if !(to_file == 6 || to_file == 2) {
                return Err(MoveError::WrongCapture);
            }
            if to_idx / 8 != br {
                return Err(MoveError::WrongCapture);
            }
            if m.captured_piece.is_some() {
                return Err(MoveError::WrongCapture);
            }
            if m.promoted_to.is_some() {
                return Err(MoveError::WrongCapture);
            }
            let rf_file: usize = if to_file == 6 {
                crate::square::file_to_index(self.initial_kings_rook_file) as usize
            } else {
                crate::square::file_to_index(self.initial_queens_rook_file) as usize
            };
            let rf_idx = rf_file + 8 * br;
            let rook = Piece { kind: PieceKind::Rook, color: c };
            if !opt_piece_eq(self.board[rf_idx], Some(rook)) {
                return Err(MoveError::WrongCapture);
            }
            let rt_idx = (if to_file == 6 {
                5
            } else {
                3
            }) + 8 * br;
            if !(to_idx == from_idx || to_idx == rf_idx) && self.board[to_idx].is_some() {
                return Err(MoveError::WrongCapture);
            }
            if !(rt_idx == from_idx || rt_idx == rf_idx) && self.board[rt_idx].is_some() {
                return Err(MoveError::WrongCapture);
            }
            self.board[from_idx] = None;
            self.board[rf_idx] = None;
            self.board[to_idx] = Some(m.moving_piece);
            self.board[rt_idx] = Some(rook);
        } else if m.en_passant {
            if to_idx % 8 == from_idx % 8 {
                return Err(MoveError::WrongCapture);
            }
            if to_idx / 8 == from_idx / 8 {
                return Err(MoveError::WrongCapture);
            }
            let cap_idx = to_idx % 8 + 8 * (from_idx / 8);
            if !opt_piece_eq(self.board[cap_idx], m.captured_piece) {
                return Err(MoveError::WrongCapture);
            }
            if self.board[to_idx].is_some() {
                return Err(MoveError::WrongCapture);
            }
            self.board[from_idx] = None;
            self.board[cap_idx] = None;
            self.board[to_idx] = Some(m.moving_piece);
        } else {
            if !opt_piece_eq(self.board[to_idx], m.captured_piece) {
                return Err(MoveError::WrongCapture);
            }
            if m.promoted_to.is_some() && m.moving_piece.kind != PieceKind::Pawn {
                return Err(MoveError::WrongCapture);
            }
            self.board[from_idx] = None;
            let placed = match m.promoted_to {
                Some(k) => Piece { kind: k, color: c },
                None => m.moving_piece,
            };
            self.board[to_idx] = Some(placed);
        }
        // En-passant target bookkeeping
        let dd: usize = if to_idx >= from_idx {
            to_idx - from_idx
        } else {
            from_idx - to_idx
        };
        let dp = !m.castling && !m.en_passant && m.moving_piece.kind == PieceKind::Pawn && dd == 16;
        if dp {
            self.en_passant_square = Some(Square::from_int(((from_idx + to_idx) / 2) as u32));
        } else {
            self.en_passant_square = None;
        }
        // Castling permissions
        if m.moving_piece.kind == PieceKind::King {
            match c {
                Color::White => {
                    self.castling.white_kingside = false;
                    self.castling.white_queenside = false;
                },
                Color::Black => {
                    self.castling.black_kingside = false;
                    self.castling.black_queenside = false;
                },
            }
        } else if m.moving_piece.kind == PieceKind::Rook && from_idx == crate::square::file_to_index(
            self.initial_kings_rook_file,
        ) as usize + 8 * br {
            match c {
                Color::White => self.castling.white_kingside = false,
                Color::Black => self.castling.black_kingside = false,
            }
        } else if m.moving_piece.kind == PieceKind::Rook && from_idx == crate::square::file_to_index(
            self.initial_queens_rook_file,
        ) as usize + 8 * br {
            match c {
                Color::White => self.castling.white_queenside = false,
                Color::Black => self.castling.black_queenside = false,
            }
        }
        // King-square cache
        if m.moving_piece.kind == PieceKind::King {
            match c {
                Color::White => self.white_king = m.to,
                Color::Black => self.black_king = m.to,
            }
        }
        // Clocks and side to move
        if m.moving_piece.kind == PieceKind::Pawn || m.captured_piece.is_some() {
            self.halfmove_count = 0;
        } else if self.halfmove_count < 0xffff {
            self.halfmove_count = self.halfmove_count + 1;
        }
        if self.side_to_move == Color::Black && self.move_number < 0xffff {
            self.move_number = self.move_number + 1;
        }
        self.side_to_move = match self.side_to_move {
            Color::White => Color::Black,
            Color::Black => Color::White,
        };
        self.move_list.push(m);
        self.undo_stack.push(snapshot);
        proof {
            assert(self@ =~= apply_state(pre, m));
        }
        Ok(())
    }

    /// Makes a move like [`Board::do_move_inplace`], but on a copy,
    /// returning the new board and leaving this one untouched.
    pub fn do_move(&self, m: Move) -> (r: Result<Board, MoveError>)
        requires
            self.wf(),
        ensures
            apply_enabled(self@, m) ==> (r matches Ok(b) && b@ == apply_state(self@, m) && b.wf()),
            !apply_enabled(self@, m) ==> r == Err::<Board, MoveError>(apply_err(self@, m)),
    {
        let mut c = self.copy();
        match c.do_move_inplace(m) {
            Ok(()) => Ok(c),
            Err(e) => Err(e),
        }
    }

    /// Undoes the most recently applied move, modifying the board in place.
    /// Returns `Ok(())` exactly when there is a recorded move and the board
    /// still matches what that move produced; otherwise the board is left
    /// untouched and the error says which condition failed.
    pub fn undo_move_inplace(&mut self) -> (r: Result<(), MoveError>)
        requires
            old(self).wf(),
        ensures
            final(self).wf(),
            undo_enabled(old(self)@) ==> r == Ok::<(), MoveError>(()) && final(self)@ == undo_state(
                old(self)@,
            ),
            !undo_enabled(old(self)@) ==> r == Err::<(), MoveError>(undo_err(old(self)@))
                && final(self)@ == old(self)@,
    {
        let ghost pre = self@;
        if self.move_list.len() == 0 {
            return Err(MoveError::NothingToUndo);
        }
        let m = self.move_list[self.move_list.len() - 1];
        let u = self.undo_stack[self.undo_stack.len() - 1];
        proof {
            assert(pre.moves_done.last() == m);
            assert(pre.undo_infos.last() == u@);
        }
        let from_idx = m.from.as_index();
        let to_idx = m.to.as_index();
        let c = m.moving_piece.color;
        let br: usize = match c {
            Color::White => 0,
            Color::Black => 7,
        };
        if m.castling {
            if m.moving_piece.kind != PieceKind::King {
                return Err(MoveError::CorruptUndo);
            }
            let kf = crate::square::file_to_index(self.initial_king_file) as usize;
            if from_idx != kf + 8 * br {
                return Err(MoveError::CorruptUndo);
            }
            let to_file = to_idx % 8;
            if !(to_file == 6 || to_file == 2) {
                return Err(MoveError::CorruptUndo);
            }
            if to_idx / 8 != br {
                return Err(MoveError::CorruptUndo);
            }
            if m.captured_piece.is_some() {
                return Err(MoveError::CorruptUndo);
            }
            if m.promoted_to.is_some() {
                return Err(MoveError::CorruptUndo);
            }
            let rf_file: usize = if to_file == 6 {
                crate::square::file_to_index(self.initial_kings_rook_file) as usize
            } else {
                crate::square::file_to_index(self.initial_queens_rook_file) as usize
            };
            let rf_idx = rf_file + 8 * br;
            let rt_idx = (if to_file == 6 {
                5
            } else {
                3
            }) + 8 * br;
            let rook = Piece { kind: PieceKind::Rook, color: c };
            if !opt_piece_eq(self.board[to_idx], Some(m.moving_piece)) {
                return Err(MoveError::CorruptUndo);
            }
            if !opt_piece_eq(self.board[rt_idx], Some(rook)) {
                return Err(MoveError::CorruptUndo);
            }
            if !(from_idx == to_idx || from_idx == rt_idx) && self.board[from_idx].is_some() {
                return Err(MoveError::CorruptUndo);
            }
            if !(rf_idx == to_idx || rf_idx == rt_idx) && self.board[rf_idx].is_some() {
                return Err(MoveError::CorruptUndo);
            }
            self.board[to_idx] = None;
            self.board[rt_idx] = None;
            self.board[from_idx] = Some(m.moving_piece);
            self.board[rf_idx] = Some(rook);
        } else if m.en_passant {
            if to_idx % 8 == from_idx % 8 {
                return Err(MoveError::CorruptUndo);
            }
            if to_idx / 8 == from_idx / 8 {
                return Err(MoveError::CorruptUndo);
            }
            let cap_idx = to_idx % 8 + 8 * (from_idx / 8);
            if !opt_piece_eq(self.board[to_idx], Some(m.moving_piece)) {
                return Err(MoveError::CorruptUndo);
            }
            if self.board[from_idx].is_some() {
                return Err(MoveError::CorruptUndo);
            }
            if self.board[cap_idx].is_some() {
                return Err(MoveError::CorruptUndo);
            }
            self.board[to_idx] = None;
            self.board[cap_idx] = m.captured_piece;
            self.board[from_idx] = Some(m.moving_piece);
        } else {
            let placed = match m.promoted_to {
                Some(k) => Piece { kind: k, color: c },
                None => m.moving_piece,
            };
            if !opt_piece_eq(self.board[to_idx], Some(placed)) {
                return Err(MoveError::CorruptUndo);
            }
            if from_idx != to_idx && self.board[from_idx].is_some() {
                return Err(MoveError::CorruptUndo);
            }
            self.board[to_idx] = m.captured_piece;
            let restored = match m.promoted_to {
                Some(_) => Piece { kind: PieceKind::Pawn, color: c },
                None => m.moving_piece,
            };
            self.board[from_idx] = Some(restored);
        }
        self.en_passant_square = u.en_passant_square;
        self.castling = u.castling;
        self.halfmove_count = u.halfmove_count;
        self.move_number = u.move_number;
        self.white_king = u.white_king;
        self.black_king = u.black_king;
        self.side_to_move = match self.side_to_move {
            Color::White => Color::Black,
            Color::Black => Color::White,
        };
        self.move_list.pop();
        self.undo_stack.pop();
        proof {
            assert(self@ =~= undo_state(pre));
        }
        Ok(())
    }

    /// Undoes the most recent move like [`Board::undo_move_inplace`], but on
    /// a copy, returning the new board and leaving this one untouched.
    pub fn undo_move(&self) -> (r: Result<Board, MoveError>)
        requires
            self.wf(),
        ensures
            undo_enabled(self@) ==> (r matches Ok(b) && b@ == undo_state(self@) && b.wf()),
            !undo_enabled(self@) ==> r == Err::<Board, MoveError>(undo_err(self@)),
    {
        let mut c = self.copy();
        match c.undo_move_inplace() {
            Ok(()) => Ok(c),
            Err(e) => Err(e),
        }
    }

    /// Copies every field of this board into a fresh value.
    fn copy(&self) -> (b: Board)
        ensures
            b@ == self@,
    {
        let b = Board {
            board: copy_vec(&self.board),
            side_to_move: self.side_to_move,
            move_number: self.move_number,
            halfmove_count: self.halfmove_count,
            en_passant_square: self.en_passant_square,
            white_king: self.white_king,
            black_king: self.black_king,
            castling: self.castling,
            initial_king_file: self.initial_king_file,
            initial_queens_rook_file: self.initial_queens_rook_file,
            initial_kings_rook_file: self.initial_kings_rook_file,
            move_list: copy_vec(&self.move_list),
            undo_stack: copy_vec(&self.undo_stack),
        };
        proof {
            assert(b@ =~= self@);
        }
        b
    }
}

/// The truth value of one castling permission in a set.
pub open spec fn right_value(cs: CastlingSet, right: CastlingRights) -> bool {
    match right {
        CastlingRights::WhiteKingside => cs.white_kingside,
        CastlingRights::WhiteQueenside => cs.white_queenside,
        CastlingRights::BlackKingside => cs.black_kingside,
        CastlingRights::BlackQueenside => cs.black_queenside,
    }
}

/// Round trip of application and undo: a move the board accepts can be
/// undone immediately afterwards, and undoing it restores every field of
/// the position — board contents, side to move, clocks, en-passant target,
/// king cache, castling permissions, and history — exactly.
pub proof fn lemma_apply_then_undo(v: BoardView, m: Move)
    requires
        board_inv(v),
        apply_enabled(v, m),
    ensures
        undo_enabled(apply_state(v, m)),
        undo_state(apply_state(v, m)) == v,
{
    let w = apply_state(v, m);
    assert(w.moves_done.last() == m);
    assert(w.undo_infos.last() == snapshot_of(v));
    assert(undo_enabled(w));
    assert(undo_state(w).squares =~= v.squares);
    assert(undo_state(w).moves_done =~= v.moves_done);
    assert(undo_state(w).undo_infos =~= v.undo_infos);
    assert(undo_state(w) =~= v);
}

/// A double pawn push sets the en-passant target to the square it skipped;
/// every other applied move leaves the target cleared.
pub proof fn lemma_en_passant_bookkeeping(v: BoardView, m: Move)
    requires
        apply_enabled(v, m),
    ensures
        (!m.castling && !m.en_passant && is_double_push(m)) ==> apply_state(v, m).en_passant_square
            == Some((m.from@ + m.to@) / 2),
        !(!m.castling && !m.en_passant && is_double_push(m)) ==> apply_state(
            v,
            m,
        ).en_passant_square is None,
{
}


/// Validity of every Chess960 starting position: it satisfies the board
/// invariant; on each of the two home ranks exactly one square holds a
/// king, standing strictly between the two squares holding rooks; the
/// queen holds exactly one square and the knights exactly two; and the
/// two bishops stand on one odd and one even file of the same rank — that
/// is, on squares of opposite color.
pub proof fn lemma_chess960_valid(n: int)
    requires
        0 <= n < 960,
    ensures
        board_inv(chess960_position(n)),
        0 <= queens_rook_index(n),
        queens_rook_index(n) < king_index(n),
        king_index(n) < kings_rook_index(n),
        kings_rook_index(n) < 8,
        forall|i: int|
            0 <= i < 8 ==> (#[trigger] chess960_position(n).squares[i] == Some(
                Piece { kind: PieceKind::King, color: Color::White },
            ) <==> i == king_index(n)),
        forall|i: int|
            0 <= i < 8 ==> (#[trigger] chess960_position(n).squares[56 + i] == Some(
                Piece { kind: PieceKind::King, color: Color::Black },
            ) <==> i == king_index(n)),
        forall|i: int|
            0 <= i < 8 ==> (#[trigger] chess960_position(n).squares[i] == Some(
                Piece { kind: PieceKind::Rook, color: Color::White },
            ) <==> (i == queens_rook_index(n) || i == kings_rook_index(n))),
        forall|i: int|
            0 <= i < 8 ==> (#[trigger] chess960_position(n).squares[56 + i] == Some(
                Piece { kind: PieceKind::Rook, color: Color::Black },
            ) <==> (i == queens_rook_index(n) || i == kings_rook_index(n))),
        forall|i: int|
            0 <= i < 8 ==> (#[trigger] chess960_position(n).squares[i] == Some(
                Piece { kind: PieceKind::Bishop, color: Color::White },
            ) <==> (i == first_bishop_index(n) || i == second_bishop_index(n))),
        forall|i: int|
            0 <= i < 8 ==> (#[trigger] chess960_position(n).squares[56 + i] == Some(
                Piece { kind: PieceKind::Bishop, color: Color::Black },
            ) <==> (i == first_bishop_index(n) || i == second_bishop_index(n))),
        forall|i: int|
            0 <= i < 8 ==> (#[trigger] chess960_position(n).squares[i] == Some(
                Piece { kind: PieceKind::Queen, color: Color::White },
            ) <==> i == queen_index(n)),
        forall|i: int|
            0 <= i < 8 ==> (#[trigger] chess960_position(n).squares[i] == Some(
                Piece { kind: PieceKind::Knight, color: Color::White },
            ) <==> (i == first_knight_index(n) || i == second_knight_index(n))),
        first_bishop_index(n) % 2 == 1,
        second_bishop_index(n) % 2 == 0,
{
    crate::setup::lemma_back_rank_structure(n);
}

/// The position number is reduced modulo 960: numbers 960 apart derive the
/// same starting position, so `new_chess960(n)` and
/// `new_chess960(n + 960 * k)` build equal boards.
pub proof fn lemma_chess960_periodic(n: int, k: int)
    requires
        0 <= n,
        0 <= k,
    ensures
        chess960_position((n + 960 * k) % 960) == chess960_position(n % 960),
{
    vstd::arithmetic::div_mod::lemma_mod_multiples_vanish(k, n, 960);
}

} // verus!
