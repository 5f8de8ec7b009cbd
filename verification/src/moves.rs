use vstd::prelude::*;
use crate::piece::Piece;
use crate::piece::PieceKind;
use crate::square::Square;

verus! {

/// An immutable record of one ply: the moving piece, its origin and
/// destination, the piece it captures (if any), the kind it promotes to
/// (if any), and flags for the two special move forms. The en-passant and
/// castling flags are meant to be mutually exclusive; a move with both
/// false is a normal move.
#[derive(Copy, Clone, Debug, PartialEq, Eq)]
pub struct Move {
    pub moving_piece: Piece,
    pub from: Square,
    pub to: Square,
    pub captured_piece: Option<Piece>,
    pub promoted_to: Option<PieceKind>,
    pub en_passant: bool,
    pub castling: bool,
}

impl Move {
    /// Builds a move record from its parts.
    pub fn new(
        moving_piece: Piece,
        from: Square,
        to: Square,
        captured_piece: Option<Piece>,
        promoted_to: Option<PieceKind>,
        en_passant: bool,
        castling: bool,
    ) -> (m: Move)
        ensures
            m == (Move { moving_piece, from, to, captured_piece, promoted_to, en_passant, castling }),
    {
        Move { moving_piece, from, to, captured_piece, promoted_to, en_passant, castling }
    }

    /// The piece that moves.
    pub fn get_moving_piece(&self) -> (p: Piece)
        ensures
            p == self.moving_piece,
    {
        self.moving_piece
    }

    /// The origin square.
    pub fn get_square_from(&self) -> (s: Square)
        ensures
            s == self.from,
    {
        self.from
    }

    /// The destination square.
    pub fn get_square_to(&self) -> (s: Square)
        ensures
            s == self.to,
    {
        self.to
    }

    /// The piece this move captures, if any.
    pub fn get_captured_piece(&self) -> (c: Option<Piece>)
        ensures
            c == self.captured_piece,
    {
        self.captured_piece
    }

    /// The kind a promoting pawn becomes, if any.
    pub fn get_promoted_to(&self) -> (p: Option<PieceKind>)
        ensures
            p == self.promoted_to,
    {
        self.promoted_to
    }

    /// Whether this move is an en-passant capture.
    pub fn is_en_passant(&self) -> (b: bool)
        ensures
            b == self.en_passant,
    {
        self.en_passant
    }

    /// Whether this move is a castling move.
    pub fn is_castling(&self) -> (b: bool)
        ensures
            b == self.castling,
    {
        self.castling
    }

    /// Whether this move is neither castling nor en passant.
    pub fn is_normal_move(&self) -> (b: bool)
        ensures
            b == !(self.castling || self.en_passant),
    {
        !(self.castling || self.en_passant)
    }
}

} // verus!
