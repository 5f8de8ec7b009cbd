use vstd::prelude::*;
use crate::square::Color;

verus! {

/// The six kinds of chess piece.
#[derive(Copy, Clone, Debug, PartialEq, Eq, Structural)]
pub enum PieceKind {
    Pawn,
    Knight,
    Bishop,
    Rook,
    Queen,
    King,
}

/// A piece: a kind together with the color that owns it.
/// Two pieces are equal exactly when both parts match.
#[derive(Copy, Clone, Debug, PartialEq, Eq, Structural)]
pub struct Piece {
    pub kind: PieceKind,
    pub color: Color,
}

impl Piece {
    /// Builds the piece of the given kind and color.
    pub fn new(kind: PieceKind, color: Color) -> (p: Piece)
        ensures
            p == (Piece { kind, color }),
    {
        Piece { kind, color }
    }

    /// The kind of this piece.
    pub fn get_kind(&self) -> (k: PieceKind)
        ensures
            k == self.kind,
    {
        self.kind
    }

    /// The color that owns this piece.
    pub fn get_color(&self) -> (c: Color)
        ensures
            c == self.color,
    {
        self.color
    }
}

} // verus!
