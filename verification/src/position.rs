//! What table selection and probing read of a chess position.

use vstd::prelude::*;

use crate::types::{Color, Material};

verus! {

/// The facts of a chess position that the tables are chosen by.
#[derive(Debug, Clone, Copy, PartialEq, Eq, Structural)]
pub struct Position {
    /// The pieces of both sides, by role.
    pub material: Material,
    /// The side to move.
    pub turn: Color,
    /// Whether either side may still castle.
    pub castling_rights: bool,
    /// Whether neither side has the material to win.
    pub insufficient_material: bool,
}

impl Position {
    /// The position with the colours exchanged: each side has the other's
    /// pieces and the other side is to move.
    pub open spec fn mirrored_spec(self) -> Position {
        Position {
            material: self.material.swapped_spec(),
            turn: self.turn.other_spec(),
            castling_rights: self.castling_rights,
            insufficient_material: self.insufficient_material,
        }
    }

    /// The position with the colours exchanged: each side has the other's
    /// pieces and the other side is to move.
    #[verifier::when_used_as_spec(mirrored_spec)]
    pub fn mirrored(self) -> (r: Position)
        ensures
            r == self.mirrored_spec(),
    {
        Position {
            material: self.material.swapped(),
            turn: self.turn.other(),
            castling_rights: self.castling_rights,
            insufficient_material: self.insufficient_material,
        }
    }

    /// The number of pieces on the board.
    pub fn piece_count(&self) -> (n: usize)
        ensures
            n == self.material.total(),
    {
        side_count(&self.material, Color::White) + side_count(&self.material, Color::Black)
    }
}

/// The number of pieces of one side, its king included.
pub fn side_count(material: &Material, color: Color) -> (n: usize)
    ensures
        n == material.side_spec(color).total(),
{
    let side = material.side(color);
    side.pawn as usize + side.knight as usize + side.bishop as usize + side.rook as usize
        + side.queen as usize + side.king as usize
}

/// The material strength of one side: a pawn counts 1, a knight or a bishop
/// 3, a rook 5, a queen 9; the king does not count.
pub fn strength(material: &Material, color: Color) -> (s: usize)
    ensures
        s == material.side_spec(color).strength_spec(),
{
    let side = material.side(color);
    side.pawn as usize + side.knight as usize * 3 + side.bishop as usize * 3 + side.rook as usize
        * 5 + side.queen as usize * 9
}

} // verus!
