//! The vocabulary of the table set: colours, piece roles, material
//! signatures, the structural variants of a table and the key that names one
//! table on disk.

use vstd::prelude::*;

verus! {

/// One of the two sides.
#[derive(Debug, Clone, Copy, PartialEq, Eq, Hash, Structural)]
pub enum Color {
    White,
    Black,
}

impl Color {
    /// The opposite side.
    pub open spec fn other_spec(self) -> Color {
        match self {
            Color::White => Color::Black,
            Color::Black => Color::White,
        }
    }

    /// The opposite side.
    #[verifier::when_used_as_spec(other_spec)]
    pub fn other(self) -> (r: Color)
        ensures
            r == self.other_spec(),
    {
        match self {
            Color::White => Color::Black,
            Color::Black => Color::White,
        }
    }
}

/// A piece type.
#[derive(Debug, Clone, Copy, PartialEq, Eq, Hash, Structural)]
pub enum Role {
    Pawn,
    Knight,
    Bishop,
    Rook,
    Queen,
    King,
}

/// How many pieces of each role one side has.
#[derive(Debug, Clone, Copy, PartialEq, Eq, Hash, Structural)]
pub struct RoleCounts {
    pub pawn: u8,
    pub knight: u8,
    pub bishop: u8,
    pub rook: u8,
    pub queen: u8,
    pub king: u8,
}

impl RoleCounts {
    /// The count of one role.
    pub open spec fn get_spec(self, role: Role) -> u8 {
        match role {
            Role::Pawn => self.pawn,
            Role::Knight => self.knight,
            Role::Bishop => self.bishop,
            Role::Rook => self.rook,
            Role::Queen => self.queen,
            Role::King => self.king,
        }
    }

    /// These counts with the count of `role` replaced by `n`.
    pub open spec fn with(self, role: Role, n: u8) -> RoleCounts {
        match role {
            Role::Pawn => RoleCounts { pawn: n, ..self },
            Role::Knight => RoleCounts { knight: n, ..self },
            Role::Bishop => RoleCounts { bishop: n, ..self },
            Role::Rook => RoleCounts { rook: n, ..self },
            Role::Queen => RoleCounts { queen: n, ..self },
            Role::King => RoleCounts { king: n, ..self },
        }
    }

    /// The number of pieces, kings included.
    pub open spec fn total(self) -> int {
        self.pawn + self.knight + self.bishop + self.rook + self.queen + self.king
    }

    /// The material strength of the side: a pawn counts 1, a knight or a
    /// bishop 3, a rook 5, a queen 9; the king does not count.
    pub open spec fn strength_spec(self) -> int {
        self.pawn + 3 * self.knight + 3 * self.bishop + 5 * self.rook + 9 * self.queen
    }

    /// No piece of any role.
    pub open spec fn empty() -> RoleCounts {
        RoleCounts { pawn: 0, knight: 0, bishop: 0, rook: 0, queen: 0, king: 0 }
    }

    /// The counts of a side without pieces.
    pub fn new() -> (r: RoleCounts)
        ensures
            r == RoleCounts::empty(),
    {
        RoleCounts { pawn: 0, knight: 0, bishop: 0, rook: 0, queen: 0, king: 0 }
    }

    /// The count of one role.
    #[verifier::when_used_as_spec(get_spec)]
    pub fn get(self, role: Role) -> (n: u8)
        ensures
            n == self.get_spec(role),
    {
        match role {
            Role::Pawn => self.pawn,
            Role::Knight => self.knight,
            Role::Bishop => self.bishop,
            Role::Rook => self.rook,
            Role::Queen => self.queen,
            Role::King => self.king,
        }
    }

    /// Counts one more piece of `role`.
    pub fn add_one(&mut self, role: Role)
        requires
            old(self).get_spec(role) < u8::MAX,
        ensures
            *final(self) == old(self).with(role, (old(self).get_spec(role) + 1) as u8),
    {
        match role {
            Role::Pawn => self.pawn = self.pawn + 1,
            Role::Knight => self.knight = self.knight + 1,
            Role::Bishop => self.bishop = self.bishop + 1,
            Role::Rook => self.rook = self.rook + 1,
            Role::Queen => self.queen = self.queen + 1,
            Role::King => self.king = self.king + 1,
        }
    }
}

/// A material signature: the piece counts of both sides.
#[derive(Debug, Clone, Copy, PartialEq, Eq, Hash, Structural)]
pub struct Material {
    pub white: RoleCounts,
    pub black: RoleCounts,
}

impl Material {
    /// The counts of one side.
    pub open spec fn side_spec(self, color: Color) -> RoleCounts {
        match color {
            Color::White => self.white,
            Color::Black => self.black,
        }
    }

    /// This signature with the counts of `color` replaced.
    pub open spec fn with_side(self, color: Color, counts: RoleCounts) -> Material {
        match color {
            Color::White => Material { white: counts, ..self },
            Color::Black => Material { black: counts, ..self },
        }
    }

    /// The signature of an empty board.
    pub open spec fn empty() -> Material {
        Material { white: RoleCounts::empty(), black: RoleCounts::empty() }
    }

    /// The number of pieces of both sides.
    pub open spec fn total(self) -> int {
        self.white.total() + self.black.total()
    }

    /// The signature with the two sides exchanged.
    pub open spec fn swapped_spec(self) -> Material {
        Material { white: self.black, black: self.white }
    }

    /// The signature of an empty board.
    pub fn new() -> (r: Material)
        ensures
            r == Material::empty(),
    {
        Material { white: RoleCounts::new(), black: RoleCounts::new() }
    }

    /// The counts of one side.
    #[verifier::when_used_as_spec(side_spec)]
    pub fn side(self, color: Color) -> (r: RoleCounts)
        ensures
            r == self.side_spec(color),
    {
        match color {
            Color::White => self.white,
            Color::Black => self.black,
        }
    }

    /// The signature with the two sides exchanged.
    #[verifier::when_used_as_spec(swapped_spec)]
    pub fn swapped(self) -> (r: Material)
        ensures
            r == self.swapped_spec(),
    {
        Material { white: self.black, black: self.white }
    }
}

/// The bishop-parity variant of one side.
#[derive(Debug, Clone, Copy, PartialEq, Eq, Hash, Structural)]
pub enum BishopParity {
    /// The table does not depend on the colour of the bishops' squares.
    Absent,
    Even,
    Odd,
}

/// The bishop-parity variants of both sides.
#[derive(Debug, Clone, Copy, PartialEq, Eq, Hash, Structural)]
pub struct BishopParities {
    pub white: BishopParity,
    pub black: BishopParity,
}

impl BishopParities {
    /// Neither side has a parity variant.
    pub open spec fn none_spec() -> BishopParities {
        BishopParities { white: BishopParity::Absent, black: BishopParity::Absent }
    }

    /// Neither side has a parity variant.
    #[verifier::when_used_as_spec(none_spec)]
    pub fn none() -> (r: BishopParities)
        ensures
            r == BishopParities::none_spec(),
    {
        BishopParities { white: BishopParity::Absent, black: BishopParity::Absent }
    }
}

/// The pawn-file variant of a table.
#[derive(Debug, Clone, Copy, PartialEq, Eq, Hash, Structural)]
pub enum PawnFileType {
    /// No constraint on the pawns.
    Free,
    /// One pawn each, blocked on the same file.
    Bp1,
    /// One pawn each, on opposing files.
    Op1,
    Op21,
    Op12,
    Op22,
    /// Two pawns each, doubled.
    Dp2,
    Op31,
    Op13,
    Op41,
    Op14,
    Op32,
    Op23,
    Op33,
    Op42,
    Op24,
}

/// The bucket of a king configuration.
#[derive(Debug, Clone, Copy, PartialEq, Eq, Hash, Structural)]
pub struct KkIndex(pub u32);

/// The kind of a table file.
#[derive(Debug, Clone, Copy, PartialEq, Eq, Hash, Structural)]
pub enum TableType {
    /// The primary table.
    Mb,
    /// The table of the values above the range of the primary one.
    HighDtc,
}

/// The name of one table of the set.
#[derive(Debug, Clone, Copy, PartialEq, Eq, Hash, Structural)]
pub struct TableKey {
    pub material: Material,
    pub pawn_file_type: PawnFileType,
    pub bishop_parity: BishopParities,
    pub side: Color,
    pub kk_index: KkIndex,
    pub table_type: TableType,
}

/// What a primary table holds at one index.
#[derive(Debug, Clone, Copy, PartialEq, Eq, Structural)]
pub enum MbValue {
    /// The distance to conversion.
    Dtc(u8),
    /// The distance is above what the primary table can hold.
    MaybeHighDtc,
    /// The stronger side of this table cannot force a conversion.
    Unresolved,
}

/// What the probe of one orientation of a position found.
#[derive(Debug, Clone, Copy, PartialEq, Eq, Structural)]
pub enum SideValue {
    /// White converts in this many moves.
    Dtc(u8),
    /// White cannot force a conversion.
    Unresolved,
}

/// The game-theoretic outcome of a position, seen from the side to move.
#[derive(Debug, Clone, Copy, PartialEq, Eq, Structural)]
pub enum Value {
    /// Neither side can force a conversion.
    Draw,
    /// Signed distance to conversion: positive when the side to move wins.
    Dtc(i32),
}

} // verus!
