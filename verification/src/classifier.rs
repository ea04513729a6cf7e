//! What the index classifier reports of a position, and the reading of its
//! numeric codes.

use vstd::prelude::*;

use crate::types::{BishopParities, BishopParity, KkIndex, PawnFileType};

verus! {

/// The index that stands for "not applicable".
pub const ALL_ONES: u64 = 0xffff_ffff_ffff_ffff;

/// The numbers by which the classifier names the bishop parities.
#[derive(Debug, Clone, Copy)]
pub struct BishopParityCodes {
    pub none: u32,
    pub even: u32,
    pub odd: u32,
}

/// The numbers by which the classifier names the pawn-file types.
#[derive(Debug, Clone, Copy)]
pub struct PawnFileCodes {
    pub free: u32,
    pub bp_11: u32,
    pub op_11: u32,
    pub op_21: u32,
    pub op_12: u32,
    pub op_22: u32,
    pub dp_22: u32,
    pub op_31: u32,
    pub op_13: u32,
    pub op_41: u32,
    pub op_14: u32,
    pub op_32: u32,
    pub op_23: u32,
    pub op_33: u32,
    pub op_42: u32,
    pub op_24: u32,
}

/// The parity that a code names: the first of absent, even, odd whose number
/// it is.
pub open spec fn bishop_parity_of(code: u32, codes: BishopParityCodes) -> Option<BishopParity> {
    if code == codes.none {
        Some(BishopParity::Absent)
    } else if code == codes.even {
        Some(BishopParity::Even)
    } else if code == codes.odd {
        Some(BishopParity::Odd)
    } else {
        None
    }
}

/// The pawn-file type that a code names: the first, in the order of the
/// variants, whose number it is.
pub open spec fn pawn_file_type_of(code: u32, codes: PawnFileCodes) -> Option<PawnFileType> {
    if code == codes.free {
        Some(PawnFileType::Free)
    } else if code == codes.bp_11 {
        Some(PawnFileType::Bp1)
    } else if code == codes.op_11 {
        Some(PawnFileType::Op1)
    } else if code == codes.op_21 {
        Some(PawnFileType::Op21)
    } else if code == codes.op_12 {
        Some(PawnFileType::Op12)
    } else if code == codes.op_22 {
        Some(PawnFileType::Op22)
    } else if code == codes.dp_22 {
        Some(PawnFileType::Dp2)
    } else if code == codes.op_31 {
        Some(PawnFileType::Op31)
    } else if code == codes.op_13 {
        Some(PawnFileType::Op13)
    } else if code == codes.op_41 {
        Some(PawnFileType::Op41)
    } else if code == codes.op_14 {
        Some(PawnFileType::Op14)
    } else if code == codes.op_32 {
        Some(PawnFileType::Op32)
    } else if code == codes.op_23 {
        Some(PawnFileType::Op23)
    } else if code == codes.op_33 {
        Some(PawnFileType::Op33)
    } else if code == codes.op_42 {
        Some(PawnFileType::Op42)
    } else if code == codes.op_24 {
        Some(PawnFileType::Op24)
    } else {
        None
    }
}

impl BishopParity {
    /// Reads a parity from the classifier's signed code, taken as the
    /// unsigned number with the same bits. A code that names no parity comes
    /// back as the error.
    pub fn try_from(value: i32, codes: &BishopParityCodes) -> (r: Result<BishopParity, i32>)
        ensures
            r == match bishop_parity_of(value as u32, *codes) {
                Some(parity) => Ok::<BishopParity, i32>(parity),
                None => Err::<BishopParity, i32>(value),
            },
    {
        let code: u32 = #[verifier::truncate] (value as u32);
        if code == codes.none {
            Ok(BishopParity::Absent)
        } else if code == codes.even {
            Ok(BishopParity::Even)
        } else if code == codes.odd {
            Ok(BishopParity::Odd)
        } else {
            Err(value)
        }
    }
}

impl PawnFileType {
    /// Reads a pawn-file type from the classifier's signed code, taken as
    /// the unsigned number with the same bits. A code that names no type
    /// comes back as the error.
    pub fn try_from(value: i32, codes: &PawnFileCodes) -> (r: Result<PawnFileType, i32>)
        ensures
            r == match pawn_file_type_of(value as u32, *codes) {
                Some(pawn_file_type) => Ok::<PawnFileType, i32>(pawn_file_type),
                None => Err::<PawnFileType, i32>(value),
            },
    {
        let code: u32 = #[verifier::truncate] (value as u32);
        if code == codes.free {
            Ok(PawnFileType::Free)
        } else if code == codes.bp_11 {
            Ok(PawnFileType::Bp1)
        } else if code == codes.op_11 {
            Ok(PawnFileType::Op1)
        } else if code == codes.op_21 {
            Ok(PawnFileType::Op21)
        } else if code == codes.op_12 {
            Ok(PawnFileType::Op12)
        } else if code == codes.op_22 {
            Ok(PawnFileType::Op22)
        } else if code == codes.dp_22 {
            Ok(PawnFileType::Dp2)
        } else if code == codes.op_31 {
            Ok(PawnFileType::Op31)
        } else if code == codes.op_13 {
            Ok(PawnFileType::Op13)
        } else if code == codes.op_41 {
            Ok(PawnFileType::Op41)
        } else if code == codes.op_14 {
            Ok(PawnFileType::Op14)
        } else if code == codes.op_32 {
            Ok(PawnFileType::Op32)
        } else if code == codes.op_23 {
            Ok(PawnFileType::Op23)
        } else if code == codes.op_33 {
            Ok(PawnFileType::Op33)
        } else if code == codes.op_42 {
            Ok(PawnFileType::Op42)
        } else if code == codes.op_24 {
            Ok(PawnFileType::Op24)
        } else {
            Err(value)
        }
    }
}

/// One candidate that the classifier offers for the bishop-parity variant,
/// with the index to look up in that variant's table.
#[derive(Debug, Clone, Copy, PartialEq, Eq, Structural)]
pub struct ParityIndex {
    pub bishop_parity: BishopParities,
    pub index: u64,
}

/// The classifier's report on one position.
#[derive(Debug, Clone)]
pub struct MbInfo {
    /// The bucket of the king configuration.
    pub kk_index: KkIndex,
    /// The pawn-file type of the position.
    pub pawn_file_type: PawnFileType,
    /// The candidates for the bishop-parity variant, in the classifier's
    /// order.
    pub parity_index: Vec<ParityIndex>,
    /// The index in the table of each pawn-file type, or `ALL_ONES` where
    /// the type does not apply to the position.
    pub index_bp_11: u64,
    pub index_op_11: u64,
    pub index_op_21: u64,
    pub index_op_12: u64,
    pub index_op_22: u64,
    pub index_dp_22: u64,
    pub index_op_31: u64,
    pub index_op_13: u64,
    pub index_op_41: u64,
    pub index_op_14: u64,
    pub index_op_32: u64,
    pub index_op_23: u64,
    pub index_op_33: u64,
    pub index_op_42: u64,
    pub index_op_24: u64,
}

impl MbInfo {
    /// The index that the report holds for a pawn-file type; for `Free`,
    /// which has none, `ALL_ONES`.
    pub open spec fn index_of_spec(&self, pawn_file_type: PawnFileType) -> u64 {
        match pawn_file_type {
            PawnFileType::Free => ALL_ONES,
            PawnFileType::Bp1 => self.index_bp_11,
            PawnFileType::Op1 => self.index_op_11,
            PawnFileType::Op21 => self.index_op_21,
            PawnFileType::Op12 => self.index_op_12,
            PawnFileType::Op22 => self.index_op_22,
            PawnFileType::Dp2 => self.index_dp_22,
            PawnFileType::Op31 => self.index_op_31,
            PawnFileType::Op13 => self.index_op_13,
            PawnFileType::Op41 => self.index_op_41,
            PawnFileType::Op14 => self.index_op_14,
            PawnFileType::Op32 => self.index_op_32,
            PawnFileType::Op23 => self.index_op_23,
            PawnFileType::Op33 => self.index_op_33,
            PawnFileType::Op42 => self.index_op_42,
            PawnFileType::Op24 => self.index_op_24,
        }
    }

    /// The index that the report holds for a pawn-file type; for `Free`,
    /// which has none, `ALL_ONES`.
    #[verifier::when_used_as_spec(index_of_spec)]
    pub fn index_of(&self, pawn_file_type: PawnFileType) -> (index: u64)
        ensures
            index == self.index_of_spec(pawn_file_type),
    {
        match pawn_file_type {
            PawnFileType::Free => ALL_ONES,
            PawnFileType::Bp1 => self.index_bp_11,
            PawnFileType::Op1 => self.index_op_11,
            PawnFileType::Op21 => self.index_op_21,
            PawnFileType::Op12 => self.index_op_12,
            PawnFileType::Op22 => self.index_op_22,
            PawnFileType::Dp2 => self.index_dp_22,
            PawnFileType::Op31 => self.index_op_31,
            PawnFileType::Op13 => self.index_op_13,
            PawnFileType::Op41 => self.index_op_41,
            PawnFileType::Op14 => self.index_op_14,
            PawnFileType::Op32 => self.index_op_32,
            PawnFileType::Op23 => self.index_op_23,
            PawnFileType::Op33 => self.index_op_33,
            PawnFileType::Op42 => self.index_op_42,
            PawnFileType::Op24 => self.index_op_24,
        }
    }
}

} // verus!
