//! The choice of the one table that serves a position, among the variants
//! that the table set may hold for its material.

use vstd::prelude::*;

use crate::classifier::{MbInfo, ParityIndex, ALL_ONES};
use crate::position::Position;
use crate::registry::Tablebase;
use crate::types::{BishopParities, Color, KkIndex, Material, PawnFileType, TableKey, TableType};

verus! {

/// The key of the variant without pawn-file or bishop-parity constraint.
pub open spec fn base_key(
    material: Material,
    side: Color,
    kk_index: KkIndex,
    table_type: TableType,
) -> TableKey {
    TableKey {
        material,
        pawn_file_type: PawnFileType::Free,
        bishop_parity: BishopParities::none_spec(),
        side,
        kk_index,
        table_type,
    }
}

/// `base` with the bishop parities of a candidate.
pub open spec fn parity_key(base: TableKey, candidate: ParityIndex) -> TableKey {
    TableKey { bishop_parity: candidate.bishop_parity, ..base }
}

/// `base` with a pawn-file type.
pub open spec fn pawn_key(base: TableKey, pawn_file_type: PawnFileType) -> TableKey {
    TableKey { pawn_file_type, ..base }
}

/// The first candidate from place `from` on whose table is registered, with
/// its key and index.
pub open spec fn first_parity_hit(
    keys: Set<TableKey>,
    base: TableKey,
    candidates: Seq<ParityIndex>,
    from: int,
) -> Option<(TableKey, u64)>
    decreases candidates.len() - from,
{
    if from < 0 || from >= candidates.len() {
        None
    } else if keys.contains(parity_key(base, candidates[from])) {
        Some((parity_key(base, candidates[from]), candidates[from].index))
    } else {
        first_parity_hit(keys, base, candidates, from + 1)
    }
}

/// The pawn-file type whose table stands in for the table of another type,
/// where the table set allows that.
pub open spec fn substitute_spec(pawn_file_type: PawnFileType) -> Option<PawnFileType> {
    match pawn_file_type {
        PawnFileType::Bp1 => Some(PawnFileType::Op1),
        PawnFileType::Dp2 => Some(PawnFileType::Op22),
        _ => None,
    }
}

/// Whether the substitute of the position's pawn-file type serves it: the
/// type has one, the classifier gives an index for it, and its table is
/// registered.
pub open spec fn substitute_serves(keys: Set<TableKey>, base: TableKey, info: MbInfo) -> bool {
    substitute_spec(info.pawn_file_type) matches Some(other) && info.index_of_spec(other)
        != ALL_ONES && keys.contains(pawn_key(base, other))
}

/// The table chosen by the pawn-file type of the position: that of the
/// substitute where it serves, else that of the type itself, if the
/// classifier gives an index for it and it is registered.
pub open spec fn select_by_pawns(keys: Set<TableKey>, base: TableKey, info: MbInfo) -> Option<
    (TableKey, u64),
> {
    let own = info.pawn_file_type;
    if substitute_serves(keys, base, info) {
        let other = substitute_spec(own)->0;
        Some((pawn_key(base, other), info.index_of_spec(other)))
    } else if info.index_of_spec(own) != ALL_ONES && keys.contains(pawn_key(base, own)) {
        Some((pawn_key(base, own), info.index_of_spec(own)))
    } else {
        None
    }
}

/// The table that serves a position with the given material and side to
/// move, among the registered `keys`, and the index to read in it: the first
/// bishop-parity candidate that is registered, else the choice by pawn-file
/// type.
pub open spec fn select_spec(
    keys: Set<TableKey>,
    material: Material,
    side: Color,
    info: MbInfo,
    table_type: TableType,
) -> Option<(TableKey, u64)> {
    let base = base_key(material, side, info.kk_index, table_type);
    match first_parity_hit(keys, base, info.parity_index@, 0) {
        Some(hit) => Some(hit),
        None => select_by_pawns(keys, base, info),
    }
}

/// What is selected is registered, and has the material, side to move,
/// king bucket and kind that were asked for.
pub proof fn lemma_selected_is_registered(
    keys: Set<TableKey>,
    material: Material,
    side: Color,
    info: MbInfo,
    table_type: TableType,
)
    ensures
        select_spec(keys, material, side, info, table_type) matches Some((key, _)) ==> {
            &&& keys.contains(key)
            &&& key.material == material
            &&& key.side == side
            &&& key.kk_index == info.kk_index
            &&& key.table_type == table_type
        },
{
    let base = base_key(material, side, info.kk_index, table_type);
    lemma_parity_hit(keys, base, info.parity_index@, 0);
}

/// A bishop-parity hit is registered and differs from `base` in its bishop
/// parities only.
pub proof fn lemma_parity_hit(
    keys: Set<TableKey>,
    base: TableKey,
    candidates: Seq<ParityIndex>,
    from: int,
)
    ensures
        first_parity_hit(keys, base, candidates, from) matches Some((key, _)) ==> keys.contains(key)
            && key == (TableKey { bishop_parity: key.bishop_parity, ..base }),
    decreases candidates.len() - from,
{
    if 0 <= from < candidates.len() && !keys.contains(parity_key(base, candidates[from])) {
        lemma_parity_hit(keys, base, candidates, from + 1);
    }
}

/// Of two bishop-parity candidates of which only the second is registered,
/// the second is selected, with its index: not the first, and not the table
/// of the pawn-file type.
pub proof fn lemma_second_candidate_selected(
    keys: Set<TableKey>,
    material: Material,
    side: Color,
    info: MbInfo,
    table_type: TableType,
)
    requires
        info.parity_index@.len() == 2,
        !keys.contains(
            parity_key(base_key(material, side, info.kk_index, table_type), info.parity_index@[0]),
        ),
        keys.contains(
            parity_key(base_key(material, side, info.kk_index, table_type), info.parity_index@[1]),
        ),
    ensures
        select_spec(keys, material, side, info, table_type) == Some(
            (
                parity_key(
                    base_key(material, side, info.kk_index, table_type),
                    info.parity_index@[1],
                ),
                info.parity_index@[1].index,
            ),
        ),
{
    reveal_with_fuel(first_parity_hit, 3);
}

/// The pawn-file type whose table stands in for the table of another type,
/// where the table set allows that.
#[verifier::when_used_as_spec(substitute_spec)]
pub fn substitute(pawn_file_type: PawnFileType) -> (r: Option<PawnFileType>)
    ensures
        r == substitute_spec(pawn_file_type),
{
    match pawn_file_type {
        PawnFileType::Bp1 => Some(PawnFileType::Op1),
        PawnFileType::Dp2 => Some(PawnFileType::Op22),
        _ => None,
    }
}

impl<H> Tablebase<H> {
    /// Selects the table that serves `pos`, given the classifier's report on
    /// it, and the index to read there. The bishop-parity candidates are
    /// tried in the classifier's order and the first registered one wins.
    /// Else the pawn-file type decides: a type with a substitute is served
    /// by the substitute's table where the classifier gives an index for it
    /// and that table is registered; else by its own table, if the
    /// classifier gives an index and the table is registered. `None` means
    /// that no table of the registry serves the position.
    pub fn select_table(&self, pos: &Position, mb_info: &MbInfo, table_type: TableType) -> (r:
        Option<(TableKey, u64)>)
        ensures
            r == select_spec(self@.dom(), pos.material, pos.turn, *mb_info, table_type),
            r matches Some((key, _)) ==> self@.contains_key(key),
    {
        let table_key = TableKey {
            material: pos.material,
            pawn_file_type: PawnFileType::Free,
            bishop_parity: BishopParities::none(),
            side: pos.turn,
            kk_index: mb_info.kk_index,
            table_type,
        };
        proof {
            lemma_selected_is_registered(
                self@.dom(),
                pos.material,
                pos.turn,
                *mb_info,
                table_type,
            );
        }

        let mut i: usize = 0;
        while i < mb_info.parity_index.len()
            invariant
                i <= mb_info.parity_index@.len(),
                table_key == base_key(pos.material, pos.turn, mb_info.kk_index, table_type),
                first_parity_hit(self@.dom(), table_key, mb_info.parity_index@, 0)
                    == first_parity_hit(self@.dom(), table_key, mb_info.parity_index@, i as int),
            decreases mb_info.parity_index@.len() - i,
        {
            let candidate = mb_info.parity_index[i];
            let key = TableKey { bishop_parity: candidate.bishop_parity, ..table_key };
            if self.contains(&key) {
                return Some((key, candidate.index));
            }
            i = i + 1;
        }

        let pawn_file_type = mb_info.pawn_file_type;
        match substitute(pawn_file_type) {
            Some(other) => {
                let index = mb_info.index_of(other);
                if index != ALL_ONES {
                    let key = TableKey { pawn_file_type: other, ..table_key };
                    if self.contains(&key) {
                        return Some((key, index));
                    }
                }
            },
            None => {},
        }

        let index = mb_info.index_of(pawn_file_type);
        if index == ALL_ONES {
            return None;
        }
        let key = TableKey { pawn_file_type, ..table_key };
        if self.contains(&key) {
            Some((key, index))
        } else {
            None
        }
    }
}

} // verus!
