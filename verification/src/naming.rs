//! The naming convention of the table set: what the name of a directory and
//! the name of a file say of the tables they hold.

use vstd::prelude::*;

use crate::text::{
    chars_of, find, parse_u32, parse_u32_spec, split_once_spec, strip_suffix, strip_suffix_spec,
};
use crate::types::{
    BishopParities, BishopParity, Color, KkIndex, Material, PawnFileType, Role, TableType,
};

verus! {

/// The longest material signature that a name may hold.
pub const MAX_MATERIAL_LEN: usize = 9;

/// The role that an English piece letter names, in either case.
pub open spec fn role_of_char(c: char) -> Option<Role> {
    if c == 'P' || c == 'p' {
        Some(Role::Pawn)
    } else if c == 'N' || c == 'n' {
        Some(Role::Knight)
    } else if c == 'B' || c == 'b' {
        Some(Role::Bishop)
    } else if c == 'R' || c == 'r' {
        Some(Role::Rook)
    } else if c == 'Q' || c == 'q' {
        Some(Role::Queen)
    } else if c == 'K' || c == 'k' {
        Some(Role::King)
    } else {
        None
    }
}

/// Calls `Role::from_char` of `shakmaty` and gives its answer in the roles
/// of this library. The contract claims what that function's source shows:
/// the letters P, N, B, R, Q and K, in either case, name pawn, knight,
/// bishop, rook, queen and king, and no other character names a role.
#[verifier::external_body]
fn role_from_char(c: char) -> (r: Option<Role>)
    ensures
        r == role_of_char(c),
{
    match shakmaty::Role::from_char(c) {
        Some(shakmaty::Role::Pawn) => Some(Role::Pawn),
        Some(shakmaty::Role::Knight) => Some(Role::Knight),
        Some(shakmaty::Role::Bishop) => Some(Role::Bishop),
        Some(shakmaty::Role::Rook) => Some(Role::Rook),
        Some(shakmaty::Role::Queen) => Some(Role::Queen),
        Some(shakmaty::Role::King) => Some(Role::King),
        None => None,
    }
}

/// `material` with one more piece of `role` for `color`.
pub open spec fn with_piece(material: Material, color: Color, role: Role) -> Material {
    let side = material.side_spec(color);
    material.with_side(color, side.with(role, (side.get_spec(role) + 1) as u8))
}

/// The pieces that a sequence of piece letters counts, and the side that
/// the last of them was counted for. The letters are read from the left.
/// Before the first king letter no side is being read, which stands as
/// black; each king letter passes to the other side and counts for it, and
/// every other letter counts for the side being read. A character that
/// names no role leaves nothing.
pub open spec fn count_pieces(letters: Seq<char>) -> Option<(Material, Color)>
    decreases letters.len(),
{
    if letters.len() == 0 {
        Some((Material::empty(), Color::Black))
    } else {
        match (count_pieces(letters.drop_last()), role_of_char(letters.last())) {
            (Some((material, color)), Some(role)) => {
                let color = if role == Role::King {
                    color.other_spec()
                } else {
                    color
                };
                Some((with_piece(material, color, role), color))
            },
            _ => None,
        }
    }
}

/// The material signature that a name writes: at most nine piece letters,
/// counted as `count_pieces` says.
pub open spec fn parse_material_spec(name: Seq<char>) -> Option<Material> {
    if name.len() > MAX_MATERIAL_LEN {
        None
    } else {
        match count_pieces(name) {
            Some((material, _)) => Some(material),
            None => None,
        }
    }
}

/// The suffixes that name the bishop parity of black, in the order in which
/// they are tried.
pub open spec fn black_parity_rules() -> Seq<(Seq<char>, BishopParity)> {
    seq![("_bbo"@, BishopParity::Odd), ("_bbe"@, BishopParity::Even)]
}

/// The suffixes that name the bishop parity of white, in the order in which
/// they are tried.
pub open spec fn white_parity_rules() -> Seq<(Seq<char>, BishopParity)> {
    seq![("_wbo"@, BishopParity::Odd), ("_wbe"@, BishopParity::Even)]
}

/// The suffixes that name a pawn-file type, in the order in which they are
/// tried.
pub open spec fn pawn_file_rules() -> Seq<(Seq<char>, PawnFileType)> {
    seq![
        ("_bp1"@, PawnFileType::Bp1),
        ("_op1"@, PawnFileType::Op1),
        ("_op21"@, PawnFileType::Op21),
        ("_op12"@, PawnFileType::Op12),
        ("_dp2"@, PawnFileType::Dp2),
        ("_op22"@, PawnFileType::Op22),
        ("_op31"@, PawnFileType::Op31),
        ("_op13"@, PawnFileType::Op13),
        ("_op41"@, PawnFileType::Op41),
        ("_op14"@, PawnFileType::Op14),
        ("_op32"@, PawnFileType::Op32),
        ("_op23"@, PawnFileType::Op23),
        ("_op33"@, PawnFileType::Op33),
        ("_op42"@, PawnFileType::Op42),
        ("_op24"@, PawnFileType::Op24),
    ]
}

/// Strips from `name` the suffix of the first rule, from place `from` on,
/// whose suffix `name` ends with, and gives what is left with the rule's
/// tag; where no rule applies, `name` with `default`.
pub open spec fn strip_first<T>(
    name: Seq<char>,
    rules: Seq<(Seq<char>, T)>,
    from: int,
    default: T,
) -> (Seq<char>, T)
    decreases rules.len() - from,
{
    if from < 0 || from >= rules.len() {
        (name, default)
    } else {
        match strip_suffix_spec(name, rules[from].0) {
            Some(rest) => (rest, rules[from].1),
            None => strip_first(name, rules, from + 1, default),
        }
    }
}

/// What the name of a directory says of its tables: the material signature,
/// the pawn-file type and the bishop parities. After the closing `_out`, the
/// parity of black and then that of white are stripped from the end; a
/// pawn-file type is looked for only where neither is there.
pub open spec fn parse_dirname_spec(name: Seq<char>) -> Option<
    (Material, PawnFileType, BishopParities),
> {
    match strip_suffix_spec(name, "_out"@) {
        None => None,
        Some(name) => {
            let (name, black) = strip_first(name, black_parity_rules(), 0, BishopParity::Absent);
            let (name, white) = strip_first(name, white_parity_rules(), 0, BishopParity::Absent);
            let (name, pawn_file_type) = if black == BishopParity::Absent && white
                == BishopParity::Absent {
                strip_first(name, pawn_file_rules(), 0, PawnFileType::Free)
            } else {
                (name, PawnFileType::Free)
            };
            match parse_material_spec(name) {
                Some(material) => Some((material, pawn_file_type, BishopParities { white, black })),
                None => None,
            }
        },
    }
}

/// The kind of table that the extension of a file name stands for, with the
/// name before the extension.
pub open spec fn strip_extension(name: Seq<char>) -> Option<(Seq<char>, TableType)> {
    match strip_suffix_spec(name, ".mb"@) {
        Some(stem) => Some((stem, TableType::Mb)),
        None => match strip_suffix_spec(name, ".hi"@) {
            Some(stem) => Some((stem, TableType::HighDtc)),
            None => None,
        },
    }
}

/// The side to move that the marker in the stem of a file name stands for,
/// with what stands before and after the marker. The first `_b_` counts;
/// `_w_` is looked for only where there is no `_b_`.
pub open spec fn split_side(stem: Seq<char>) -> Option<(Seq<char>, Color, Seq<char>)> {
    match split_once_spec(stem, "_b_"@) {
        Some((material, kk_index)) => Some((material, Color::Black, kk_index)),
        None => match split_once_spec(stem, "_w_"@) {
            Some((material, kk_index)) => Some((material, Color::White, kk_index)),
            None => None,
        },
    }
}

/// What the name of a file says of its table: the material signature, the
/// side to move, the bucket of the king configuration and the kind.
pub open spec fn parse_filename_spec(name: Seq<char>) -> Option<
    (Material, Color, KkIndex, TableType),
> {
    match strip_extension(name) {
        None => None,
        Some((stem, table_type)) => match split_side(stem) {
            None => None,
            Some((material, side, kk_index)) => match (
                parse_material_spec(material),
                parse_u32_spec(kk_index),
            ) {
                (Some(material), Some(kk_index)) => Some(
                    (material, side, KkIndex(kk_index), table_type),
                ),
                _ => None,
            },
        },
    }
}

/// Each letter read adds one piece.
pub proof fn lemma_count_pieces_total(letters: Seq<char>)
    ensures
        count_pieces(letters) matches Some((material, _)) ==> material.total() <= letters.len(),
    decreases letters.len(),
{
    if letters.len() > 0 {
        lemma_count_pieces_total(letters.drop_last());
    }
}

/// Reads the material signature that the part of `name` before place `end`
/// writes.
fn parse_material_chars(name: &Vec<char>, end: usize) -> (r: Option<Material>)
    requires
        end <= name@.len(),
    ensures
        r == parse_material_spec(name@.take(end as int)),
{
    if end > MAX_MATERIAL_LEN {
        return None;
    }
    let ghost letters = name@.take(end as int);
    let mut material = Material::new();
    let mut color = Color::Black;
    let mut i: usize = 0;
    while i < end
        invariant
            i <= end <= name@.len(),
            end <= MAX_MATERIAL_LEN,
            letters == name@.take(end as int),
            count_pieces(letters.take(i as int)) == Some((material, color)),
        decreases end - i,
    {
        let ghost read = letters.take(i + 1);
        proof {
            assert(read.drop_last() =~= letters.take(i as int));
            assert(read.last() == name@[i as int]);
            lemma_count_pieces_total(letters.take(i as int));
        }
        match role_from_char(name[i]) {
            None => {
                proof {
                    lemma_count_pieces_prefix(letters, i + 1);
                }
                return None;
            },
            Some(role) => {
                if role == Role::King {
                    color = color.other();
                }
                let mut side = material.side(color);
                side.add_one(role);
                match color {
                    Color::White => material.white = side,
                    Color::Black => material.black = side,
                }
            },
        }
        i = i + 1;
    }
    proof {
        assert(letters.take(i as int) =~= letters);
    }
    Some(material)
}

/// Letters that count count from their beginning on: where a beginning of a
/// sequence holds a character that names no role, so does the sequence.
pub proof fn lemma_count_pieces_prefix(letters: Seq<char>, n: int)
    requires
        0 <= n <= letters.len(),
        count_pieces(letters.take(n)) is None,
    ensures
        count_pieces(letters) is None,
    decreases letters.len(),
{
    if n < letters.len() {
        assert(letters.drop_last().take(n) =~= letters.take(n));
        lemma_count_pieces_prefix(letters.drop_last(), n);
    } else {
        assert(letters.take(n) =~= letters);
    }
}

/// Reads a material signature: at most nine piece letters, in either case,
/// the pieces of white from the first king letter on and those of black
/// from the second. `None` for a longer name and for one that holds a
/// character that names no role.
pub fn parse_material(name: &str) -> (r: Option<Material>)
    ensures
        r == parse_material_spec(name@),
{
    let chars = chars_of(name);
    proof {
        assert(chars@.take(chars@.len() as int) =~= chars@);
    }
    parse_material_chars(&chars, chars.len())
}

/// Strips the bishop parity of black from the end of the part of `name`
/// before place `end`: the new end and the parity.
fn strip_black_parity(name: &Vec<char>, end: usize) -> (r: (usize, BishopParity))
    requires
        end <= name@.len(),
    ensures
        r.0 <= end,
        (name@.take(r.0 as int), r.1) == strip_first(
            name@.take(end as int),
            black_parity_rules(),
            0,
            BishopParity::Absent,
        ),
{
    reveal_with_fuel(strip_first, 3);
    if let Some(rest) = strip_suffix(name, end, "_bbo") {
        (rest, BishopParity::Odd)
    } else if let Some(rest) = strip_suffix(name, end, "_bbe") {
        (rest, BishopParity::Even)
    } else {
        (end, BishopParity::Absent)
    }
}

/// Strips the bishop parity of white from the end of the part of `name`
/// before place `end`: the new end and the parity.
fn strip_white_parity(name: &Vec<char>, end: usize) -> (r: (usize, BishopParity))
    requires
        end <= name@.len(),
    ensures
        r.0 <= end,
        (name@.take(r.0 as int), r.1) == strip_first(
            name@.take(end as int),
            white_parity_rules(),
            0,
            BishopParity::Absent,
        ),
{
    reveal_with_fuel(strip_first, 3);
    if let Some(rest) = strip_suffix(name, end, "_wbo") {
        (rest, BishopParity::Odd)
    } else if let Some(rest) = strip_suffix(name, end, "_wbe") {
        (rest, BishopParity::Even)
    } else {
        (end, BishopParity::Absent)
    }
}

/// Strips the pawn-file type from the end of the part of `name` before place
/// `end`: the new end and the type.
fn strip_pawn_file_type(name: &Vec<char>, end: usize) -> (r: (usize, PawnFileType))
    requires
        end <= name@.len(),
    ensures
        r.0 <= end,
        (name@.take(r.0 as int), r.1) == strip_first(
            name@.take(end as int),
            pawn_file_rules(),
            0,
            PawnFileType::Free,
        ),
{
    reveal_with_fuel(strip_first, 16);
    if let Some(rest) = strip_suffix(name, end, "_bp1") {
        (rest, PawnFileType::Bp1)
    } else if let Some(rest) = strip_suffix(name, end, "_op1") {
        (rest, PawnFileType::Op1)
    } else if let Some(rest) = strip_suffix(name, end, "_op21") {
        (rest, PawnFileType::Op21)
    } else if let Some(rest) = strip_suffix(name, end, "_op12") {
        (rest, PawnFileType::Op12)
    } else if let Some(rest) = strip_suffix(name, end, "_dp2") {
        (rest, PawnFileType::Dp2)
    } else if let Some(rest) = strip_suffix(name, end, "_op22") {
        (rest, PawnFileType::Op22)
    } else if let Some(rest) = strip_suffix(name, end, "_op31") {
        (rest, PawnFileType::Op31)
    } else if let Some(rest) = strip_suffix(name, end, "_op13") {
        (rest, PawnFileType::Op13)
    } else if let Some(rest) = strip_suffix(name, end, "_op41") {
        (rest, PawnFileType::Op41)
    } else if let Some(rest) = strip_suffix(name, end, "_op14") {
        (rest, PawnFileType::Op14)
    } else if let Some(rest) = strip_suffix(name, end, "_op32") {
        (rest, PawnFileType::Op32)
    } else if let Some(rest) = strip_suffix(name, end, "_op23") {
        (rest, PawnFileType::Op23)
    } else if let Some(rest) = strip_suffix(name, end, "_op33") {
        (rest, PawnFileType::Op33)
    } else if let Some(rest) = strip_suffix(name, end, "_op42") {
        (rest, PawnFileType::Op42)
    } else if let Some(rest) = strip_suffix(name, end, "_op24") {
        (rest, PawnFileType::Op24)
    } else {
        (end, PawnFileType::Free)
    }
}

/// Reads the name of a directory of tables: `None` where it does not end
/// with `_out` or where what stands before the suffixes is no material
/// signature; else the signature, the pawn-file type (`Free` where none is
/// named, and always beside a bishop parity) and the bishop parities.
pub fn parse_dirname(name: &str) -> (r: Option<(Material, PawnFileType, BishopParities)>)
    ensures
        r == parse_dirname_spec(name@),
{
    let chars = chars_of(name);
    proof {
        assert(chars@.take(chars@.len() as int) =~= chars@);
    }
    let end = match strip_suffix(&chars, chars.len(), "_out") {
        Some(end) => end,
        None => {
            return None;
        },
    };
    let (end, black) = strip_black_parity(&chars, end);
    let (end, white) = strip_white_parity(&chars, end);
    let (end, pawn_file_type) = if black == BishopParity::Absent && white == BishopParity::Absent {
        strip_pawn_file_type(&chars, end)
    } else {
        (end, PawnFileType::Free)
    };
    match parse_material_chars(&chars, end) {
        Some(material) => Some((material, pawn_file_type, BishopParities { white, black })),
        None => None,
    }
}

/// Reads the name of a table file: `None` where the extension is neither
/// `.mb` nor `.hi`, where the stem holds neither `_b_` nor `_w_`, where what
/// stands before the marker is no material signature, or where what stands
/// after it is no unsigned 32-bit number; else the signature, the side to
/// move, the bucket of the king configuration and the kind of table.
pub fn parse_filename(name: &str) -> (r: Option<(Material, Color, KkIndex, TableType)>)
    ensures
        r == parse_filename_spec(name@),
{
    let chars = chars_of(name);
    proof {
        assert(chars@.take(chars@.len() as int) =~= chars@);
    }
    let (end, table_type) = if let Some(end) = strip_suffix(&chars, chars.len(), ".mb") {
        (end, TableType::Mb)
    } else if let Some(end) = strip_suffix(&chars, chars.len(), ".hi") {
        (end, TableType::HighDtc)
    } else {
        return None;
    };
    let ghost stem = chars@.take(end as int);
    let (at, side) = if let Some(at) = find(&chars, end, "_b_") {
        (at, Color::Black)
    } else if let Some(at) = find(&chars, end, "_w_") {
        (at, Color::White)
    } else {
        return None;
    };
    let marker_len: usize = 3;
    proof {
        reveal_strlit("_b_");
        reveal_strlit("_w_");
        assert(stem.take(at as int) =~= chars@.take(at as int));
    }
    proof {
        assert(chars@.subrange(at + marker_len, end as int) =~= stem.skip(at + marker_len));
    }
    match (parse_material_chars(&chars, at), parse_u32(&chars, at + marker_len, end)) {
        (Some(material), Some(kk_index)) => Some((material, side, KkIndex(kk_index), table_type)),
        _ => None,
    }
}

} // verus!
