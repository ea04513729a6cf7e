//! The directory name of a family of tables, and the proof that reading the
//! name gives the family back.

use vstd::prelude::*;

use crate::naming::{
    black_parity_rules, count_pieces, parse_dirname_spec, parse_material_spec, pawn_file_rules,
    role_of_char, strip_first, white_parity_rules, with_piece, MAX_MATERIAL_LEN,
};
use crate::text::{ends_with_spec, strip_suffix_spec};
use crate::types::{
    BishopParities, BishopParity, Color, Material, PawnFileType, Role, RoleCounts,
};

verus! {

/// `n` times the character `c`.
pub open spec fn letters(c: char, n: int) -> Seq<char> {
    Seq::new(n as nat, |i: int| c)
}

/// The letters of one side: the king, then queens, rooks, bishops, knights
/// and pawns.
pub open spec fn side_name(counts: RoleCounts) -> Seq<char> {
    seq!['k'] + letters('q', counts.queen as int) + letters('r', counts.rook as int) + letters(
        'b',
        counts.bishop as int,
    ) + letters('n', counts.knight as int) + letters('p', counts.pawn as int)
}

/// The name of a material signature: the letters of white, then those of
/// black.
pub open spec fn material_name(material: Material) -> Seq<char> {
    side_name(material.white) + side_name(material.black)
}

/// The suffix that names a pawn-file type; `Free` has none.
pub open spec fn pawn_file_suffix(pawn_file_type: PawnFileType) -> Seq<char> {
    match pawn_file_type {
        PawnFileType::Free => Seq::empty(),
        PawnFileType::Bp1 => "_bp1"@,
        PawnFileType::Op1 => "_op1"@,
        PawnFileType::Op21 => "_op21"@,
        PawnFileType::Op12 => "_op12"@,
        PawnFileType::Op22 => "_op22"@,
        PawnFileType::Dp2 => "_dp2"@,
        PawnFileType::Op31 => "_op31"@,
        PawnFileType::Op13 => "_op13"@,
        PawnFileType::Op41 => "_op41"@,
        PawnFileType::Op14 => "_op14"@,
        PawnFileType::Op32 => "_op32"@,
        PawnFileType::Op23 => "_op23"@,
        PawnFileType::Op33 => "_op33"@,
        PawnFileType::Op42 => "_op42"@,
        PawnFileType::Op24 => "_op24"@,
    }
}

/// The suffix that names the bishop parity of white; without parity, none.
pub open spec fn white_parity_suffix(parity: BishopParity) -> Seq<char> {
    match parity {
        BishopParity::Absent => Seq::empty(),
        BishopParity::Even => "_wbe"@,
        BishopParity::Odd => "_wbo"@,
    }
}

/// The suffix that names the bishop parity of black; without parity, none.
pub open spec fn black_parity_suffix(parity: BishopParity) -> Seq<char> {
    match parity {
        BishopParity::Absent => Seq::empty(),
        BishopParity::Even => "_bbe"@,
        BishopParity::Odd => "_bbo"@,
    }
}

/// The name of the directory of a family of tables.
pub open spec fn dirname_of(
    material: Material,
    pawn_file_type: PawnFileType,
    bishop_parity: BishopParities,
) -> Seq<char> {
    material_name(material) + pawn_file_suffix(pawn_file_type) + white_parity_suffix(
        bishop_parity.white,
    ) + black_parity_suffix(bishop_parity.black) + "_out"@
}

/// The families that have a directory: one king a side, at most nine
/// pieces, and a pawn-file type only without bishop parities.
pub open spec fn valid_family(
    material: Material,
    pawn_file_type: PawnFileType,
    bishop_parity: BishopParities,
) -> bool {
    &&& material.white.king == 1
    &&& material.black.king == 1
    &&& material.total() <= MAX_MATERIAL_LEN
    &&& pawn_file_type == PawnFileType::Free || bishop_parity == BishopParities::none_spec()
}

/// `counts` with `n` more pieces of `role`.
pub open spec fn with_more(counts: RoleCounts, role: Role, n: int) -> RoleCounts {
    counts.with(role, (counts.get_spec(role) + n) as u8)
}

/// Reading `n` more letters of a role other than the king counts `n` more
/// pieces of that role for the side being read.
proof fn lemma_count_letters(
    read: Seq<char>,
    material: Material,
    color: Color,
    c: char,
    role: Role,
    n: int,
)
    requires
        0 <= n,
        count_pieces(read) == Some((material, color)),
        role_of_char(c) == Some(role),
        role != Role::King,
        material.side_spec(color).get_spec(role) + n <= u8::MAX,
    ensures
        count_pieces(read + letters(c, n)) == Some(
            (material.with_side(color, with_more(material.side_spec(color), role, n)), color),
        ),
    decreases n,
{
    if n == 0 {
        assert(read + letters(c, 0) =~= read);
        assert(material.with_side(color, with_more(material.side_spec(color), role, 0))
            == material);
    } else {
        lemma_count_letters(read, material, color, c, role, n - 1);
        let longer = read + letters(c, n);
        assert(longer.drop_last() =~= read + letters(c, n - 1));
        assert(longer.last() == c);
    }
}

/// Reading the letters of one side after `read`, which ends on the other
/// side, counts the pieces of that side.
proof fn lemma_count_side(read: Seq<char>, material: Material, before: Color, counts: RoleCounts)
    requires
        count_pieces(read) == Some((material, before)),
        material.side_spec(before.other_spec()) == RoleCounts::empty(),
        counts.king == 1,
    ensures
        count_pieces(read + side_name(counts)) == Some(
            (material.with_side(before.other_spec(), counts), before.other_spec()),
        ),
{
    let color = before.other_spec();
    let king = read + seq!['k'];
    assert(king.drop_last() =~= read);
    assert(king.last() == 'k');
    let m0 = with_piece(material, color, Role::King);
    assert(count_pieces(king) == Some((m0, color)));
    let queens = king + letters('q', counts.queen as int);
    lemma_count_letters(king, m0, color, 'q', Role::Queen, counts.queen as int);
    let m1 = m0.with_side(color, with_more(m0.side_spec(color), Role::Queen, counts.queen as int));
    let rooks = queens + letters('r', counts.rook as int);
    lemma_count_letters(queens, m1, color, 'r', Role::Rook, counts.rook as int);
    let m2 = m1.with_side(color, with_more(m1.side_spec(color), Role::Rook, counts.rook as int));
    let bishops = rooks + letters('b', counts.bishop as int);
    lemma_count_letters(rooks, m2, color, 'b', Role::Bishop, counts.bishop as int);
    let m3 = m2.with_side(
        color,
        with_more(m2.side_spec(color), Role::Bishop, counts.bishop as int),
    );
    let knights = bishops + letters('n', counts.knight as int);
    lemma_count_letters(bishops, m3, color, 'n', Role::Knight, counts.knight as int);
    let m4 = m3.with_side(
        color,
        with_more(m3.side_spec(color), Role::Knight, counts.knight as int),
    );
    let pawns = knights + letters('p', counts.pawn as int);
    lemma_count_letters(knights, m4, color, 'p', Role::Pawn, counts.pawn as int);
    assert(pawns =~= read + side_name(counts));
}

/// Whether no character of `name` is an underscore.
pub open spec fn plain(name: Seq<char>) -> bool {
    forall|i: int| 0 <= i < name.len() ==> name[i] != '_'
}

/// Whether `suffix` begins with an underscore and holds no other.
pub open spec fn tagged(suffix: Seq<char>) -> bool {
    &&& suffix.len() > 0
    &&& suffix[0] == '_'
    &&& forall|i: int| 1 <= i < suffix.len() ==> suffix[i] != '_'
}

/// The letters of one side are as many as its pieces with one king, and
/// none is an underscore.
proof fn lemma_side_name_plain(counts: RoleCounts)
    ensures
        side_name(counts).len() == counts.total() - counts.king + 1,
        plain(side_name(counts)),
{
}

/// The name of a material signature with one king a side reads as that
/// signature; it has as many letters as there are pieces, and no
/// underscore.
pub proof fn lemma_material_name_reads_back(material: Material)
    requires
        material.white.king == 1,
        material.black.king == 1,
    ensures
        count_pieces(material_name(material)) == Some((material, Color::Black)),
        material_name(material).len() == material.total(),
        plain(material_name(material)),
{
    let empty = Seq::<char>::empty();
    lemma_count_side(empty, Material::empty(), Color::Black, material.white);
    assert(empty + side_name(material.white) =~= side_name(material.white));
    let white = Material::empty().with_side(Color::White, material.white);
    lemma_count_side(side_name(material.white), white, Color::White, material.black);
    assert(white.with_side(Color::Black, material.black) == material);
    assert forall|i: int| 0 <= i < material_name(material).len() implies material_name(
        material,
    )[i] != '_' by {
        lemma_side_name_plain(material.white);
        lemma_side_name_plain(material.black);
    }
}

/// After a name without underscore, a suffix that begins with the only
/// underscore it holds ends the whole exactly when it is the last part.
pub proof fn lemma_ends_with_tag(name: Seq<char>, part: Seq<char>, suffix: Seq<char>)
    requires
        plain(name),
        part.len() == 0 || tagged(part),
        tagged(suffix),
    ensures
        ends_with_spec(name + part, suffix) <==> part == suffix,
        part == suffix ==> strip_suffix_spec(name + part, suffix) == Some(name),
{
    let whole = name + part;
    let at = whole.len() - suffix.len();
    if part == suffix {
        assert(whole.subrange(at, at + suffix.len()) =~= suffix);
        assert(whole.take(at) =~= name);
    }
    if ends_with_spec(whole, suffix) {
        let found = whole.subrange(at, at + suffix.len());
        assert(found[0] == '_');
        assert(whole[at] == '_');
        if at < name.len() {
            assert(name[at] == '_');
        }
        assert(part[at - name.len()] == '_');
        assert(at == name.len());
        assert(found =~= part);
    }
}

/// After any name, a suffix ends the whole, whose last part is as long as
/// the suffix, exactly when it is that part.
pub proof fn lemma_ends_with_same_length(name: Seq<char>, part: Seq<char>, suffix: Seq<char>)
    requires
        part.len() == suffix.len(),
    ensures
        ends_with_spec(name + part, suffix) <==> part == suffix,
        part == suffix ==> strip_suffix_spec(name + part, suffix) == Some(name),
{
    let whole = name + part;
    let at = whole.len() - suffix.len();
    assert(whole.subrange(at, at + suffix.len()) =~= part);
    assert(whole.take(at) =~= name);
}

/// Every suffix of the naming convention begins with the only underscore
/// it holds.
proof fn lemma_suffixes_tagged()
    ensures
        forall|t: PawnFileType| t != PawnFileType::Free ==> tagged(#[trigger] pawn_file_suffix(t)),
        forall|p: BishopParity|
            p != BishopParity::Absent ==> tagged(#[trigger] white_parity_suffix(p)) && tagged(
                #[trigger] black_parity_suffix(p),
            ),
        forall|p: BishopParity|
            p != BishopParity::Absent ==> (#[trigger] white_parity_suffix(p)).len() == 4 && (
            #[trigger] black_parity_suffix(p)).len() == 4,
        "_out"@.len() == 4,
{
    reveal_strlit("_bp1");
    reveal_strlit("_op1");
    reveal_strlit("_op21");
    reveal_strlit("_op12");
    reveal_strlit("_dp2");
    reveal_strlit("_op22");
    reveal_strlit("_op31");
    reveal_strlit("_op13");
    reveal_strlit("_op41");
    reveal_strlit("_op14");
    reveal_strlit("_op32");
    reveal_strlit("_op23");
    reveal_strlit("_op33");
    reveal_strlit("_op42");
    reveal_strlit("_op24");
    reveal_strlit("_bbo");
    reveal_strlit("_bbe");
    reveal_strlit("_wbo");
    reveal_strlit("_wbe");
    reveal_strlit("_out");
}

/// How each suffix of the naming convention is spelled.
proof fn lemma_spelling()
    ensures
        "_bp1"@.len() == 4,
        "_bp1"@[0] == '_',
        "_bp1"@[1] == 'b',
        "_bp1"@[2] == 'p',
        "_bp1"@[3] == '1',
        "_op1"@.len() == 4,
        "_op1"@[0] == '_',
        "_op1"@[1] == 'o',
        "_op1"@[2] == 'p',
        "_op1"@[3] == '1',
        "_op21"@.len() == 5,
        "_op21"@[0] == '_',
        "_op21"@[1] == 'o',
        "_op21"@[2] == 'p',
        "_op21"@[3] == '2',
        "_op21"@[4] == '1',
        "_op12"@.len() == 5,
        "_op12"@[0] == '_',
        "_op12"@[1] == 'o',
        "_op12"@[2] == 'p',
        "_op12"@[3] == '1',
        "_op12"@[4] == '2',
        "_dp2"@.len() == 4,
        "_dp2"@[0] == '_',
        "_dp2"@[1] == 'd',
        "_dp2"@[2] == 'p',
        "_dp2"@[3] == '2',
        "_op22"@.len() == 5,
        "_op22"@[0] == '_',
        "_op22"@[1] == 'o',
        "_op22"@[2] == 'p',
        "_op22"@[3] == '2',
        "_op22"@[4] == '2',
        "_op31"@.len() == 5,
        "_op31"@[0] == '_',
        "_op31"@[1] == 'o',
        "_op31"@[2] == 'p',
        "_op31"@[3] == '3',
        "_op31"@[4] == '1',
        "_op13"@.len() == 5,
        "_op13"@[0] == '_',
        "_op13"@[1] == 'o',
        "_op13"@[2] == 'p',
        "_op13"@[3] == '1',
        "_op13"@[4] == '3',
        "_op41"@.len() == 5,
        "_op41"@[0] == '_',
        "_op41"@[1] == 'o',
        "_op41"@[2] == 'p',
        "_op41"@[3] == '4',
        "_op41"@[4] == '1',
        "_op14"@.len() == 5,
        "_op14"@[0] == '_',
        "_op14"@[1] == 'o',
        "_op14"@[2] == 'p',
        "_op14"@[3] == '1',
        "_op14"@[4] == '4',
        "_op32"@.len() == 5,
        "_op32"@[0] == '_',
        "_op32"@[1] == 'o',
        "_op32"@[2] == 'p',
        "_op32"@[3] == '3',
        "_op32"@[4] == '2',
        "_op23"@.len() == 5,
        "_op23"@[0] == '_',
        "_op23"@[1] == 'o',
        "_op23"@[2] == 'p',
        "_op23"@[3] == '2',
        "_op23"@[4] == '3',
        "_op33"@.len() == 5,
        "_op33"@[0] == '_',
        "_op33"@[1] == 'o',
        "_op33"@[2] == 'p',
        "_op33"@[3] == '3',
        "_op33"@[4] == '3',
        "_op42"@.len() == 5,
        "_op42"@[0] == '_',
        "_op42"@[1] == 'o',
        "_op42"@[2] == 'p',
        "_op42"@[3] == '4',
        "_op42"@[4] == '2',
        "_op24"@.len() == 5,
        "_op24"@[0] == '_',
        "_op24"@[1] == 'o',
        "_op24"@[2] == 'p',
        "_op24"@[3] == '2',
        "_op24"@[4] == '4',
        "_bbo"@.len() == 4,
        "_bbo"@[0] == '_',
        "_bbo"@[1] == 'b',
        "_bbo"@[2] == 'b',
        "_bbo"@[3] == 'o',
        "_bbe"@.len() == 4,
        "_bbe"@[0] == '_',
        "_bbe"@[1] == 'b',
        "_bbe"@[2] == 'b',
        "_bbe"@[3] == 'e',
        "_wbo"@.len() == 4,
        "_wbo"@[0] == '_',
        "_wbo"@[1] == 'w',
        "_wbo"@[2] == 'b',
        "_wbo"@[3] == 'o',
        "_wbe"@.len() == 4,
        "_wbe"@[0] == '_',
        "_wbe"@[1] == 'w',
        "_wbe"@[2] == 'b',
        "_wbe"@[3] == 'e',
        "_out"@.len() == 4,
        "_out"@[0] == '_',
        "_out"@[1] == 'o',
        "_out"@[2] == 'u',
        "_out"@[3] == 't',
{
    reveal_strlit("_bp1");
    reveal_strlit("_op1");
    reveal_strlit("_op21");
    reveal_strlit("_op12");
    reveal_strlit("_dp2");
    reveal_strlit("_op22");
    reveal_strlit("_op31");
    reveal_strlit("_op13");
    reveal_strlit("_op41");
    reveal_strlit("_op14");
    reveal_strlit("_op32");
    reveal_strlit("_op23");
    reveal_strlit("_op33");
    reveal_strlit("_op42");
    reveal_strlit("_op24");
    reveal_strlit("_bbo");
    reveal_strlit("_bbe");
    reveal_strlit("_wbo");
    reveal_strlit("_wbe");
    reveal_strlit("_out");
}

/// After a name without underscore, the rules for the pawn-file type strip
/// the suffix of a type and find that type.
proof fn lemma_strip_pawn_file_type(name: Seq<char>, pawn_file_type: PawnFileType)
    requires
        plain(name),
    ensures
        strip_first(
            name + pawn_file_suffix(pawn_file_type),
            pawn_file_rules(),
            0,
            PawnFileType::Free,
        ) == (name, pawn_file_type),
{
    let part = pawn_file_suffix(pawn_file_type);
    lemma_suffixes_tagged();
    reveal_with_fuel(strip_first, 16);
    lemma_spelling();
    lemma_ends_with_tag(name, part, "_bp1"@);
    lemma_ends_with_tag(name, part, "_op1"@);
    lemma_ends_with_tag(name, part, "_op21"@);
    lemma_ends_with_tag(name, part, "_op12"@);
    lemma_ends_with_tag(name, part, "_dp2"@);
    lemma_ends_with_tag(name, part, "_op22"@);
    lemma_ends_with_tag(name, part, "_op31"@);
    lemma_ends_with_tag(name, part, "_op13"@);
    lemma_ends_with_tag(name, part, "_op41"@);
    lemma_ends_with_tag(name, part, "_op14"@);
    lemma_ends_with_tag(name, part, "_op32"@);
    lemma_ends_with_tag(name, part, "_op23"@);
    lemma_ends_with_tag(name, part, "_op33"@);
    lemma_ends_with_tag(name, part, "_op42"@);
    lemma_ends_with_tag(name, part, "_op24"@);
    assert(name + Seq::<char>::empty() =~= name);
}

/// After a name without underscore, the rules for the bishop parity of
/// white strip the suffix of a parity and find that parity.
proof fn lemma_strip_white_parity(name: Seq<char>, parity: BishopParity)
    requires
        plain(name),
    ensures
        strip_first(
            name + white_parity_suffix(parity),
            white_parity_rules(),
            0,
            BishopParity::Absent,
        ) == (name, parity),
{
    let part = white_parity_suffix(parity);
    lemma_suffixes_tagged();
    reveal_with_fuel(strip_first, 3);
    lemma_spelling();
    lemma_ends_with_tag(name, part, "_wbo"@);
    lemma_ends_with_tag(name, part, "_wbe"@);
    assert(name + Seq::<char>::empty() =~= name);
}

/// After any name, the rules for the bishop parity of black strip the
/// suffix of a parity of black and find that parity.
proof fn lemma_strip_black_parity(name: Seq<char>, parity: BishopParity)
    requires
        parity != BishopParity::Absent,
    ensures
        strip_first(
            name + black_parity_suffix(parity),
            black_parity_rules(),
            0,
            BishopParity::Absent,
        ) == (name, parity),
{
    let part = black_parity_suffix(parity);
    reveal_with_fuel(strip_first, 3);
    lemma_spelling();
    lemma_ends_with_same_length(name, part, "_bbo"@);
    lemma_ends_with_same_length(name, part, "_bbe"@);
}

/// After a name without underscore and the suffix of a pawn-file type or of
/// a parity of white, the rules for the bishop parity of black find none.
proof fn lemma_no_black_parity(name: Seq<char>, part: Seq<char>)
    requires
        plain(name),
        (exists|t: PawnFileType| part == pawn_file_suffix(t)) || (exists|p: BishopParity|
            part == white_parity_suffix(p)),
    ensures
        strip_first(name + part, black_parity_rules(), 0, BishopParity::Absent) == (
            name + part,
            BishopParity::Absent,
        ),
{
    lemma_suffixes_tagged();
    reveal_with_fuel(strip_first, 3);
    lemma_spelling();
    lemma_ends_with_tag(name, part, "_bbo"@);
    lemma_ends_with_tag(name, part, "_bbe"@);
}

/// After a name without underscore and the suffix of a pawn-file type, the
/// rules for the bishop parity of white find none.
proof fn lemma_no_white_parity(name: Seq<char>, pawn_file_type: PawnFileType)
    requires
        plain(name),
    ensures
        strip_first(
            name + pawn_file_suffix(pawn_file_type),
            white_parity_rules(),
            0,
            BishopParity::Absent,
        ) == (name + pawn_file_suffix(pawn_file_type), BishopParity::Absent),
{
    let part = pawn_file_suffix(pawn_file_type);
    lemma_suffixes_tagged();
    reveal_with_fuel(strip_first, 3);
    lemma_spelling();
    lemma_ends_with_tag(name, part, "_wbo"@);
    lemma_ends_with_tag(name, part, "_wbe"@);
}

/// Decoding is the inverse of encoding: the directory name of a family of
/// tables reads as that family.
pub proof fn lemma_dirname_reads_back(
    material: Material,
    pawn_file_type: PawnFileType,
    bishop_parity: BishopParities,
)
    requires
        valid_family(material, pawn_file_type, bishop_parity),
    ensures
        parse_dirname_spec(dirname_of(material, pawn_file_type, bishop_parity)) == Some(
            (material, pawn_file_type, bishop_parity),
        ),
{
    let letters = material_name(material);
    let pawns = pawn_file_suffix(pawn_file_type);
    let white = white_parity_suffix(bishop_parity.white);
    let black = black_parity_suffix(bishop_parity.black);
    let empty = Seq::<char>::empty();
    lemma_material_name_reads_back(material);
    assert(parse_material_spec(letters) == Some(material));
    lemma_suffixes_tagged();
    lemma_ends_with_same_length(letters + pawns + white + black, "_out"@, "_out"@);
    let stem = letters + pawns + white + black;
    assert(strip_suffix_spec(dirname_of(material, pawn_file_type, bishop_parity), "_out"@)
        == Some(stem));
    if bishop_parity == BishopParities::none_spec() {
        assert(stem =~= letters + pawns);
        lemma_no_black_parity(letters, pawns);
        lemma_no_white_parity(letters, pawn_file_type);
        lemma_strip_pawn_file_type(letters, pawn_file_type);
    } else {
        assert(pawns == empty);
        assert(letters + pawns =~= letters);
        if bishop_parity.black == BishopParity::Absent {
            assert(stem =~= letters + white);
            lemma_no_black_parity(letters, white);
        } else {
            lemma_strip_black_parity(letters + white, bishop_parity.black);
        }
        lemma_strip_white_parity(letters, bishop_parity.white);
    }
}

} // verus!
