use mbeval::{
    BishopParities, BishopParity, BishopParityCodes, Color, KkIndex, Material, MbInfo,
    ParityIndex, PawnFileCodes, PawnFileType, Position, RoleCounts, TableKey, TableType,
    Tablebase, ALL_ONES,
};

fn pieces(pawn: u8, bishop: u8) -> RoleCounts {
    RoleCounts { pawn, knight: 0, bishop, rook: 0, queen: 0, king: 1 }
}

fn position(white: RoleCounts, black: RoleCounts, turn: Color) -> Position {
    Position {
        material: Material { white, black },
        turn,
        castling_rights: false,
        insufficient_material: false,
    }
}

fn report(pawn_file_type: PawnFileType, parity_index: Vec<ParityIndex>) -> MbInfo {
    MbInfo {
        kk_index: KkIndex(4),
        pawn_file_type,
        parity_index,
        index_bp_11: 111,
        index_op_11: 211,
        index_op_21: 221,
        index_op_12: 212,
        index_op_22: 222,
        index_dp_22: 322,
        index_op_31: 231,
        index_op_13: 213,
        index_op_41: 241,
        index_op_14: 214,
        index_op_32: 232,
        index_op_23: 223,
        index_op_33: 233,
        index_op_42: 242,
        index_op_24: 224,
    }
}

fn base(pos: &Position) -> TableKey {
    TableKey {
        material: pos.material,
        pawn_file_type: PawnFileType::Free,
        bishop_parity: BishopParities { white: BishopParity::Absent, black: BishopParity::Absent },
        side: pos.turn,
        kk_index: KkIndex(4),
        table_type: TableType::Mb,
    }
}

fn parities(white: BishopParity, black: BishopParity) -> BishopParities {
    BishopParities { white, black }
}

fn registry(keys: &[TableKey]) -> Tablebase<u8> {
    let mut tables = Tablebase::new();
    for (i, key) in keys.iter().enumerate() {
        tables.insert(*key, format!("table{}", i));
    }
    tables
}

#[test]
fn second_candidate_is_selected_when_only_it_is_registered() {
    let pos = position(pieces(0, 1), pieces(0, 1), Color::White);
    let first = parities(BishopParity::Even, BishopParity::Odd);
    let second = parities(BishopParity::Odd, BishopParity::Odd);
    let info = report(
        PawnFileType::Free,
        vec![
            ParityIndex { bishop_parity: first, index: 10 },
            ParityIndex { bishop_parity: second, index: 20 },
        ],
    );
    let wanted = TableKey { bishop_parity: second, ..base(&pos) };
    let tables = registry(&[wanted]);
    assert_eq!(tables.select_table(&pos, &info, TableType::Mb), Some((wanted, 20)));
}

#[test]
fn second_candidate_wins_over_the_pawn_file_table() {
    let pos = position(pieces(1, 1), pieces(1, 1), Color::Black);
    let first = parities(BishopParity::Even, BishopParity::Even);
    let second = parities(BishopParity::Absent, BishopParity::Odd);
    let info = report(
        PawnFileType::Op1,
        vec![
            ParityIndex { bishop_parity: first, index: 10 },
            ParityIndex { bishop_parity: second, index: 20 },
        ],
    );
    let wanted = TableKey { bishop_parity: second, ..base(&pos) };
    let by_pawns = TableKey { pawn_file_type: PawnFileType::Op1, ..base(&pos) };
    let tables = registry(&[by_pawns, wanted]);
    assert_eq!(tables.select_table(&pos, &info, TableType::Mb), Some((wanted, 20)));
}

#[test]
fn first_registered_candidate_wins() {
    let pos = position(pieces(0, 1), pieces(0, 1), Color::White);
    let first = parities(BishopParity::Even, BishopParity::Odd);
    let second = parities(BishopParity::Odd, BishopParity::Odd);
    let info = report(
        PawnFileType::Free,
        vec![
            ParityIndex { bishop_parity: first, index: 10 },
            ParityIndex { bishop_parity: second, index: 20 },
        ],
    );
    let tables = registry(&[
        TableKey { bishop_parity: second, ..base(&pos) },
        TableKey { bishop_parity: first, ..base(&pos) },
    ]);
    assert_eq!(
        tables.select_table(&pos, &info, TableType::Mb),
        Some((TableKey { bishop_parity: first, ..base(&pos) }, 10))
    );
}

#[test]
fn candidate_without_parity_selects_the_plain_table() {
    let pos = position(pieces(0, 0), pieces(0, 1), Color::White);
    let info = report(
        PawnFileType::Free,
        vec![ParityIndex {
            bishop_parity: parities(BishopParity::Absent, BishopParity::Absent),
            index: 77,
        }],
    );
    let tables = registry(&[base(&pos)]);
    assert_eq!(tables.select_table(&pos, &info, TableType::Mb), Some((base(&pos), 77)));
}

#[test]
fn free_pawns_without_candidate_select_nothing() {
    let pos = position(pieces(0, 0), pieces(0, 1), Color::White);
    let info = report(PawnFileType::Free, Vec::new());
    let tables = registry(&[base(&pos)]);
    assert_eq!(tables.select_table(&pos, &info, TableType::Mb), None);
}

#[test]
fn each_pawn_file_type_reads_its_own_index() {
    let pos = position(pieces(2, 0), pieces(2, 0), Color::White);
    let cases = [
        (PawnFileType::Bp1, 111),
        (PawnFileType::Op1, 211),
        (PawnFileType::Op21, 221),
        (PawnFileType::Op12, 212),
        (PawnFileType::Op22, 222),
        (PawnFileType::Dp2, 322),
        (PawnFileType::Op31, 231),
        (PawnFileType::Op13, 213),
        (PawnFileType::Op41, 241),
        (PawnFileType::Op14, 214),
        (PawnFileType::Op32, 232),
        (PawnFileType::Op23, 223),
        (PawnFileType::Op33, 233),
        (PawnFileType::Op42, 242),
        (PawnFileType::Op24, 224),
    ];
    for (pawn_file_type, index) in cases {
        let key = TableKey { pawn_file_type, ..base(&pos) };
        let tables = registry(&[key]);
        let info = report(pawn_file_type, Vec::new());
        assert_eq!(tables.select_table(&pos, &info, TableType::Mb), Some((key, index)));
        assert_eq!(info.index_of(pawn_file_type), index);
    }
    assert_eq!(report(PawnFileType::Free, Vec::new()).index_of(PawnFileType::Free), ALL_ONES);
}

#[test]
fn blocked_pawns_are_served_by_the_opposing_table() {
    let pos = position(pieces(1, 0), pieces(1, 0), Color::White);
    let info = report(PawnFileType::Bp1, Vec::new());
    let own = TableKey { pawn_file_type: PawnFileType::Bp1, ..base(&pos) };
    let other = TableKey { pawn_file_type: PawnFileType::Op1, ..base(&pos) };
    assert_eq!(
        registry(&[own, other]).select_table(&pos, &info, TableType::Mb),
        Some((other, 211))
    );
    assert_eq!(registry(&[own]).select_table(&pos, &info, TableType::Mb), Some((own, 111)));
    assert_eq!(registry(&[]).select_table(&pos, &info, TableType::Mb), None);
}

#[test]
fn blocked_pawns_without_opposing_index_use_their_own_table() {
    let pos = position(pieces(1, 0), pieces(1, 0), Color::White);
    let mut info = report(PawnFileType::Bp1, Vec::new());
    info.index_op_11 = ALL_ONES;
    let own = TableKey { pawn_file_type: PawnFileType::Bp1, ..base(&pos) };
    let other = TableKey { pawn_file_type: PawnFileType::Op1, ..base(&pos) };
    assert_eq!(
        registry(&[own, other]).select_table(&pos, &info, TableType::Mb),
        Some((own, 111))
    );
}

#[test]
fn doubled_pawns_are_served_by_the_opposing_table() {
    let pos = position(pieces(2, 0), pieces(2, 0), Color::Black);
    let mut info = report(PawnFileType::Dp2, Vec::new());
    let own = TableKey { pawn_file_type: PawnFileType::Dp2, ..base(&pos) };
    let other = TableKey { pawn_file_type: PawnFileType::Op22, ..base(&pos) };
    assert_eq!(
        registry(&[own, other]).select_table(&pos, &info, TableType::Mb),
        Some((other, 222))
    );
    assert_eq!(registry(&[own]).select_table(&pos, &info, TableType::Mb), Some((own, 322)));
    info.index_op_22 = ALL_ONES;
    assert_eq!(
        registry(&[own, other]).select_table(&pos, &info, TableType::Mb),
        Some((own, 322))
    );
    info.index_dp_22 = ALL_ONES;
    assert_eq!(registry(&[own, other]).select_table(&pos, &info, TableType::Mb), None);
}

#[test]
fn inapplicable_index_selects_nothing() {
    let pos = position(pieces(2, 0), pieces(1, 0), Color::White);
    let mut info = report(PawnFileType::Op21, Vec::new());
    info.index_op_21 = ALL_ONES;
    let key = TableKey { pawn_file_type: PawnFileType::Op21, ..base(&pos) };
    assert_eq!(registry(&[key]).select_table(&pos, &info, TableType::Mb), None);
}

#[test]
fn selection_asks_for_side_bucket_and_kind() {
    let pos = position(pieces(2, 0), pieces(1, 0), Color::White);
    let info = report(PawnFileType::Op21, Vec::new());
    let key = TableKey { pawn_file_type: PawnFileType::Op21, ..base(&pos) };
    assert_eq!(
        registry(&[TableKey { side: Color::Black, ..key }]).select_table(&pos, &info, TableType::Mb),
        None
    );
    assert_eq!(
        registry(&[TableKey { kk_index: KkIndex(5), ..key }]).select_table(&pos, &info, TableType::Mb),
        None
    );
    assert_eq!(
        registry(&[TableKey { table_type: TableType::HighDtc, ..key }])
            .select_table(&pos, &info, TableType::Mb),
        None
    );
    assert_eq!(
        registry(&[TableKey { table_type: TableType::HighDtc, ..key }])
            .select_table(&pos, &info, TableType::HighDtc),
        Some((TableKey { table_type: TableType::HighDtc, ..key }, 221))
    );
}

#[test]
fn bishop_parity_is_read_from_its_code() {
    let codes = BishopParityCodes { none: 0, even: 1, odd: 2 };
    assert_eq!(BishopParity::try_from(0, &codes), Ok(BishopParity::Absent));
    assert_eq!(BishopParity::try_from(1, &codes), Ok(BishopParity::Even));
    assert_eq!(BishopParity::try_from(2, &codes), Ok(BishopParity::Odd));
    assert_eq!(BishopParity::try_from(3, &codes), Err(3));
    assert_eq!(BishopParity::try_from(-1, &codes), Err(-1));
}

#[test]
fn negative_code_is_read_by_its_bits() {
    let codes = BishopParityCodes { none: 0, even: 0xffff_ffff, odd: 2 };
    assert_eq!(BishopParity::try_from(-1, &codes), Ok(BishopParity::Even));
}

#[test]
fn pawn_file_type_is_read_from_its_code() {
    let codes = PawnFileCodes {
        free: 0,
        bp_11: 1,
        op_11: 2,
        op_21: 3,
        op_12: 4,
        op_22: 5,
        dp_22: 6,
        op_31: 7,
        op_13: 8,
        op_41: 9,
        op_14: 10,
        op_32: 11,
        op_23: 12,
        op_33: 13,
        op_42: 14,
        op_24: 15,
    };
    let variants = [
        PawnFileType::Free,
        PawnFileType::Bp1,
        PawnFileType::Op1,
        PawnFileType::Op21,
        PawnFileType::Op12,
        PawnFileType::Op22,
        PawnFileType::Dp2,
        PawnFileType::Op31,
        PawnFileType::Op13,
        PawnFileType::Op41,
        PawnFileType::Op14,
        PawnFileType::Op32,
        PawnFileType::Op23,
        PawnFileType::Op33,
        PawnFileType::Op42,
        PawnFileType::Op24,
    ];
    for (code, variant) in variants.iter().enumerate() {
        assert_eq!(PawnFileType::try_from(code as i32, &codes), Ok(*variant));
    }
    assert_eq!(PawnFileType::try_from(16, &codes), Err(16));
    assert_eq!(PawnFileType::try_from(-7, &codes), Err(-7));
}

#[test]
fn first_variant_with_the_code_is_read() {
    let codes = BishopParityCodes { none: 9, even: 9, odd: 9 };
    assert_eq!(BishopParity::try_from(9, &codes), Ok(BishopParity::Absent));
}
