use mbeval::{
    side_count, strength, Action, Attempt, BishopParities, BishopParity, Color, KkIndex, Material,
    MbInfo, MbValue, ParityIndex, PawnFileType, Pending, Position, RoleCounts, TableKey,
    TableType, Tablebase, Value, ALL_ONES,
};
use shakmaty::fen::Fen;
use shakmaty::{CastlingMode, Chess, EnPassantMode, Position as _};

fn side_of(counts: shakmaty::ByRole<u8>) -> RoleCounts {
    RoleCounts {
        pawn: counts.pawn,
        knight: counts.knight,
        bishop: counts.bishop,
        rook: counts.rook,
        queen: counts.queen,
        king: counts.king,
    }
}

fn facts_of(chess: &Chess) -> Position {
    let material = chess.board().material();
    Position {
        material: Material { white: side_of(material.white), black: side_of(material.black) },
        turn: chess.turn().fold_wb(Color::White, Color::Black),
        castling_rights: chess.castles().any(),
        insufficient_material: chess.is_insufficient_material(),
    }
}

fn chess(fen: &str) -> Chess {
    fen.parse::<Fen>().unwrap().into_position(CastlingMode::Standard).unwrap()
}

fn mirror_image(chess: &Chess) -> Chess {
    chess
        .to_setup(EnPassantMode::Legal)
        .into_mirrored()
        .position(CastlingMode::Chess960)
        .unwrap()
}

fn facts(fen: &str) -> Position {
    facts_of(&chess(fen))
}

fn report(index: u64) -> MbInfo {
    MbInfo {
        kk_index: KkIndex(3),
        pawn_file_type: PawnFileType::Free,
        parity_index: vec![ParityIndex {
            bishop_parity: BishopParities {
                white: BishopParity::Absent,
                black: BishopParity::Absent,
            },
            index,
        }],
        index_bp_11: ALL_ONES,
        index_op_11: ALL_ONES,
        index_op_21: ALL_ONES,
        index_op_12: ALL_ONES,
        index_op_22: ALL_ONES,
        index_dp_22: ALL_ONES,
        index_op_31: ALL_ONES,
        index_op_13: ALL_ONES,
        index_op_41: ALL_ONES,
        index_op_14: ALL_ONES,
        index_op_32: ALL_ONES,
        index_op_23: ALL_ONES,
        index_op_33: ALL_ONES,
        index_op_42: ALL_ONES,
        index_op_24: ALL_ONES,
    }
}

fn key_for(pos: &Position) -> TableKey {
    TableKey {
        material: pos.material,
        pawn_file_type: PawnFileType::Free,
        bishop_parity: BishopParities { white: BishopParity::Absent, black: BishopParity::Absent },
        side: pos.turn,
        kk_index: KkIndex(3),
        table_type: TableType::Mb,
    }
}

fn registry(keys: &[TableKey]) -> Tablebase<u8> {
    let mut tables = Tablebase::new();
    for key in keys {
        tables.insert(*key, "table".to_string());
    }
    tables
}

/// Answers every question of a probe: the classifier's report by
/// orientation, the table values by side to move of the table.
fn drive(
    tables: &Tablebase<u8>,
    pos: &Position,
    classifier: &dyn Fn(bool) -> Option<MbInfo>,
    table: &dyn Fn(&TableKey, u64) -> MbValue,
) -> (Option<Value>, Vec<String>) {
    let mut asked = Vec::new();
    let mut action = tables.probe(pos);
    loop {
        action = match action {
            Action::Done(value) => return (value, asked),
            Action::Classify(pending) => {
                asked.push(format!("classify mirrored={}", pending.mirrored));
                tables.classified(pending, classifier(pending.mirrored).as_ref())
            }
            Action::Read(pending, key, index) => {
                assert!(tables.contains(&key));
                asked.push(format!("read {:?} {}", key.side, index));
                tables.read(pending, table(&key, index))
            }
        };
    }
}

const KPK_WHITE_TO_MOVE: &str = "8/8/8/4k3/8/8/4P3/4K3 w - - 0 1";
const KPK_BLACK_TO_MOVE: &str = "8/8/8/4k3/8/8/4P3/4K3 b - - 0 1";
const KRKR_WHITE_TO_MOVE: &str = "4k2r/8/8/8/8/8/8/R3K3 w - - 0 1";

#[test]
fn two_kings_are_a_draw_without_any_question() {
    let pos = facts("8/8/8/4k3/8/8/8/4K3 w - - 0 1");
    assert!(pos.insufficient_material);
    let tables = registry(&[]);
    assert_eq!(tables.probe(&pos), Action::Done(Some(Value::Draw)));
    let (value, asked) = drive(&tables, &pos, &|_| None, &|_, _| MbValue::Unresolved);
    assert_eq!(value, Some(Value::Draw));
    assert!(asked.is_empty());
}

#[test]
fn ten_pieces_are_outside_the_tables() {
    let pos = facts("4k3/pppp4/8/8/8/8/PPPP4/4K3 w - - 0 1");
    assert_eq!(pos.piece_count(), 10);
    let tables = registry(&[key_for(&pos)]);
    assert_eq!(tables.probe(&pos), Action::Done(None));
}

#[test]
fn nine_pieces_are_probed() {
    let pos = facts("4k3/ppp5/8/8/8/8/PPPP4/4K3 w - - 0 1");
    assert_eq!(pos.piece_count(), 9);
    let tables = registry(&[]);
    assert_eq!(
        tables.probe(&pos),
        Action::Classify(Pending { position: pos, mirrored: false, attempt: Attempt::First })
    );
}

#[test]
fn castling_rights_are_outside_the_tables() {
    let pos = facts("4k3/8/8/8/8/8/8/R3K3 w Q - 0 1");
    assert!(pos.castling_rights);
    assert_eq!(registry(&[]).probe(&pos), Action::Done(None));
}

#[test]
fn insufficient_material_comes_before_the_bounds() {
    let pos = Position { castling_rights: true, ..facts("8/8/8/4k3/8/8/8/4K3 w - - 0 1") };
    assert_eq!(registry(&[]).probe(&pos), Action::Done(Some(Value::Draw)));
}

#[test]
fn lone_pawn_wins_for_the_side_to_move() {
    let pos = facts(KPK_WHITE_TO_MOVE);
    let tables = registry(&[key_for(&pos)]);
    let (value, asked) = drive(&tables, &pos, &|_| Some(report(42)), &|_, index| {
        assert_eq!(index, 42);
        MbValue::Dtc(17)
    });
    assert_eq!(value, Some(Value::Dtc(17)));
    assert_eq!(asked, vec!["classify mirrored=false", "read White 42"]);
}

#[test]
fn lone_pawn_wins_against_the_side_to_move() {
    let pos = facts(KPK_BLACK_TO_MOVE);
    let tables = registry(&[key_for(&pos)]);
    let (value, asked) =
        drive(&tables, &pos, &|_| Some(report(42)), &|_, _| MbValue::Dtc(17));
    assert_eq!(value, Some(Value::Dtc(-17)));
    assert_eq!(asked, vec!["classify mirrored=false", "read Black 42"]);
}

#[test]
fn largest_distance_keeps_its_size() {
    let pos = facts(KPK_BLACK_TO_MOVE);
    let tables = registry(&[key_for(&pos)]);
    let (value, _) = drive(&tables, &pos, &|_| Some(report(0)), &|_, _| MbValue::Dtc(255));
    assert_eq!(value, Some(Value::Dtc(-255)));
    let pos = facts(KPK_WHITE_TO_MOVE);
    let tables = registry(&[key_for(&pos)]);
    let (value, _) = drive(&tables, &pos, &|_| Some(report(0)), &|_, _| MbValue::Dtc(0));
    assert_eq!(value, Some(Value::Dtc(0)));
}

#[test]
fn stronger_black_is_probed_as_white() {
    let given = chess("8/8/8/4k3/8/4p3/8/4K3 b - - 0 1");
    let pos = facts_of(&given);
    let image = facts_of(&mirror_image(&given));
    assert_eq!(pos.mirrored(), image);
    let tables = registry(&[key_for(&image)]);
    assert_eq!(
        tables.probe(&pos),
        Action::Classify(Pending { position: image, mirrored: true, attempt: Attempt::First })
    );
    let (value, asked) =
        drive(&tables, &pos, &|_| Some(report(9)), &|_, _| MbValue::Dtc(12));
    // Black, who is to move, wins: the mirror image has white to move.
    assert_eq!(image.turn, Color::White);
    assert_eq!(value, Some(Value::Dtc(12)));
    assert_eq!(asked, vec!["classify mirrored=true", "read White 9"]);
}

#[test]
fn unresolved_with_a_lone_king_behind_is_a_draw() {
    let pos = facts(KPK_WHITE_TO_MOVE);
    let tables = registry(&[key_for(&pos)]);
    let (value, asked) =
        drive(&tables, &pos, &|_| Some(report(42)), &|_, _| MbValue::Unresolved);
    // The mirror image has a lone white king: no second question.
    assert_eq!(value, Some(Value::Draw));
    assert_eq!(asked, vec!["classify mirrored=false", "read White 42"]);
}

#[test]
fn unresolved_first_side_asks_the_mirror_image() {
    let pos = facts(KRKR_WHITE_TO_MOVE);
    let image = pos.mirrored();
    let tables = registry(&[key_for(&pos), key_for(&image)]);
    let (value, asked) = drive(
        &tables,
        &pos,
        &|mirrored| Some(report(if mirrored { 2 } else { 1 })),
        &|key, _| if key.side == Color::White { MbValue::Unresolved } else { MbValue::Dtc(30) },
    );
    // Black wins, white is to move.
    assert_eq!(value, Some(Value::Dtc(-30)));
    assert_eq!(
        asked,
        vec!["classify mirrored=false", "read White 1", "classify mirrored=true", "read Black 2"]
    );
}

#[test]
fn both_sides_unresolved_is_a_draw() {
    let pos = facts(KRKR_WHITE_TO_MOVE);
    let tables = registry(&[key_for(&pos), key_for(&pos.mirrored())]);
    let (value, asked) =
        drive(&tables, &pos, &|_| Some(report(1)), &|_, _| MbValue::Unresolved);
    assert_eq!(value, Some(Value::Draw));
    assert_eq!(asked.len(), 4);
}

#[test]
fn classifier_failure_is_no_answer() {
    let pos = facts(KRKR_WHITE_TO_MOVE);
    let tables = registry(&[key_for(&pos), key_for(&pos.mirrored())]);
    let (value, asked) = drive(&tables, &pos, &|_| None, &|_, _| MbValue::Dtc(1));
    assert_eq!(value, None);
    assert_eq!(asked, vec!["classify mirrored=false"]);
}

#[test]
fn classifier_failure_on_the_mirror_image_is_no_answer() {
    let pos = facts(KRKR_WHITE_TO_MOVE);
    let tables = registry(&[key_for(&pos), key_for(&pos.mirrored())]);
    let (value, asked) = drive(
        &tables,
        &pos,
        &|mirrored| if mirrored { None } else { Some(report(1)) },
        &|_, _| MbValue::Unresolved,
    );
    assert_eq!(value, None);
    assert_eq!(asked.len(), 3);
}

#[test]
fn missing_table_is_no_answer_and_no_draw() {
    let pos = facts(KRKR_WHITE_TO_MOVE);
    let tables = registry(&[]);
    let (value, asked) = drive(&tables, &pos, &|_| Some(report(1)), &|_, _| MbValue::Dtc(1));
    assert_eq!(value, None);
    assert_eq!(asked, vec!["classify mirrored=false"]);
}

#[test]
fn distance_above_the_table_is_no_answer() {
    let pos = facts(KRKR_WHITE_TO_MOVE);
    let tables = registry(&[key_for(&pos), key_for(&pos.mirrored())]);
    let (value, asked) =
        drive(&tables, &pos, &|_| Some(report(1)), &|_, _| MbValue::MaybeHighDtc);
    assert_eq!(value, None);
    assert_eq!(asked.len(), 2);
}

#[test]
fn mirror_image_has_the_same_value_for_the_side_to_move() {
    let fens = [KPK_WHITE_TO_MOVE, KPK_BLACK_TO_MOVE, "8/8/8/4k3/8/4p3/8/4K3 b - - 0 1"];
    for fen in fens {
        let given = chess(fen);
        let pos = facts_of(&given);
        let image = facts_of(&mirror_image(&given));
        let stronger_as_white =
            if strength(&pos.material, Color::White) < strength(&pos.material, Color::Black) {
                image
            } else {
                pos
            };
        let tables = registry(&[key_for(&stronger_as_white)]);
        let classifier = |_: bool| Some(report(5));
        let table = |_: &TableKey, _: u64| MbValue::Dtc(23);
        let (value, _) = drive(&tables, &pos, &classifier, &table);
        let (mirrored_value, _) = drive(&tables, &image, &classifier, &table);
        assert_eq!(value, mirrored_value);
        assert!(matches!(value, Some(Value::Dtc(23)) | Some(Value::Dtc(-23))));
        // Seen by white, the distance changes its sign.
        let for_white = |value: Option<Value>, turn: Color| match value {
            Some(Value::Dtc(n)) => Some(if turn == Color::White { n } else { -n }),
            _ => None,
        };
        assert_eq!(
            for_white(value, pos.turn),
            for_white(mirrored_value, image.turn).map(|n| -n)
        );
    }
}

#[test]
fn mirror_image_of_a_draw_is_a_draw() {
    let given = chess(KRKR_WHITE_TO_MOVE);
    let pos = facts_of(&given);
    let image = facts_of(&mirror_image(&given));
    let tables = registry(&[key_for(&pos), key_for(&image)]);
    let (value, _) = drive(&tables, &pos, &|_| Some(report(1)), &|_, _| MbValue::Unresolved);
    let (mirrored_value, _) =
        drive(&tables, &image, &|_| Some(report(1)), &|_, _| MbValue::Unresolved);
    assert_eq!(value, Some(Value::Draw));
    assert_eq!(mirrored_value, Some(Value::Draw));
}

#[test]
fn strength_weighs_the_pieces() {
    let material = Material {
        white: RoleCounts { pawn: 1, knight: 1, bishop: 1, rook: 1, queen: 1, king: 1 },
        black: RoleCounts { pawn: 3, knight: 2, bishop: 0, rook: 0, queen: 0, king: 1 },
    };
    assert_eq!(strength(&material, Color::White), 21);
    assert_eq!(strength(&material, Color::Black), 9);
    assert_eq!(side_count(&material, Color::White), 6);
    assert_eq!(side_count(&material, Color::Black), 6);
}

#[test]
fn strength_of_the_largest_counts_fits() {
    let full = RoleCounts { pawn: 255, knight: 255, bishop: 255, rook: 255, queen: 255, king: 255 };
    let material = Material { white: full, black: full };
    assert_eq!(strength(&material, Color::White), 255 * 21);
    assert_eq!(side_count(&material, Color::Black), 255 * 6);
    let pos = Position {
        material,
        turn: Color::White,
        castling_rights: false,
        insufficient_material: false,
    };
    assert_eq!(pos.piece_count(), 255 * 12);
}

#[test]
fn material_agrees_with_the_board() {
    let pos = facts("4k3/1q6/8/2n5/8/8/PP3B2/R3K3 w - - 0 1");
    assert_eq!(
        pos.material,
        Material {
            white: RoleCounts { pawn: 2, knight: 0, bishop: 1, rook: 1, queen: 0, king: 1 },
            black: RoleCounts { pawn: 0, knight: 1, bishop: 0, rook: 0, queen: 1, king: 1 },
        }
    );
    assert_eq!(strength(&pos.material, Color::White), 10);
    assert_eq!(strength(&pos.material, Color::Black), 12);
}

#[test]
fn mirroring_exchanges_sides_and_turn() {
    let pos = facts(KPK_WHITE_TO_MOVE);
    let image = pos.mirrored();
    assert_eq!(image.material.white, pos.material.black);
    assert_eq!(image.material.black, pos.material.white);
    assert_eq!(image.turn, Color::Black);
    assert_eq!(image.mirrored(), pos);
    assert_eq!(Color::White.other(), Color::Black);
    assert_eq!(Color::Black.other(), Color::White);
}

#[test]
fn equal_strength_is_not_mirrored() {
    let pos = facts(KRKR_WHITE_TO_MOVE);
    assert_eq!(
        registry(&[]).probe(&pos),
        Action::Classify(Pending { position: pos, mirrored: false, attempt: Attempt::First })
    );
}

#[test]
fn equal_strength_without_first_answer_hides_the_second() {
    // With sides of equal strength the position itself is probed first. Where
    // the classifier fails on it, the mirror image is not asked any more,
    // although its table has a distance: the value of the position and that
    // of its mirror image then differ.
    let given = chess(KRKR_WHITE_TO_MOVE);
    let pos = facts_of(&given);
    let image = facts_of(&mirror_image(&given));
    let tables = registry(&[key_for(&pos), key_for(&image)]);
    let table = |_: &TableKey, _: u64| MbValue::Dtc(8);
    let (value, _) =
        drive(&tables, &pos, &|mirrored| if mirrored { Some(report(1)) } else { None }, &table);
    let (mirrored_value, _) =
        drive(&tables, &image, &|mirrored| if mirrored { None } else { Some(report(1)) }, &table);
    assert_eq!(value, None);
    // In the mirror image white converts and black is to move.
    assert_eq!(mirrored_value, Some(Value::Dtc(-8)));
}
