//! The probe of a position: which questions are put to the classifier and
//! to the tables, in which order, and what their answers make of the
//! position. The caller puts the questions; this module decides.

use vstd::prelude::*;

use crate::classifier::MbInfo;
use crate::position::{side_count, strength, Position};
use crate::registry::Tablebase;
use crate::select::select_spec;
use crate::types::{Color, MbValue, SideValue, TableKey, TableType, Value};

verus! {

/// The most pieces that the tables cover.
pub const MAX_PIECES: usize = 9;

/// Which of the two orientations of a position is being probed.
#[derive(Debug, Clone, Copy, PartialEq, Eq, Structural)]
pub enum Attempt {
    /// The orientation with the stronger side as white.
    First,
    /// Its mirror image.
    Second,
}

/// A probe of one orientation that waits for an answer.
#[derive(Debug, Clone, Copy, PartialEq, Eq, Structural)]
pub struct Pending {
    /// The position being probed, in the orientation in which it is probed.
    pub position: Position,
    /// Whether that is the mirror image of the position that the probe was
    /// started with.
    pub mirrored: bool,
    /// Which of the two orientations it is.
    pub attempt: Attempt,
}

/// What the caller is to do next.
#[derive(Debug, Clone, Copy, PartialEq, Eq, Structural)]
pub enum Action {
    /// Ask the classifier about the pending position and hand its report to
    /// `classified`.
    Classify(Pending),
    /// Read the value at this index of the table with this key and hand it
    /// to `read`.
    Read(Pending, TableKey, u64),
    /// The probe is over: the value of the position, or `None` where the
    /// tables do not tell.
    Done(Option<Value>),
}

/// The sign that turns a distance for white into the value for the side to
/// move.
pub open spec fn sign(turn: Color) -> int {
    match turn {
        Color::White => 1,
        Color::Black => -1,
    }
}

/// Whether white has no piece beside the king, so that only black can win.
pub open spec fn lone_king(pos: Position) -> bool {
    pos.material.white.total() <= 1
}

/// What a value read from a table says of the orientation probed: nothing
/// where the distance is above what the table holds.
pub open spec fn side_value_of(value: MbValue) -> Option<SideValue> {
    match value {
        MbValue::Dtc(n) => Some(SideValue::Dtc(n)),
        MbValue::MaybeHighDtc => None,
        MbValue::Unresolved => Some(SideValue::Unresolved),
    }
}

/// Whether the position is probed in its mirror image first: black is
/// strictly stronger.
pub open spec fn starts_mirrored(pos: Position) -> bool {
    pos.material.white.strength_spec() < pos.material.black.strength_spec()
}

/// 1 for the first attempt and 0 for the second: what is left to try.
pub open spec fn attempts_left(attempt: Attempt) -> nat {
    match attempt {
        Attempt::First => 1,
        Attempt::Second => 0,
    }
}

/// The action that starts the probe of one orientation.
pub open spec fn probe_side_spec(pending: Pending) -> Action
    decreases attempts_left(pending.attempt), 1nat,
{
    if lone_king(pending.position) {
        resolved_spec(pending, Some(SideValue::Unresolved))
    } else {
        Action::Classify(pending)
    }
}

/// The action that follows the outcome of the probe of one orientation. No
/// outcome ends the probe without a value. A distance ends it with that
/// distance, positive where white is to move in the orientation probed and
/// negative where black is. Where white cannot force a conversion, the
/// mirror image is probed, and after that the position is a draw.
pub open spec fn resolved_spec(pending: Pending, side: Option<SideValue>) -> Action
    decreases attempts_left(pending.attempt), 0nat,
{
    match side {
        None => Action::Done(None),
        Some(SideValue::Dtc(n)) => Action::Done(
            Some(Value::Dtc((n * sign(pending.position.turn)) as i32)),
        ),
        Some(SideValue::Unresolved) => match pending.attempt {
            Attempt::First => probe_side_spec(
                Pending {
                    position: pending.position.mirrored_spec(),
                    mirrored: !pending.mirrored,
                    attempt: Attempt::Second,
                },
            ),
            Attempt::Second => Action::Done(Some(Value::Draw)),
        },
    }
}

/// The action that follows the classifier's report: the read of the table
/// selected among the registered `keys`, or the end of the probe where the
/// classifier failed or no table serves.
pub open spec fn classified_spec(
    keys: Set<TableKey>,
    pending: Pending,
    mb_info: Option<MbInfo>,
) -> Action {
    match mb_info {
        None => Action::Done(None),
        Some(info) => match select_spec(
            keys,
            pending.position.material,
            pending.position.turn,
            info,
            TableType::Mb,
        ) {
            None => Action::Done(None),
            Some((key, index)) => Action::Read(pending, key, index),
        },
    }
}

/// The action that follows the read of a table.
pub open spec fn read_spec(pending: Pending, value: MbValue) -> Action {
    resolved_spec(pending, side_value_of(value))
}

/// The action that starts the probe of a position. A position without the
/// material to win is a draw. One with more than nine pieces, or in which a
/// side may castle, is outside the tables. Else the orientation with the
/// stronger side as white is probed.
pub open spec fn probe_spec(pos: Position) -> Action {
    if pos.insufficient_material {
        Action::Done(Some(Value::Draw))
    } else if pos.material.total() > MAX_PIECES || pos.castling_rights {
        Action::Done(None)
    } else if starts_mirrored(pos) {
        probe_side_spec(
            Pending { position: pos.mirrored_spec(), mirrored: true, attempt: Attempt::First },
        )
    } else {
        probe_side_spec(Pending { position: pos, mirrored: false, attempt: Attempt::First })
    }
}

/// What the probe of one orientation finds, given the classifier's report
/// on it and what the tables hold: white cannot force a conversion where it
/// has only the king; nothing is found where the classifier fails, where no
/// registered table serves, or where the distance is above what the table
/// holds.
pub open spec fn side_outcome(
    keys: Set<TableKey>,
    pos: Position,
    mb_info: Option<MbInfo>,
    tables: spec_fn(TableKey, u64) -> MbValue,
) -> Option<SideValue> {
    if lone_king(pos) {
        Some(SideValue::Unresolved)
    } else {
        match mb_info {
            None => None,
            Some(info) => match select_spec(keys, pos.material, pos.turn, info, TableType::Mb) {
                None => None,
                Some((key, index)) => side_value_of(tables(key, index)),
            },
        }
    }
}

/// The value of a position, given the classifier's reports on it
/// (`classifier(false)`) and on its mirror image (`classifier(true)`), and
/// what the tables hold. `None` means that the tables do not tell, which is
/// not a draw.
pub open spec fn probe_outcome(
    keys: Set<TableKey>,
    pos: Position,
    classifier: spec_fn(bool) -> Option<MbInfo>,
    tables: spec_fn(TableKey, u64) -> MbValue,
) -> Option<Value> {
    if pos.insufficient_material {
        Some(Value::Draw)
    } else if pos.material.total() > MAX_PIECES || pos.castling_rights {
        None
    } else {
        let mirrored = starts_mirrored(pos);
        let first = if mirrored {
            pos.mirrored_spec()
        } else {
            pos
        };
        match side_outcome(keys, first, classifier(mirrored), tables) {
            None => None,
            Some(SideValue::Dtc(n)) => Some(Value::Dtc((n * sign(first.turn)) as i32)),
            Some(SideValue::Unresolved) => {
                let second = first.mirrored_spec();
                match side_outcome(keys, second, classifier(!mirrored), tables) {
                    None => None,
                    Some(SideValue::Dtc(n)) => Some(Value::Dtc((n * sign(second.turn)) as i32)),
                    Some(SideValue::Unresolved) => Some(Value::Draw),
                }
            },
        }
    }
}

/// Where a caller that answers each action from `classifier` and `tables`
/// ends, if it takes at most `steps` answers; `None` too where it would
/// take more.
pub open spec fn run(
    keys: Set<TableKey>,
    action: Action,
    classifier: spec_fn(bool) -> Option<MbInfo>,
    tables: spec_fn(TableKey, u64) -> MbValue,
    steps: nat,
) -> Option<Value>
    decreases steps,
{
    match action {
        Action::Done(value) => value,
        Action::Classify(pending) => if steps == 0 {
            None
        } else {
            run(
                keys,
                classified_spec(keys, pending, classifier(pending.mirrored)),
                classifier,
                tables,
                (steps - 1) as nat,
            )
        },
        Action::Read(pending, key, index) => if steps == 0 {
            None
        } else {
            run(keys, read_spec(pending, tables(key, index)), classifier, tables, (steps - 1) as nat)
        },
    }
}

/// A probe ends after at most four answers, two of the classifier and two
/// of the tables, with the value of the position.
pub proof fn lemma_run_ends_with_outcome(
    keys: Set<TableKey>,
    pos: Position,
    classifier: spec_fn(bool) -> Option<MbInfo>,
    tables: spec_fn(TableKey, u64) -> MbValue,
)
    ensures
        run(keys, probe_spec(pos), classifier, tables, 4) == probe_outcome(
            keys,
            pos,
            classifier,
            tables,
        ),
{
    reveal_with_fuel(run, 5);
    reveal_with_fuel(probe_side_spec, 3);
    reveal_with_fuel(resolved_spec, 3);
}

/// The value of a position as white sees it: the sign of a distance turns
/// where black is to move.
pub open spec fn for_white(value: Option<Value>, turn: Color) -> Option<Value> {
    match value {
        Some(Value::Dtc(n)) => Some(Value::Dtc((n * sign(turn)) as i32)),
        other => other,
    }
}

/// A value with the sign of its distance turned.
pub open spec fn negated(value: Option<Value>) -> Option<Value> {
    match value {
        Some(Value::Dtc(n)) => Some(Value::Dtc((-n) as i32)),
        other => other,
    }
}

/// Whether the order in which the two orientations of a position are probed
/// shows in the value: one orientation gives a distance and the other gives
/// nothing, or both give a distance and not both the distance 0.
pub open spec fn order_shows(a: Option<SideValue>, b: Option<SideValue>) -> bool {
    match (a, b) {
        (Some(SideValue::Dtc(_)), None) => true,
        (None, Some(SideValue::Dtc(_))) => true,
        (Some(SideValue::Dtc(n)), Some(SideValue::Dtc(m))) => n != 0 || m != 0,
        _ => false,
    }
}

/// A position and its mirror image have the same value for the side to
/// move: a draw stays a draw, no answer stays no answer, and a distance
/// keeps its sign for the side to move, so that it changes its sign as seen
/// by white. This holds where one side is strictly stronger, and, for equal
/// strength, where the order in which the two orientations are probed does
/// not show in the value.
pub proof fn lemma_probe_of_mirror_image(
    keys: Set<TableKey>,
    pos: Position,
    classifier: spec_fn(bool) -> Option<MbInfo>,
    tables: spec_fn(TableKey, u64) -> MbValue,
)
    requires
        pos.material.white.strength_spec() == pos.material.black.strength_spec() ==> !order_shows(
            side_outcome(keys, pos, classifier(false), tables),
            side_outcome(keys, pos.mirrored_spec(), classifier(true), tables),
        ),
    ensures
        probe_outcome(keys, pos.mirrored_spec(), |mirrored: bool| classifier(!mirrored), tables)
            == probe_outcome(keys, pos, classifier, tables),
        for_white(
            probe_outcome(
                keys,
                pos.mirrored_spec(),
                |mirrored: bool| classifier(!mirrored),
                tables,
            ),
            pos.mirrored_spec().turn,
        ) == negated(for_white(probe_outcome(keys, pos, classifier, tables), pos.turn)),
{
    let image = pos.mirrored_spec();
    let turned = |mirrored: bool| classifier(!mirrored);
    assert(image.mirrored_spec() == pos);
    assert(turned(true) == classifier(false));
    assert(turned(false) == classifier(true));
    assert(image.material.total() == pos.material.total());
}

/// Where the order of the two probes shows, it shows in the value: a
/// position within the tables, with sides of equal strength, and its mirror
/// image then have different values.
pub proof fn lemma_probe_order_shows(
    keys: Set<TableKey>,
    pos: Position,
    classifier: spec_fn(bool) -> Option<MbInfo>,
    tables: spec_fn(TableKey, u64) -> MbValue,
)
    requires
        !pos.insufficient_material,
        pos.material.total() <= MAX_PIECES,
        !pos.castling_rights,
        pos.material.white.strength_spec() == pos.material.black.strength_spec(),
        order_shows(
            side_outcome(keys, pos, classifier(false), tables),
            side_outcome(keys, pos.mirrored_spec(), classifier(true), tables),
        ),
    ensures
        probe_outcome(keys, pos.mirrored_spec(), |mirrored: bool| classifier(!mirrored), tables)
            != probe_outcome(keys, pos, classifier, tables),
{
    let image = pos.mirrored_spec();
    let turned = |mirrored: bool| classifier(!mirrored);
    assert(image.mirrored_spec() == pos);
    assert(turned(true) == classifier(false));
    assert(turned(false) == classifier(true));
    assert(image.material.total() == pos.material.total());
}

impl<H> Tablebase<H> {
    /// Starts the probe of a position.
    pub fn probe(&self, pos: &Position) -> (action: Action)
        ensures
            action == probe_spec(*pos),
    {
        if pos.insufficient_material {
            return Action::Done(Some(Value::Draw));
        }
        if pos.piece_count() > MAX_PIECES || pos.castling_rights {
            return Action::Done(None);
        }
        // The stronger side becomes white, so that the mirror image is
        // probed less often.
        if strength(&pos.material, Color::White) < strength(&pos.material, Color::Black) {
            self.probe_side(
                Pending { position: pos.mirrored(), mirrored: true, attempt: Attempt::First },
            )
        } else {
            self.probe_side(Pending { position: *pos, mirrored: false, attempt: Attempt::First })
        }
    }

    /// Starts the probe of one orientation: without a question where white
    /// has only the king, else with the question to the classifier.
    pub fn probe_side(&self, pending: Pending) -> (action: Action)
        ensures
            action == probe_side_spec(pending),
        decreases attempts_left(pending.attempt), 1nat,
    {
        // If one side has no pieces, only the other side can win.
        if side_count(&pending.position.material, Color::White) <= 1 {
            return self.resolved(pending, Some(SideValue::Unresolved));
        }
        Action::Classify(pending)
    }

    /// Takes the classifier's report on the pending position, `None` where
    /// the classifier failed, and selects the table to read.
    pub fn classified(&self, pending: Pending, mb_info: Option<&MbInfo>) -> (action: Action)
        ensures
            action == classified_spec(
                self@.dom(),
                pending,
                match mb_info {
                    Some(info) => Some(*info),
                    None => None,
                },
            ),
            action matches Action::Read(_, key, _) ==> self@.contains_key(key),
    {
        let info = match mb_info {
            Some(info) => info,
            None => {
                return Action::Done(None);
            },
        };
        match self.select_table(&pending.position, info, TableType::Mb) {
            Some((key, index)) => Action::Read(pending, key, index),
            None => Action::Done(None),
        }
    }

    /// Takes the value read from the table.
    pub fn read(&self, pending: Pending, value: MbValue) -> (action: Action)
        ensures
            action == read_spec(pending, value),
    {
        let side = match value {
            MbValue::Dtc(dtc) => Some(SideValue::Dtc(dtc)),
            MbValue::MaybeHighDtc => None,
            MbValue::Unresolved => Some(SideValue::Unresolved),
        };
        self.resolved(pending, side)
    }

    /// Takes the outcome of the probe of one orientation.
    pub fn resolved(&self, pending: Pending, side: Option<SideValue>) -> (action: Action)
        ensures
            action == resolved_spec(pending, side),
        decreases attempts_left(pending.attempt), 0nat,
    {
        match side {
            None => Action::Done(None),
            Some(SideValue::Dtc(n)) => {
                let distance: i32 = n as i32;
                match pending.position.turn {
                    Color::White => Action::Done(Some(Value::Dtc(distance))),
                    Color::Black => Action::Done(Some(Value::Dtc(-distance))),
                }
            },
            Some(SideValue::Unresolved) => match pending.attempt {
                Attempt::First => self.probe_side(
                    Pending {
                        position: pending.position.mirrored(),
                        mirrored: !pending.mirrored,
                        attempt: Attempt::Second,
                    },
                ),
                Attempt::Second => Action::Done(Some(Value::Draw)),
            },
        }
    }
}

} // verus!
