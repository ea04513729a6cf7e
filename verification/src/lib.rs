//! Registry and selection engine for a set of endgame tables laid out on
//! disk by material signature and structural variant.
//!
//! The names of the directories and files of the set say which tables they
//! hold ([`naming`], [`encoding`]). A [`Tablebase`] keeps, for each table
//! key, the file that serves it and the cell for the opened table
//! ([`registry`], [`registration`]). For a position and the report of the
//! index classifier on it, [`Tablebase::select_table`] picks the one table
//! that serves the position ([`select`]). A probe puts its questions to the
//! classifier and to the tables through its caller: [`Tablebase::probe`] and
//! the functions that take the answers say what to ask next and what the
//! answers make of the position ([`probe`]).
//!
//! This crate reads no file and calls no classifier: its caller does, and
//! hands over what it found.

pub mod classifier;
pub mod encoding;
pub mod naming;
pub mod position;
pub mod probe;
pub mod registration;
pub mod registry;
pub mod select;
pub mod text;
pub mod types;

pub use classifier::{BishopParityCodes, MbInfo, ParityIndex, PawnFileCodes, ALL_ONES};
pub use position::{side_count, strength, Position};
pub use naming::{parse_dirname, parse_filename, parse_material};
pub use probe::{Action, Attempt, Pending};
pub use registration::{Directory, DirectoryKey, TableFile};
pub use registry::{Entry, Tablebase};
pub use types::{
    BishopParities, BishopParity, Color, KkIndex, Material, MbValue, PawnFileType, Role,
    RoleCounts, SideValue, TableKey, TableType, Value,
};
