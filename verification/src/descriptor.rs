//! The description of one table or view, ready for rendering.

use vstd::prelude::*;
use crate::catalog::ColumnInfo;
use crate::foreign_key::ForeignKeys;
use crate::index::IndexClasses;

verus! {

/// What kind of table a description is about.
#[derive(Debug, PartialEq)]
pub enum TableKind {
    /// A table with storage of its own.
    Ordinary,
    /// A table that an extension module implements.
    Virtual { module: String },
    /// A table that belongs to a virtual table.
    Shadow,
}

/// One column of a table, with the expression that computes it where it is a
/// generated column.
#[derive(Debug, PartialEq)]
pub struct TableColumn {
    pub info: ColumnInfo,
    pub generated_as: Option<String>,
}

/// All that the report says of one table.
#[derive(Debug)]
pub struct TableDescriptor {
    pub name: String,
    pub kind: TableKind,
    pub strict: bool,
    pub without_rowid: bool,
    pub columns: Vec<TableColumn>,
    pub indexes: IndexClasses,
    pub foreign_keys: ForeignKeys,
    pub nrows: u64,
    pub triggers: Vec<String>,
}

/// All that the report says of one view.
#[derive(Debug, PartialEq)]
pub struct ViewDescriptor {
    pub name: String,
    pub columns: Vec<ColumnInfo>,
    pub nrows: u64,
    /// The query of the view, as text.
    pub select: Option<String>,
}

/// The hidden-kind tag of an ordinary column.
pub const VISIBLE: u8 = 0;

/// The hidden-kind tag of a hidden column of a virtual table.
pub const HIDDEN: u8 = 1;

/// The hidden-kind tag of a generated column that is computed on read.
pub const GENERATED_VIRTUAL: u8 = 2;

/// The hidden-kind tag of a generated column whose value is stored.
pub const GENERATED_STORED: u8 = 3;

/// Whether the catalog calls the column a generated one.
pub open spec fn is_generated(col: ColumnInfo) -> bool {
    col.hidden == GENERATED_VIRTUAL || col.hidden == GENERATED_STORED
}

} // verus!
