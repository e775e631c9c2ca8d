//! Columns of the framework's read-only table viewer.

use vstd::prelude::*;

verus! {

/// The kind of values a column shows.
#[derive(Debug, Clone, Copy, PartialEq, Eq, Structural)]
pub enum TableColumnType {
    Text,
    Integer,
    Number,
    Boolean,
    Status,
}

/// A column of a table: its id, title and kind.
#[derive(Debug, Clone)]
pub struct TableColumn {
    pub id: String,
    pub title: String,
    pub column_type: TableColumnType,
}

impl TableColumn {
    pub fn new(id: &str, title: &str, column_type: TableColumnType) -> (r: Self)
        ensures
            r.id@ == id@,
            r.title@ == title@,
            r.column_type == column_type,
    {
        TableColumn { id: id.to_owned(), title: title.to_owned(), column_type }
    }
}

} // verus!
