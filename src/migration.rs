//! The two migrations, applied to the text of one table file.
use vstd::prelude::*;

use crate::codec::{csv_records, csv_text, read_records, write_records};
use crate::layout::find_column;
use crate::table::{
    header_copy, header_of, insert_column_records, inserted_records, reorder_records,
    reordered_records, TableError,
};

verus! {

/// Settings of an insert: the directory to scan, the new column's name, the
/// value every data record receives, and its 1-based position.
pub struct InsertConfig {
    pub path: String,
    pub column: String,
    pub default_value: String,
    pub order: i32,
}

/// Settings of a reorder: the directory to scan, the column to move, and
/// its new 1-based position.
pub struct ReorderConfig {
    pub path: String,
    pub column: String,
    pub order: i32,
}

/// The operation to apply to every table file.
pub enum Commands {
    Insert(InsertConfig),
    Reorder(ReorderConfig),
}

/// What inserting `column` (with `default` in the data records) at `order`
/// owes for the file text `content`: a parse error for malformed text, else
/// the encoding of the inserted records.
pub open spec fn insert_outcome(
    content: Seq<char>,
    column: Seq<char>,
    default: Seq<char>,
    order: int,
    r: Result<String, TableError>,
) -> bool {
    match csv_records(content) {
        None => r == Err::<String, TableError>(TableError::Parse),
        Some(records) => r matches Ok(text) && text@ == csv_text(
            inserted_records(records, column, default, order),
        ),
    }
}

/// What moving `column` to `order` owes for the file text `content`: a parse
/// error for malformed text, the table's own error where the move cannot be
/// made, else the encoding of the moved records.
pub open spec fn reorder_outcome(
    content: Seq<char>,
    column: Seq<char>,
    order: int,
    r: Result<String, TableError>,
) -> bool {
    match csv_records(content) {
        None => r == Err::<String, TableError>(TableError::Parse),
        Some(records) => match reordered_records(records, column, order) {
            Err(e) => r == Err::<String, TableError>(e),
            Ok(moved) => r matches Ok(text) && text@ == csv_text(moved),
        },
    }
}

/// An insert migration.
pub struct InsertMigration {
    pub config: InsertConfig,
}

impl InsertMigration {
    pub fn new(config: InsertConfig) -> (r: Self)
        ensures
            r.config == config,
    {
        InsertMigration { config }
    }

    /// The new text of a table file whose text is `content`, with `column`
    /// inserted at `order` and `default_value` in every data record.
    pub fn insert_column(
        &self,
        content: &str,
        column: &str,
        default_value: &str,
        order: i32,
    ) -> (r: Result<String, TableError>)
        ensures
            insert_outcome(content@, column@, default_value@, order as int, r),
    {
        let records = read_records(content)?;
        let inserted = insert_column_records(&records, column, default_value, order);
        Ok(write_records(&inserted))
    }
}

/// A reorder migration.
pub struct ReorderMigration {
    pub config: ReorderConfig,
}

impl ReorderMigration {
    pub fn new(config: ReorderConfig) -> (r: Self)
        ensures
            r.config == config,
    {
        ReorderMigration { config }
    }

    /// The new text of a table file whose text is `content`, with `column`
    /// moved to `order`. Nothing is produced unless the header names the
    /// column and every data record can give up its field.
    pub fn shift_column(&self, content: &str, column: &String, order: i32) -> (r: Result<
        String,
        TableError,
    >)
        ensures
            reorder_outcome(content@, column@, order as int, r),
    {
        let records = read_records(content)?;
        let moved = reorder_records(&records, column, order)?;
        Ok(write_records(&moved))
    }

    /// Whether the first header field of the table `content` equal to
    /// `column` already stands at the 1-based position `order`, so that
    /// moving it leaves the table as it is.
    pub fn is_in_place(&self, content: &str, column: &String, order: i32) -> (r: bool)
        ensures
            r == (csv_records(content@) matches Some(records) && header_of(records).index_of_first(
                column@,
            ) == Some(order - 1)),
    {
        let records = match read_records(content) {
            Ok(records) => records,
            Err(_) => return false,
        };
        let header = header_copy(&records);
        match find_column(&header, column) {
            Some(k) => order >= 1 && k as u64 == (order - 1) as u64,
            None => false,
        }
    }
}

/// Applies `command` to one table file whose text is `content`, giving the
/// file's new text.
pub fn run(command: Commands, content: &str) -> (r: Result<String, TableError>)
    ensures
        match command {
            Commands::Insert(c) => insert_outcome(
                content@,
                c.column@,
                c.default_value@,
                c.order as int,
                r,
            ),
            Commands::Reorder(c) => reorder_outcome(content@, c.column@, c.order as int, r),
        },
{
    match command {
        Commands::Insert(config) => {
            let migration = InsertMigration::new(config);
            migration.insert_column(
                content,
                migration.config.column.as_str(),
                migration.config.default_value.as_str(),
                migration.config.order,
            )
        },
        Commands::Reorder(config) => {
            let migration = ReorderMigration::new(config);
            migration.shift_column(content, &migration.config.column, migration.config.order)
        },
    }
}

} // verus!
