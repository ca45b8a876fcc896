//! Deleting rows by primary key: what has to hold of the table and the
//! column before a row is deleted.

use vstd::prelude::*;
use vstd::string::*;
use crate::error::AdminError;
use crate::metadata::{Column, ColumnDataType, TableMetadataCache, lookup};

verus! {

/// What is said of a table that the cache does not know.
pub open spec fn missing_table_text(table: Seq<char>) -> Seq<char> {
    "Table "@ + table + " not found"@
}

/// What is said of a column that the table does not have.
pub open spec fn missing_column_text(column: Seq<char>) -> Seq<char> {
    "Missing column: "@ + column
}

/// What is said of a column that is not the primary key.
pub open spec fn not_primary_text(column: Seq<char>) -> Seq<char> {
    "Not a primary key: "@ + column
}

/// The column by which rows of `table` are deleted when `column` is named
/// as the primary key, or what is said where that cannot be: of the table
/// where it is unknown, else of the column where the table has none of that
/// name, else of the column where it is not the primary key.
pub open spec fn key_column(cache: TableMetadataCache, table: Seq<char>, column: Seq<char>)
    -> Result<Column, Seq<char>> {
    match lookup(cache.tables(), table) {
        None => Err(missing_table_text(table)),
        Some(meta) => match lookup(meta.columns@, column) {
            None => Err(missing_column_text(column)),
            Some(found) => if found.primary {
                Ok(found)
            } else {
                Err(not_primary_text(column))
            },
        },
    }
}

/// Checks that rows of the table `table_name` can be deleted by the column
/// `pk_col`, and yields the type of that column, which the key of the row
/// to delete has to be read as.
pub fn delete_row_target(cache: &TableMetadataCache, table_name: &str, pk_col: &str) -> (r:
    Result<ColumnDataType, AdminError>)
    ensures
        match key_column(*cache, table_name@, pk_col@) {
            Ok(column) => r matches Ok(data_type) && data_type == column.data_type,
            Err(text) => r matches Err(AdminError::Precondition(said)) && said@ == text,
        },
{
    let Some(table) = cache.get(table_name) else {
        let mut text = String::from_str("Table ");
        text.append(table_name);
        text.append(" not found");
        return Err(AdminError::Precondition(text));
    };
    let Some(column) = table.column_by_name(pk_col) else {
        let mut text = String::from_str("Missing column: ");
        text.append(pk_col);
        return Err(AdminError::Precondition(text));
    };
    if !column.is_primary() {
        let mut text = String::from_str("Not a primary key: ");
        text.append(pk_col);
        return Err(AdminError::Precondition(text));
    }
    Ok(column.data_type)
}

} // verus!
