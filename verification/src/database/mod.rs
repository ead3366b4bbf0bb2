//! Database introspection: the values a driver hands over, the errors the
//! introspection reports, and the dispatch on the kind of database.

use vstd::prelude::*;
use vstd::string::StringExecFns;
use crate::database::sqlite::{TableDataWithColumns, TableInfoRow};
use crate::text::texts_view;

pub mod sqlite;

verus! {

/// The SQL dialects a connection may speak.
#[derive(Debug, Clone, Copy, PartialEq, Eq, Structural)]
pub enum SqlFlavor {
    Sqlite,
    Postgres,
    MySQL,
}

impl Default for SqlFlavor {
    fn default() -> (r: Self)
        ensures
            r == SqlFlavor::Sqlite,
    {
        SqlFlavor::Sqlite
    }
}

/// One cell of a fetched row, as the database stored it.
///
/// A real number is carried as text: its value narrowed to 32 bits and
/// written in the platform's default notation by whoever fetched the row.
#[derive(Debug, Clone, PartialEq, Eq)]
pub enum RawCell {
    Null,
    Integer(i64),
    Real(String),
    Text(String),
    Blob(Vec<u8>),
}

/// The mathematical content of a [`RawCell`].
pub enum CellModel {
    Null,
    Integer(int),
    Real(Seq<char>),
    Text(Seq<char>),
    Blob(Seq<u8>),
}

impl View for RawCell {
    type V = CellModel;

    open spec fn view(&self) -> CellModel {
        match *self {
            RawCell::Null => CellModel::Null,
            RawCell::Integer(v) => CellModel::Integer(v as int),
            RawCell::Real(s) => CellModel::Real(s@),
            RawCell::Text(s) => CellModel::Text(s@),
            RawCell::Blob(b) => CellModel::Blob(b@),
        }
    }
}

/// The cells of one fetched row, by position.
pub open spec fn cells_view(row: Seq<RawCell>) -> Seq<CellModel> {
    Seq::new(row.len(), |i: int| row[i]@)
}

/// The fetched rows of one query, each by position.
pub open spec fn grid_view(rows: Seq<Vec<RawCell>>) -> Seq<Seq<CellModel>> {
    Seq::new(rows.len(), |i: int| cells_view(rows[i]@))
}

/// What went wrong with a table's schema.
#[derive(Debug, Clone, Copy, PartialEq, Eq, Structural)]
pub enum SchemaFault {
    /// The table name cannot be written into a query.
    MalformedName,
    /// The database reports no column for the table.
    NoSuchTable,
    /// A column's metadata does not have the expected five fields.
    UnreadableColumn,
}

/// The two failures of introspection.
#[derive(Debug, Clone, PartialEq, Eq)]
pub enum DbError {
    /// The database could not run a query; the driver's message is kept.
    Connection(String),
    /// The table is absent or its metadata cannot be read.
    Schema(SchemaFault),
}

/// The mathematical content of a [`DbError`].
pub enum DbErrorModel {
    Connection(Seq<char>),
    Schema(SchemaFault),
}

impl View for DbError {
    type V = DbErrorModel;

    open spec fn view(&self) -> DbErrorModel {
        match *self {
            DbError::Connection(m) => DbErrorModel::Connection(m@),
            DbError::Schema(f) => DbErrorModel::Schema(f),
        }
    }
}

/// The text shown for a schema fault.
pub open spec fn fault_text(fault: SchemaFault) -> Seq<char> {
    match fault {
        SchemaFault::MalformedName => "malformed table name"@,
        SchemaFault::NoSuchTable => "no such table"@,
        SchemaFault::UnreadableColumn => "unreadable column metadata"@,
    }
}

/// The text shown for an error.
pub open spec fn error_text(e: DbErrorModel) -> Seq<char> {
    match e {
        DbErrorModel::Connection(m) => "connection error: "@ + m,
        DbErrorModel::Schema(f) => "schema error: "@ + fault_text(f),
    }
}

impl DbError {
    /// A one-line description of the error.
    pub fn message(&self) -> (r: String)
        ensures
            r@ == error_text(self@),
    {
        match self {
            DbError::Connection(m) => String::from_str("connection error: ").concat(m.as_str()),
            DbError::Schema(f) => {
                let what = match f {
                    SchemaFault::MalformedName => "malformed table name",
                    SchemaFault::NoSuchTable => "no such table",
                    SchemaFault::UnreadableColumn => "unreadable column metadata",
                };
                String::from_str("schema error: ").concat(what)
            },
        }
    }
}

/// What a query gave: the fetched rows, or the driver's message when the
/// database could not run it.
pub type QueryOutcome = Result<Vec<Vec<RawCell>>, String>;

/// The query that lists the tables of a database of the given kind, where
/// the tables of such a database can be listed.
pub fn tables_query(flavor: SqlFlavor) -> (r: Option<String>)
    ensures
        match flavor {
            SqlFlavor::Sqlite => r matches Some(sql) && sql@ == sqlite::tables_query_text(),
            _ => r is None,
        },
{
    match flavor {
        SqlFlavor::Sqlite => Some(sqlite::tables_query()),
        _ => None,
    }
}

/// The names of the user's tables of a database of the given kind, from the
/// answer to its table listing. Of a database that is not SQLite no table is
/// listed, whatever the answer.
pub fn get_tables(flavor: SqlFlavor, outcome: &QueryOutcome) -> (r: Result<Vec<String>, DbError>)
    ensures
        match (flavor, *outcome) {
            (SqlFlavor::Sqlite, Err(m)) => r matches Err(e) && e@ == DbErrorModel::Connection(m@),
            (SqlFlavor::Sqlite, Ok(rows)) => r matches Ok(names) && sqlite::sorted_names(
                texts_view(names@),
            ) && texts_view(names@).to_multiset() == sqlite::user_tables(
                grid_view(rows@),
            ).to_multiset(),
            _ => r matches Ok(names) && names@.len() == 0,
        },
{
    match flavor {
        SqlFlavor::Sqlite => sqlite::get_tables(outcome),
        _ => Ok(Vec::new()),
    }
}

/// The table that is shown of a database of the given kind, from the table's
/// columns and the answer to its row query. Of a database that is not SQLite
/// the table is empty, whatever the columns and the answer.
pub fn get_table_entries(
    flavor: SqlFlavor,
    columns: Vec<TableInfoRow>,
    outcome: &QueryOutcome,
) -> (r: Result<TableDataWithColumns, DbError>)
    ensures
        match (flavor, *outcome) {
            (SqlFlavor::Sqlite, Err(m)) => r matches Err(e) && e@ == DbErrorModel::Connection(m@),
            (SqlFlavor::Sqlite, Ok(rows)) => r matches Ok(table) && table@.columns
                == sqlite::columns_view(columns@) && table@.rows == sqlite::table_rows(
                sqlite::columns_view(columns@),
                grid_view(rows@),
            ),
            _ => r matches Ok(table) && table@.columns.len() == 0 && table@.rows.len() == 0,
        },
        r matches Ok(table) ==> table@.consistent(),
{
    match flavor {
        SqlFlavor::Sqlite => sqlite::get_table_entries(columns, outcome),
        _ => Ok(TableDataWithColumns::default()),
    }
}

/// The query for a table's column metadata in a database of the given kind,
/// where such a database can be asked. A name that cannot be written into
/// the query is a schema error.
pub fn table_info_query(flavor: SqlFlavor, table: &str) -> (r: Result<Option<String>, DbError>)
    ensures
        match flavor {
            SqlFlavor::Sqlite => if sqlite::well_formed_name(table@) {
                r matches Ok(Some(sql)) && sql@ == sqlite::table_info_text(table@)
            } else {
                r matches Err(e) && e@ == DbErrorModel::Schema(SchemaFault::MalformedName)
            },
            _ => r matches Ok(None),
        },
{
    match flavor {
        SqlFlavor::Sqlite => match sqlite::table_info_query(table) {
            Ok(sql) => Ok(Some(sql)),
            Err(e) => Err(e),
        },
        _ => Ok(None),
    }
}

/// The query for a table's rows in a database of the given kind, where such
/// a database can be asked. A name that cannot be written into the query is
/// a schema error.
pub fn table_rows_query(flavor: SqlFlavor, table: &str) -> (r: Result<Option<String>, DbError>)
    ensures
        match flavor {
            SqlFlavor::Sqlite => if sqlite::well_formed_name(table@) {
                r matches Ok(Some(sql)) && sql@ == sqlite::table_rows_text(table@)
            } else {
                r matches Err(e) && e@ == DbErrorModel::Schema(SchemaFault::MalformedName)
            },
            _ => r matches Ok(None),
        },
{
    match flavor {
        SqlFlavor::Sqlite => match sqlite::table_rows_query(table) {
            Ok(sql) => Ok(Some(sql)),
            Err(e) => Err(e),
        },
        _ => Ok(None),
    }
}

/// The columns of a table of a database of the given kind, from the answer
/// to the table's column metadata query. Of a database that is not SQLite no
/// column is known, whatever the answer.
pub fn describe_table(flavor: SqlFlavor, outcome: &QueryOutcome) -> (r: Result<
    Vec<TableInfoRow>,
    DbError,
>)
    ensures
        match (flavor, *outcome) {
            (SqlFlavor::Sqlite, Err(m)) => r matches Err(e) && e@ == DbErrorModel::Connection(m@),
            (SqlFlavor::Sqlite, Ok(rows)) => if rows@.len() == 0 {
                r matches Err(e) && e@ == DbErrorModel::Schema(SchemaFault::NoSuchTable)
            } else if sqlite::all_columns_parse(grid_view(rows@)) {
                r matches Ok(columns) && sqlite::columns_view(columns@) == sqlite::parsed_columns(
                    grid_view(rows@),
                )
            } else {
                r matches Err(e) && e@ == DbErrorModel::Schema(SchemaFault::UnreadableColumn)
            },
            _ => r matches Ok(columns) && columns@.len() == 0,
        },
        r matches Ok(columns) ==> sqlite::dense_ordinals(sqlite::columns_view(columns@)),
{
    match flavor {
        SqlFlavor::Sqlite => sqlite::describe_table(outcome),
        _ => Ok(Vec::new()),
    }
}

} // verus!
