//! Introspection of SQLite databases: the queries to run, the reading of
//! their results into column descriptors, and the decoding of fetched rows.

use vstd::prelude::*;
use vstd::hash_map::StringHashMap;
use vstd::string::StringExecFns;
use crate::database::{cells_view, grid_view};
use crate::database::{CellModel, DbError, DbErrorModel, QueryOutcome, RawCell, SchemaFault};
use crate::text::{contains_char, decimal_string, eq_ignore_ascii_case, escape};
use crate::text::{eq_ignore_case, escaped, has_char, int_text, lex_le, opt_text};
use crate::text::{lemma_lex_antisymmetric, lemma_lex_reflexive};
use crate::text::{lemma_lex_total, lemma_lex_transitive};
use crate::text::{same_text, str_le, text_of_bytes, texts_view, utf8_text};

verus! {

/// The declared type of a column, which selects the rule by which its cells
/// are decoded. `Null` stands for every declaration that is none of the four
/// others.
#[derive(Clone, Copy, Debug, PartialEq, Eq, Structural)]
pub enum ColumnTypes {
    Text,
    Integer,
    Real,
    Blob,
    Null,
}

impl Default for ColumnTypes {
    fn default() -> (r: Self)
        ensures
            r == ColumnTypes::Null,
    {
        ColumnTypes::Null
    }
}

/// The column type that a declared type string stands for: one of the four
/// known names, whole and in any case, or else `Null`.
pub open spec fn column_type_of(declared: Seq<char>) -> ColumnTypes {
    if eq_ignore_case(declared, "TEXT"@) {
        ColumnTypes::Text
    } else if eq_ignore_case(declared, "REAL"@) {
        ColumnTypes::Real
    } else if eq_ignore_case(declared, "INTEGER"@) {
        ColumnTypes::Integer
    } else if eq_ignore_case(declared, "BLOB"@) {
        ColumnTypes::Blob
    } else {
        ColumnTypes::Null
    }
}

impl ColumnTypes {
    /// Reads a declared type string.
    pub fn from_str(s: &str) -> (r: ColumnTypes)
        ensures
            r == column_type_of(s@),
    {
        if eq_ignore_ascii_case(s, "TEXT") {
            ColumnTypes::Text
        } else if eq_ignore_ascii_case(s, "REAL") {
            ColumnTypes::Real
        } else if eq_ignore_ascii_case(s, "INTEGER") {
            ColumnTypes::Integer
        } else if eq_ignore_ascii_case(s, "BLOB") {
            ColumnTypes::Blob
        } else {
            ColumnTypes::Null
        }
    }
}

/// The descriptor of one column of a table.
#[derive(Clone, Debug, PartialEq, Eq)]
pub struct TableInfoRow {
    /// The column's position in the table, counted from zero.
    pub id: u32,
    pub name: String,
    pub col_type: ColumnTypes,
    /// Whether the column may hold NULL.
    pub nullable: bool,
    pub default_value: Option<String>,
}

/// The mathematical content of a [`TableInfoRow`].
pub struct ColumnModel {
    pub ordinal: nat,
    pub name: Seq<char>,
    pub col_type: ColumnTypes,
    pub nullable: bool,
    pub default_value: Option<Seq<char>>,
}

impl View for TableInfoRow {
    type V = ColumnModel;

    open spec fn view(&self) -> ColumnModel {
        ColumnModel {
            ordinal: self.id as nat,
            name: self.name@,
            col_type: self.col_type,
            nullable: self.nullable,
            default_value: opt_text(self.default_value),
        }
    }
}

/// The descriptors of a sequence of columns.
pub open spec fn columns_view(columns: Seq<TableInfoRow>) -> Seq<ColumnModel> {
    Seq::new(columns.len(), |i: int| columns[i]@)
}

/// What a column of the given type shows when no value of that type can be
/// taken from a cell: the empty text for `Text` and `Blob`, nothing for the
/// others.
pub open spec fn extraction_failure(col_type: ColumnTypes) -> Option<Seq<char>> {
    match col_type {
        ColumnTypes::Text | ColumnTypes::Blob => Some(Seq::empty()),
        _ => None,
    }
}

/// Whether an integer fits in 32 signed bits.
pub open spec fn fits_i32(v: int) -> bool {
    i32::MIN <= v <= i32::MAX
}

/// The decoding of a cell under a column type.
///
/// A cell that holds SQL NULL decodes to nothing under every type, and so
/// does every cell under `Null`. Otherwise:
/// - `Text` gives the stored text, and the empty text for any other value;
/// - `Integer` gives the decimal notation of a stored integer that fits in
///   32 signed bits, and nothing for any other value;
/// - `Real` gives the notation of a stored real number, and nothing for any
///   other value;
/// - `Blob` gives the stored text, or the text that the stored bytes encode
///   in UTF-8, and the empty text for any other value.
pub open spec fn decode_model(col_type: ColumnTypes, cell: CellModel) -> Option<Seq<char>> {
    match (col_type, cell) {
        (_, CellModel::Null) => None,
        (ColumnTypes::Null, _) => None,
        (ColumnTypes::Text, CellModel::Text(s)) => Some(s),
        (ColumnTypes::Integer, CellModel::Integer(v)) => if fits_i32(v) {
            Some(int_text(v))
        } else {
            None
        },
        (ColumnTypes::Real, CellModel::Real(s)) => Some(s),
        (ColumnTypes::Blob, CellModel::Text(s)) => Some(s),
        (ColumnTypes::Blob, CellModel::Blob(b)) => match utf8_text(b) {
            Some(s) => Some(s),
            None => extraction_failure(col_type),
        },
        _ => extraction_failure(col_type),
    }
}

/// Decodes one cell under the declared type of its column. No cell makes
/// this fail: what cannot be decoded shows as the empty text or as nothing.
pub fn decode(descriptor: &TableInfoRow, cell: &RawCell) -> (r: Option<String>)
    ensures
        opt_text(r) == decode_model(descriptor.col_type, cell@),
        cell@ matches CellModel::Integer(v) ==> (descriptor.col_type == ColumnTypes::Integer
            && !fits_i32(v) ==> r is None),
        descriptor.col_type == ColumnTypes::Null ==> r is None,
{
    match cell {
        RawCell::Null => None,
        RawCell::Integer(v) => match descriptor.col_type {
            ColumnTypes::Integer => {
                if -2147483648 <= *v && *v <= 2147483647 {
                    Some(decimal_string(*v))
                } else {
                    None
                }
            },
            ColumnTypes::Text | ColumnTypes::Blob => Some(String::new()),
            _ => None,
        },
        RawCell::Real(s) => match descriptor.col_type {
            ColumnTypes::Real => Some(s.clone()),
            ColumnTypes::Text | ColumnTypes::Blob => Some(String::new()),
            _ => None,
        },
        RawCell::Text(s) => match descriptor.col_type {
            ColumnTypes::Text | ColumnTypes::Blob => Some(s.clone()),
            _ => None,
        },
        RawCell::Blob(b) => match descriptor.col_type {
            ColumnTypes::Text => Some(String::new()),
            ColumnTypes::Blob => match text_of_bytes(b) {
                Some(s) => Some(s),
                None => Some(String::new()),
            },
            _ => None,
        },
    }
}

/// One decoded row: the value shown for each column, by the column's name.
pub struct Row {
    cells: StringHashMap<Option<String>>,
}

impl View for Row {
    type V = Map<Seq<char>, Option<Seq<char>>>;

    closed spec fn view(&self) -> Self::V {
        Map::new(
            |k: Seq<char>| self.cells@.contains_key(k),
            |k: Seq<char>| opt_text(self.cells@[k]),
        )
    }
}

impl Row {
    /// A row without columns.
    pub fn new() -> (r: Row)
        ensures
            r@ == Map::<Seq<char>, Option<Seq<char>>>::empty(),
    {
        let r = Row { cells: StringHashMap::new() };
        assert(r@ =~= Map::<Seq<char>, Option<Seq<char>>>::empty());
        r
    }

    /// Sets the value shown for a column, in place of an earlier one.
    pub fn insert(&mut self, name: String, value: Option<String>)
        ensures
            final(self)@ == old(self)@.insert(name@, opt_text(value)),
    {
        self.cells.insert(name, value);
        assert(self@ =~= old(self)@.insert(name@, opt_text(value)));
    }

    /// The value shown for a column, if the row has that column.
    pub fn get(&self, name: &str) -> (r: Option<&Option<String>>)
        ensures
            match r {
                Some(v) => self@.contains_key(name@) && opt_text(*v) == self@[name@],
                None => !self@.contains_key(name@),
            },
    {
        self.cells.get(name)
    }

    /// Whether the row has a column of that name.
    pub fn contains_key(&self, name: &str) -> (r: bool)
        ensures
            r == self@.contains_key(name@),
    {
        self.cells.contains_key(name)
    }

    /// The number of columns of the row.
    pub fn len(&self) -> (r: usize)
        ensures
            r == self@.len(),
    {
        broadcast use vstd::hash_map::group_hash_map_axioms;

        assert(self@.dom() =~= self.cells@.dom());
        self.cells.len()
    }
}

/// The decoded rows of each row of a sequence.
pub open spec fn rows_view(rows: Seq<Row>) -> Seq<Map<Seq<char>, Option<Seq<char>>>> {
    Seq::new(rows.len(), |i: int| rows[i]@)
}

/// The descriptor that one row of column metadata stands for, when the row
/// is the one at `position`.
///
/// The row must hold five fields or more: the ordinal, an integer equal to
/// the row's position; the name and the declared type, both text; the
/// NOT NULL flag, an integer that is zero for a nullable column; and the
/// default, text or NULL.
pub open spec fn parse_column(row: Seq<CellModel>, position: int) -> Option<ColumnModel> {
    if row.len() >= 5 {
        match (row[0], row[1], row[2], row[3], row[4]) {
            (
                CellModel::Integer(ordinal),
                CellModel::Text(name),
                CellModel::Text(declared),
                CellModel::Integer(flag),
                CellModel::Null,
            ) => if ordinal == position && 0 <= ordinal <= u32::MAX {
                Some(
                    ColumnModel {
                        ordinal: ordinal as nat,
                        name,
                        col_type: column_type_of(declared),
                        nullable: flag == 0,
                        default_value: None,
                    },
                )
            } else {
                None
            },
            (
                CellModel::Integer(ordinal),
                CellModel::Text(name),
                CellModel::Text(declared),
                CellModel::Integer(flag),
                CellModel::Text(default),
            ) => if ordinal == position && 0 <= ordinal <= u32::MAX {
                Some(
                    ColumnModel {
                        ordinal: ordinal as nat,
                        name,
                        col_type: column_type_of(declared),
                        nullable: flag == 0,
                        default_value: Some(default),
                    },
                )
            } else {
                None
            },
            _ => None,
        }
    } else {
        None
    }
}

/// Whether every row of column metadata stands for a descriptor.
pub open spec fn all_columns_parse(rows: Seq<Seq<CellModel>>) -> bool {
    forall|i: int| 0 <= i < rows.len() ==> (#[trigger] parse_column(rows[i], i)) is Some
}

/// The descriptors that the rows of column metadata stand for.
pub open spec fn parsed_columns(rows: Seq<Seq<CellModel>>) -> Seq<ColumnModel> {
    Seq::new(rows.len(), |i: int| parse_column(rows[i], i)->0)
}

/// Ordinals that count the columns from zero, in order and without a gap.
pub open spec fn dense_ordinals(columns: Seq<ColumnModel>) -> bool {
    forall|i: int| 0 <= i < columns.len() ==> (#[trigger] columns[i]).ordinal == i
}

fn read_column(row: &Vec<RawCell>, position: usize) -> (r: Option<TableInfoRow>)
    ensures
        match parse_column(cells_view(row@), position as int) {
            Some(c) => r matches Some(t) && t@ == c,
            None => r is None,
        },
{
    if row.len() < 5 {
        return None;
    }
    let id: u32 = match &row[0] {
        RawCell::Integer(v) => {
            if 0 <= *v && *v <= 4294967295 && position <= 4294967295 && *v as u64
                == position as u64 {
                *v as u32
            } else {
                return None;
            }
        },
        _ => {
            return None;
        },
    };
    let name: String = match &row[1] {
        RawCell::Text(s) => s.clone(),
        _ => {
            return None;
        },
    };
    let col_type: ColumnTypes = match &row[2] {
        RawCell::Text(s) => ColumnTypes::from_str(s.as_str()),
        _ => {
            return None;
        },
    };
    let nullable: bool = match &row[3] {
        RawCell::Integer(v) => *v == 0,
        _ => {
            return None;
        },
    };
    let default_value: Option<String> = match &row[4] {
        RawCell::Null => None,
        RawCell::Text(s) => Some(s.clone()),
        _ => {
            return None;
        },
    };
    Some(TableInfoRow { id, name, col_type, nullable, default_value })
}

/// Reads the answer to a table's column metadata query into the table's
/// descriptors, one for each row and in the rows' order.
///
/// A query that failed gives a connection error with the driver's message.
/// An answer without rows means that the table does not exist; a row that
/// does not stand for a descriptor makes the metadata unreadable.
pub fn describe_table(outcome: &QueryOutcome) -> (r: Result<Vec<TableInfoRow>, DbError>)
    ensures
        match *outcome {
            Err(m) => r matches Err(e) && e@ == DbErrorModel::Connection(m@),
            Ok(rows) => if rows@.len() == 0 {
                r matches Err(e) && e@ == DbErrorModel::Schema(SchemaFault::NoSuchTable)
            } else if all_columns_parse(grid_view(rows@)) {
                r matches Ok(columns) && columns_view(columns@) == parsed_columns(
                    grid_view(rows@),
                )
            } else {
                r matches Err(e) && e@ == DbErrorModel::Schema(SchemaFault::UnreadableColumn)
            },
        },
        r matches Ok(columns) ==> columns@.len() > 0 && dense_ordinals(columns_view(columns@)),
{
    match outcome {
        Err(m) => Err(DbError::Connection(m.clone())),
        Ok(rows) => {
            if rows.len() == 0 {
                return Err(DbError::Schema(SchemaFault::NoSuchTable));
            }
            let ghost grid = grid_view(rows@);
            let mut columns: Vec<TableInfoRow> = Vec::new();
            let mut i: usize = 0;
            while i < rows.len()
                invariant
                    i <= rows.len(),
                    *outcome is Ok && (*outcome)->Ok_0 == *rows,
                    grid == grid_view(rows@),
                    columns@.len() == i,
                    forall|j: int| 0 <= j < i ==> (#[trigger] parse_column(grid[j], j)) is Some,
                    forall|j: int|
                        0 <= j < i ==> (#[trigger] columns@[j])@ == parse_column(grid[j], j)->0,
                decreases rows.len() - i,
            {
                match read_column(&rows[i], i) {
                    Some(column) => {
                        columns.push(column);
                    },
                    None => {
                        assert(parse_column(grid[i as int], i as int) is None);
                        return Err(DbError::Schema(SchemaFault::UnreadableColumn));
                    },
                }
                i += 1;
            }
            assert(columns_view(columns@) =~= parsed_columns(grid));
            Ok(columns)
        },
    }
}

/// The most rows that are fetched and decoded of one table.
pub const ROW_LIMIT: usize = 100;

/// The value shown for a column in a fetched row: the decoding of the cell at
/// the column's ordinal or, where the row has no such cell, what the column's
/// type shows when no value can be taken.
pub open spec fn decode_at(column: ColumnModel, row: Seq<CellModel>) -> Option<Seq<char>> {
    if column.ordinal < row.len() {
        decode_model(column.col_type, row[column.ordinal as int])
    } else {
        extraction_failure(column.col_type)
    }
}

/// The decoded row that a fetched row gives under a table's columns: the
/// columns are taken in their order, and each sets the value for its name.
pub open spec fn row_model(columns: Seq<ColumnModel>, row: Seq<CellModel>) -> Map<
    Seq<char>,
    Option<Seq<char>>,
>
    decreases columns.len(),
{
    if columns.len() == 0 {
        Map::empty()
    } else {
        row_model(columns.drop_last(), row).insert(
            columns.last().name,
            decode_at(columns.last(), row),
        )
    }
}

/// The decoded rows of a table: of the fetched rows, the first `ROW_LIMIT`
/// at most, each decoded under the table's columns.
pub open spec fn table_rows(columns: Seq<ColumnModel>, rows: Seq<Seq<CellModel>>) -> Seq<
    Map<Seq<char>, Option<Seq<char>>>,
> {
    Seq::new(
        if rows.len() <= ROW_LIMIT {
            rows.len()
        } else {
            ROW_LIMIT as nat
        },
        |i: int| row_model(columns, rows[i]),
    )
}

/// Whether some column has the given name.
pub open spec fn has_column(columns: Seq<ColumnModel>, name: Seq<char>) -> bool {
    exists|i: int| 0 <= i < columns.len() && (#[trigger] columns[i]).name == name
}

/// Whether no two columns share a name.
pub open spec fn distinct_names(columns: Seq<ColumnModel>) -> bool {
    forall|i: int, j: int|
        0 <= i < j < columns.len() ==> (#[trigger] columns[i]).name != (#[trigger] columns[j]).name
}

/// A decoded row has a value for the name of each column, and for nothing
/// else.
pub proof fn lemma_row_keys(columns: Seq<ColumnModel>, row: Seq<CellModel>, name: Seq<char>)
    ensures
        row_model(columns, row).contains_key(name) <==> has_column(columns, name),
    decreases columns.len(),
{
    if columns.len() > 0 {
        let front = columns.drop_last();
        lemma_row_keys(front, row, name);
        if has_column(columns, name) {
            let i = choose|i: int| 0 <= i < columns.len() && (#[trigger] columns[i]).name == name;
            if i < columns.len() - 1 {
                assert(front[i].name == name);
            }
        }
        if has_column(front, name) {
            let i = choose|i: int| 0 <= i < front.len() && (#[trigger] front[i]).name == name;
            assert(columns[i].name == name);
        }
        if columns.last().name == name {
            assert(columns[columns.len() - 1].name == name);
        }
    }
}

/// Where no two columns share a name, a decoded row shows for each column
/// the decoding of the cell at the column's ordinal.
pub proof fn lemma_row_values(columns: Seq<ColumnModel>, row: Seq<CellModel>, i: int)
    requires
        distinct_names(columns),
        0 <= i < columns.len(),
    ensures
        row_model(columns, row).contains_key(columns[i].name),
        row_model(columns, row)[columns[i].name] == decode_at(columns[i], row),
    decreases columns.len(),
{
    let front = columns.drop_last();
    if i < columns.len() - 1 {
        assert(distinct_names(front)) by {
            assert forall|a: int, b: int| 0 <= a < b < front.len() implies (#[trigger] front[a]).name
                != (#[trigger] front[b]).name by {
                assert(columns[a].name != columns[b].name);
            }
        }
        lemma_row_values(front, row, i);
        assert(front[i] == columns[i]);
        assert(columns[i].name != columns[columns.len() - 1].name);
    }
}

fn decode_row(columns: &Vec<TableInfoRow>, raw: &Vec<RawCell>) -> (r: Row)
    ensures
        r@ == row_model(columns_view(columns@), cells_view(raw@)),
{
    let ghost model = columns_view(columns@);
    let ghost cells = cells_view(raw@);
    let mut row = Row::new();
    let mut i: usize = 0;
    while i < columns.len()
        invariant
            i <= columns.len(),
            model == columns_view(columns@),
            cells == cells_view(raw@),
            row@ == row_model(model.take(i as int), cells),
        decreases columns.len() - i,
    {
        let column = &columns[i];
        let position: usize = column.id as usize;
        let value: Option<String> = if position < raw.len() {
            decode(column, &raw[position])
        } else {
            match column.col_type {
                ColumnTypes::Text | ColumnTypes::Blob => Some(String::new()),
                _ => None,
            }
        };
        assert(opt_text(value) == decode_at(model[i as int], cells));
        row.insert(column.name.clone(), value);
        proof {
            let next = model.take(i + 1);
            assert(next.drop_last() =~= model.take(i as int));
            assert(next.last() == model[i as int]);
        }
        i += 1;
    }
    assert(model.take(i as int) =~= model);
    row
}

/// A table as it is shown: its columns and its decoded rows.
pub struct TableDataWithColumns {
    pub data: Vec<Row>,
    pub columns: Vec<TableInfoRow>,
}

/// The mathematical content of a [`TableDataWithColumns`].
pub struct TableModel {
    pub columns: Seq<ColumnModel>,
    pub rows: Seq<Map<Seq<char>, Option<Seq<char>>>>,
}

impl View for TableDataWithColumns {
    type V = TableModel;

    open spec fn view(&self) -> TableModel {
        TableModel { columns: columns_view(self.columns@), rows: rows_view(self.data@) }
    }
}

impl TableModel {
    /// The rows are no more than `ROW_LIMIT`, and each has a value for the
    /// name of each column and for nothing else.
    pub open spec fn consistent(self) -> bool {
        &&& self.rows.len() <= ROW_LIMIT
        &&& forall|i: int, name: Seq<char>|
            0 <= i < self.rows.len() ==> (#[trigger] self.rows[i].contains_key(name)
                <==> has_column(self.columns, name))
    }
}

impl Default for TableDataWithColumns {
    /// A table without columns and without rows.
    fn default() -> (r: Self)
        ensures
            r@.columns.len() == 0,
            r@.rows.len() == 0,
            r@.consistent(),
    {
        TableDataWithColumns { data: Vec::new(), columns: Vec::new() }
    }
}

/// Decodes the answer to a table's row query under the table's columns.
///
/// A query that failed gives a connection error with the driver's message.
/// Otherwise the table is built whole: of the fetched rows the first
/// `ROW_LIMIT` at most, in their order, each decoded column by column; a
/// cell that cannot be decoded never makes this fail.
pub fn get_table_entries(columns: Vec<TableInfoRow>, outcome: &QueryOutcome) -> (r: Result<
    TableDataWithColumns,
    DbError,
>)
    ensures
        match *outcome {
            Err(m) => r matches Err(e) && e@ == DbErrorModel::Connection(m@),
            Ok(rows) => r matches Ok(table) && table@.columns == columns_view(columns@)
                && table@.rows == table_rows(columns_view(columns@), grid_view(rows@)),
        },
        r matches Ok(table) ==> table@.consistent(),
{
    match outcome {
        Err(m) => Err(DbError::Connection(m.clone())),
        Ok(rows) => {
            let ghost model = columns_view(columns@);
            let ghost grid = grid_view(rows@);
            let count: usize = if rows.len() <= ROW_LIMIT {
                rows.len()
            } else {
                ROW_LIMIT
            };
            let mut data: Vec<Row> = Vec::new();
            let mut i: usize = 0;
            while i < count
                invariant
                    i <= count <= rows.len(),
                    model == columns_view(columns@),
                    grid == grid_view(rows@),
                    data@.len() == i,
                    forall|j: int| 0 <= j < i ==> (#[trigger] data@[j])@ == row_model(model, grid[j]),
                decreases count - i,
            {
                let row = decode_row(&columns, &rows[i]);
                data.push(row);
                i += 1;
            }
            let table = TableDataWithColumns { data, columns };
            proof {
                assert(table@.rows =~= table_rows(model, grid));
                assert forall|j: int, name: Seq<char>| 0 <= j < table@.rows.len() implies (
                #[trigger] table@.rows[j].contains_key(name) <==> has_column(
                    table@.columns,
                    name,
                )) by {
                    lemma_row_keys(model, grid[j], name);
                }
            }
            Ok(table)
        },
    }
}

/// The query that lists the names of a database's tables: those of the
/// catalog that are neither SQLite's own nor the migration bookkeeping, in
/// the order of their names. The underscore of `sqlite_` is escaped, so that
/// it stands for itself and not for any character.
pub open spec fn tables_query_text() -> Seq<char> {
    "SELECT name FROM sqlite_schema WHERE type = 'table' AND name NOT LIKE 'sqlite\\_%' ESCAPE '\\' AND name != '_sqlx_migrations' ORDER BY 1"@
}

/// The query that lists the names of a database's tables.
pub fn tables_query() -> (r: String)
    ensures
        r@ == tables_query_text(),
{
    String::from_str(
        "SELECT name FROM sqlite_schema WHERE type = 'table' AND name NOT LIKE 'sqlite\\_%' ESCAPE '\\' AND name != '_sqlx_migrations' ORDER BY 1",
    )
}

/// A table name that can be written into a query: not empty, and without a
/// NUL character, which would end the query's text.
pub open spec fn well_formed_name(table: Seq<char>) -> bool {
    table.len() > 0 && !has_char(table, '\0')
}

/// The query for a table's column metadata, with the name as a quoted
/// literal.
pub open spec fn table_info_text(table: Seq<char>) -> Seq<char> {
    "pragma table_info('"@ + escaped(table, '\'') + "')"@
}

/// The query for a table's rows, `ROW_LIMIT` at most, with the name as a
/// quoted identifier.
pub open spec fn table_rows_text(table: Seq<char>) -> Seq<char> {
    "SELECT * FROM \""@ + escaped(table, '"') + "\" LIMIT "@ + int_text(ROW_LIMIT as int)
}

fn check_name(table: &str) -> (r: bool)
    ensures
        r == well_formed_name(table@),
{
    table.unicode_len() > 0 && !contains_char(table, '\0')
}

/// Builds the query for a table's column metadata. A name that cannot be
/// written into a query is a schema error.
pub fn table_info_query(table: &str) -> (r: Result<String, DbError>)
    ensures
        match r {
            Ok(sql) => well_formed_name(table@) && sql@ == table_info_text(table@),
            Err(e) => !well_formed_name(table@) && e@ == DbErrorModel::Schema(
                SchemaFault::MalformedName,
            ),
        },
{
    if !check_name(table) {
        return Err(DbError::Schema(SchemaFault::MalformedName));
    }
    let name = escape(table, '\'');
    let sql = String::from_str("pragma table_info('").concat(name.as_str()).concat("')");
    Ok(sql)
}

/// Builds the query for a table's rows. A name that cannot be written into a
/// query is a schema error.
pub fn table_rows_query(table: &str) -> (r: Result<String, DbError>)
    ensures
        match r {
            Ok(sql) => well_formed_name(table@) && sql@ == table_rows_text(table@),
            Err(e) => !well_formed_name(table@) && e@ == DbErrorModel::Schema(
                SchemaFault::MalformedName,
            ),
        },
{
    if !check_name(table) {
        return Err(DbError::Schema(SchemaFault::MalformedName));
    }
    let name = escape(table, '"');
    let limit = decimal_string(ROW_LIMIT as i64);
    let sql = String::from_str("SELECT * FROM \"").concat(name.as_str()).concat(
        "\" LIMIT ",
    ).concat(limit.as_str());
    Ok(sql)
}

/// The name that one row of the table listing gives: the text of its first
/// cell, or a marker where the row has no such text.
pub open spec fn table_name(row: Seq<CellModel>) -> Seq<char> {
    if row.len() > 0 && row[0] is Text {
        row[0]->Text_0
    } else {
        "Application Confused"@
    }
}

/// The names that the rows of the table listing give, in the rows' order.
pub open spec fn table_names(rows: Seq<Seq<CellModel>>) -> Seq<Seq<char>> {
    Seq::new(rows.len(), |i: int| table_name(rows[i]))
}

/// A table of SQLite's own: its name begins with `sqlite_`, in any case.
pub open spec fn is_system_table(name: Seq<char>) -> bool {
    name.len() >= 7 && eq_ignore_case(name.take(7), "sqlite_"@)
}

/// The table in which migrations are recorded.
pub open spec fn is_migration_table(name: Seq<char>) -> bool {
    name == "_sqlx_migrations"@
}

/// A table of the database's user: neither SQLite's own nor the migration
/// bookkeeping.
pub open spec fn is_user_table(name: Seq<char>) -> bool {
    !is_system_table(name) && !is_migration_table(name)
}

/// The names of the user's tables among those that the rows of the table
/// listing give, in the rows' order.
pub open spec fn user_tables(rows: Seq<Seq<CellModel>>) -> Seq<Seq<char>> {
    table_names(rows).filter(|name: Seq<char>| is_user_table(name))
}

/// Names in lexicographic order.
pub open spec fn sorted_names(names: Seq<Seq<char>>) -> bool {
    forall|i: int, j: int| 0 <= i < j < names.len() ==> lex_le(names[i], names[j])
}

fn read_table_name(row: &Vec<RawCell>) -> (r: String)
    ensures
        r@ == table_name(cells_view(row@)),
{
    if row.len() > 0 {
        match &row[0] {
            RawCell::Text(s) => {
                return s.clone();
            },
            _ => {},
        }
    }
    String::from_str("Application Confused")
}

fn user_table(name: &str) -> (r: bool)
    ensures
        r == is_user_table(name@),
{
    if same_text(name, "_sqlx_migrations") {
        return false;
    }
    if name.unicode_len() < 7 {
        return true;
    }
    !eq_ignore_ascii_case(name.substring_char(0, 7), "sqlite_")
}

fn insert_sorted(names: &mut Vec<String>, name: String)
    requires
        sorted_names(texts_view(old(names)@)),
    ensures
        sorted_names(texts_view(final(names)@)),
        texts_view(final(names)@).to_multiset() == texts_view(old(names)@).to_multiset().insert(
            name@,
        ),
{
    let ghost before = texts_view(names@);
    let mut at: usize = 0;
    while at < names.len() && str_le(names[at].as_str(), name.as_str())
        invariant
            at <= names.len(),
            *names == *old(names),
            forall|j: int| 0 <= j < at ==> lex_le(#[trigger] names@[j]@, name@),
        decreases names.len() - at,
    {
        at += 1;
    }
    names.insert(at, name);
    proof {
        let after = texts_view(names@);
        assert(after =~= before.insert(at as int, name@));
        assert forall|i: int, j: int| 0 <= i < j < after.len() implies lex_le(
            after[i],
            after[j],
        ) by {
            if j == at {
                assert(after[i] == before[i]);
            } else if i == at {
                assert(after[j] == before[j - 1]);
                lemma_lex_total(before[at as int], name@);
                if j - 1 > at {
                    lemma_lex_transitive(name@, before[at as int], before[j - 1]);
                }
            } else {
                let a = if i < at {
                    i
                } else {
                    i - 1
                };
                let b = if j < at {
                    j
                } else {
                    j - 1
                };
                assert(after[i] == before[a] && after[j] == before[b]);
            }
        }
        lemma_insert_to_multiset(before, at as int, name@);
    }
}

/// A sequence with an element put in holds what it held, and the element
/// once more.
proof fn lemma_insert_to_multiset(s: Seq<Seq<char>>, at: int, x: Seq<char>)
    requires
        0 <= at <= s.len(),
    ensures
        s.insert(at, x).to_multiset() == s.to_multiset().insert(x),
{
    broadcast use vstd::seq_lib::group_to_multiset_ensures;

    let t = s.insert(at, x);
    assert(t[at] == x);
    assert(t.remove(at) =~= s);
    assert(t.contains(x));
    assert(t.to_multiset().remove(x).insert(x) =~= t.to_multiset());
}

/// Reads the answer to the table listing into the names of the user's
/// tables, in lexicographic order.
///
/// A query that failed gives a connection error with the driver's message.
/// An answer without a user's table gives no name, which is no error.
pub fn get_tables(outcome: &QueryOutcome) -> (r: Result<Vec<String>, DbError>)
    ensures
        match *outcome {
            Err(m) => r matches Err(e) && e@ == DbErrorModel::Connection(m@),
            Ok(rows) => r matches Ok(names) && sorted_names(texts_view(names@)) && texts_view(
                names@,
            ).to_multiset() == user_tables(grid_view(rows@)).to_multiset(),
        },
        r matches Ok(names) ==> forall|i: int|
            0 <= i < names@.len() ==> is_user_table(#[trigger] names@[i]@),
{
    match outcome {
        Err(m) => Err(DbError::Connection(m.clone())),
        Ok(rows) => {
            let ghost listed = table_names(grid_view(rows@));
            let ghost user = |name: Seq<char>| is_user_table(name);
            let mut names: Vec<String> = Vec::new();
            let mut i: usize = 0;
            assert(listed.take(0).filter(user) =~= Seq::<Seq<char>>::empty());
            assert(texts_view(names@) =~= Seq::<Seq<char>>::empty());
            while i < rows.len()
                invariant
                    i <= rows.len(),
                    listed == table_names(grid_view(rows@)),
                    user == |name: Seq<char>| is_user_table(name),
                    sorted_names(texts_view(names@)),
                    texts_view(names@).to_multiset() == listed.take(i as int).filter(
                        user,
                    ).to_multiset(),
                decreases rows.len() - i,
            {
                let name = read_table_name(&rows[i]);
                proof {
                    let seen = listed.take(i as int);
                    assert(listed.take(i + 1) =~= seen.push(name@));
                    seen.lemma_filter_push(name@, user);
                    vstd::seq_lib::to_multiset_build(seen.filter(user), name@);
                }
                if user_table(name.as_str()) {
                    insert_sorted(&mut names, name);
                }
                i += 1;
            }
            proof {
                assert(listed.take(i as int) =~= listed);
                let shown = texts_view(names@);
                assert forall|k: int| 0 <= k < names@.len() implies is_user_table(
                    #[trigger] names@[k]@,
                ) by {
                    shown.to_multiset_ensures();
                    listed.filter(user).to_multiset_ensures();
                    assert(shown[k] == names@[k]@);
                    assert(shown.contains(shown[k]));
                    assert(shown.to_multiset().count(shown[k]) > 0);
                    assert(listed.filter(user).contains(shown[k]));
                    listed.lemma_filter_contains_rev(user, shown[k]);
                }
            }
            Ok(names)
        },
    }
}

/// There is one listing of given names in lexicographic order: two sorted
/// sequences that hold the same names, each as often as the other, are the
/// same sequence.
pub proof fn lemma_sorted_names_unique(x: Seq<Seq<char>>, y: Seq<Seq<char>>)
    requires
        sorted_names(x),
        sorted_names(y),
        x.to_multiset() == y.to_multiset(),
    ensures
        x == y,
{
    let leq = |a: Seq<char>, b: Seq<char>| lex_le(a, b);
    assert(vstd::relations::total_ordering(leq)) by {
        assert forall|a: Seq<char>| #[trigger] leq(a, a) by {
            lemma_lex_reflexive(a);
        }
        assert forall|a: Seq<char>, b: Seq<char>| #[trigger] leq(a, b) && #[trigger] leq(
            b,
            a,
        ) implies a == b by {
            lemma_lex_antisymmetric(a, b);
        }
        assert forall|a: Seq<char>, b: Seq<char>, c: Seq<char>| #[trigger] leq(a, b)
            && #[trigger] leq(b, c) implies leq(a, c) by {
            lemma_lex_transitive(a, b, c);
        }
        assert forall|a: Seq<char>, b: Seq<char>| #[trigger] leq(a, b) || #[trigger] leq(
            b,
            a,
        ) by {
            lemma_lex_total(a, b);
        }
    }
    assert(vstd::relations::sorted_by(x, leq));
    assert(vstd::relations::sorted_by(y, leq));
    vstd::seq_lib::lemma_sorted_unique(x, y, leq);
}

} // verus!
