//! What the screen shows of a session, as plain values: the layout chosen
//! for the terminal's size, the table list, and the current table with its
//! header, its column widths and the text of its cells. Drawing them is left
//! to the caller.

use vstd::prelude::*;
use vstd::string::StringExecFns;
use vstd::utf8::encode_utf8;
use crate::app_state::{State, UserPanels};
use crate::database::sqlite::{ColumnModel, Row, TableInfoRow, columns_view, rows_view};
use crate::text::{decimal_string, int_text, texts_view};

verus! {

/// How the table list and the table are laid out.
#[derive(Debug, Clone, Copy, PartialEq, Eq, Structural)]
pub enum Direction {
    /// Side by side.
    Horizontal,
    /// One above the other.
    Vertical,
}

/// The share of the table's width that a column gets.
#[derive(Debug, Clone, Copy, PartialEq, Eq, Structural)]
pub struct Ratio {
    pub part: u32,
    pub whole: u32,
}

/// What the screen shows.
pub struct Screen {
    pub direction: Direction,
    /// The terminal's width, its height and the connection string.
    pub info: Vec<String>,
    pub tables: Vec<String>,
    /// Whether the table list is the active panel; otherwise the table is.
    pub tables_active: bool,
    pub list_cursor: usize,
    pub title: String,
    pub header: Vec<String>,
    pub widths: Vec<Ratio>,
    pub rows: Vec<Vec<String>>,
    pub table_cursor: usize,
}

/// The layout for a terminal: side by side where it is wider than high.
pub open spec fn direction_for(width: u16, height: u16) -> Direction {
    if width > height {
        Direction::Horizontal
    } else {
        Direction::Vertical
    }
}

/// The text of a cell: the value that the row has for the column, and
/// `NULL` where it has none.
pub open spec fn cell_text(row: Map<Seq<char>, Option<Seq<char>>>, name: Seq<char>) -> Seq<char> {
    if row.contains_key(name) && row[name] is Some {
        row[name]->0
    } else {
        "NULL"@
    }
}

/// The texts of a row's cells, one for each column and in the columns'
/// order.
pub open spec fn row_texts(
    columns: Seq<ColumnModel>,
    row: Map<Seq<char>, Option<Seq<char>>>,
) -> Seq<Seq<char>> {
    Seq::new(columns.len(), |i: int| cell_text(row, columns[i].name))
}

/// The names of the columns, in their order.
pub open spec fn column_names(columns: Seq<ColumnModel>) -> Seq<Seq<char>> {
    Seq::new(columns.len(), |i: int| columns[i].name)
}

/// The number of bytes that a text takes in UTF-8, as a string reports it.
pub open spec fn byte_len(s: Seq<char>) -> usize {
    encode_utf8(s).len() as usize
}

/// The bytes that the names of the columns take together.
pub open spec fn total_width(columns: Seq<ColumnModel>) -> nat
    decreases columns.len(),
{
    if columns.len() == 0 {
        0
    } else {
        total_width(columns.drop_last()) + byte_len(columns.last().name) as nat
    }
}

/// A number as 32 bits hold it, the largest such number standing for all
/// that are larger.
pub open spec fn clamp_u32(n: nat) -> u32 {
    if n <= u32::MAX {
        n as u32
    } else {
        u32::MAX
    }
}

/// The share of each column: the bytes of its name out of the bytes of all
/// the names.
pub open spec fn column_widths(columns: Seq<ColumnModel>) -> Seq<Ratio> {
    Seq::new(
        columns.len(),
        |i: int|
            Ratio {
                part: clamp_u32(byte_len(columns[i].name) as nat),
                whole: clamp_u32(total_width(columns)),
            },
    )
}

/// The title of the table's panel.
pub open spec fn title_text(table: Seq<char>) -> Seq<char> {
    "Table preview: "@ + table
}

/// The texts of the cells of each row, in the rows' order.
pub open spec fn table_texts(
    columns: Seq<ColumnModel>,
    rows: Seq<Map<Seq<char>, Option<Seq<char>>>>,
) -> Seq<Seq<Seq<char>>> {
    Seq::new(rows.len(), |i: int| row_texts(columns, rows[i]))
}

/// The text of each cell of each row of a grid of strings.
pub open spec fn grid_texts(rows: Seq<Vec<String>>) -> Seq<Seq<Seq<char>>> {
    Seq::new(rows.len(), |i: int| texts_view(rows[i]@))
}

fn clamp(n: usize) -> (r: u32)
    ensures
        r == clamp_u32(n as nat),
{
    if n <= 4294967295 {
        n as u32
    } else {
        4294967295
    }
}

fn copy_of(texts: &Vec<String>) -> (r: Vec<String>)
    ensures
        texts_view(r@) == texts_view(texts@),
{
    let mut copy: Vec<String> = Vec::new();
    let mut i: usize = 0;
    while i < texts.len()
        invariant
            i <= texts.len(),
            copy@.len() == i,
            forall|j: int| 0 <= j < i ==> (#[trigger] copy@[j])@ == texts@[j]@,
        decreases texts.len() - i,
    {
        copy.push(texts[i].clone());
        i += 1;
    }
    assert(texts_view(copy@) =~= texts_view(texts@));
    copy
}

fn names_of(columns: &Vec<TableInfoRow>) -> (r: Vec<String>)
    ensures
        texts_view(r@) == column_names(columns_view(columns@)),
{
    let mut names: Vec<String> = Vec::new();
    let mut i: usize = 0;
    while i < columns.len()
        invariant
            i <= columns.len(),
            names@.len() == i,
            forall|j: int| 0 <= j < i ==> (#[trigger] names@[j])@ == columns@[j].name@,
        decreases columns.len() - i,
    {
        names.push(columns[i].name.clone());
        i += 1;
    }
    assert(texts_view(names@) =~= column_names(columns_view(columns@)));
    names
}

fn widths_of(columns: &Vec<TableInfoRow>) -> (r: Vec<Ratio>)
    ensures
        r@ == column_widths(columns_view(columns@)),
{
    let ghost model = columns_view(columns@);
    let mut total: u32 = 0;
    let mut i: usize = 0;
    while i < columns.len()
        invariant
            i <= columns.len(),
            model == columns_view(columns@),
            total == clamp_u32(total_width(model.take(i as int))),
        decreases columns.len() - i,
    {
        let part: u32 = clamp(columns[i].name.as_str().len());
        proof {
            let next = model.take(i + 1);
            assert(next.drop_last() =~= model.take(i as int));
            assert(next.last() == model[i as int]);
        }
        total = if part >= 4294967295 - total {
            4294967295
        } else {
            total + part
        };
        i += 1;
    }
    assert(model.take(i as int) =~= model);
    let mut widths: Vec<Ratio> = Vec::new();
    let mut k: usize = 0;
    while k < columns.len()
        invariant
            k <= columns.len(),
            model == columns_view(columns@),
            total == clamp_u32(total_width(model)),
            widths@.len() == k,
            forall|j: int| 0 <= j < k ==> #[trigger] widths@[j] == column_widths(model)[j],
        decreases columns.len() - k,
    {
        widths.push(Ratio { part: clamp(columns[k].name.as_str().len()), whole: total });
        k += 1;
    }
    assert(widths@ =~= column_widths(model));
    widths
}

/// The texts of a row's cells under the given columns.
pub fn row_cells(columns: &Vec<TableInfoRow>, row: &Row) -> (r: Vec<String>)
    ensures
        texts_view(r@) == row_texts(columns_view(columns@), row@),
{
    let mut cells: Vec<String> = Vec::new();
    let mut i: usize = 0;
    while i < columns.len()
        invariant
            i <= columns.len(),
            cells@.len() == i,
            forall|j: int|
                0 <= j < i ==> (#[trigger] cells@[j])@ == cell_text(row@, columns@[j].name@),
        decreases columns.len() - i,
    {
        let text = match row.get(columns[i].name.as_str()) {
            Some(Some(value)) => value.clone(),
            _ => String::from_str("NULL"),
        };
        cells.push(text);
        i += 1;
    }
    assert(texts_view(cells@) =~= row_texts(columns_view(columns@), row@));
    cells
}

/// What the screen shows of a session on a terminal of the given size.
pub fn ui(width: u16, height: u16, state: &State) -> (r: Screen)
    ensures
        r.direction == direction_for(width, height),
        texts_view(r.info@) == seq![
            int_text(width as int),
            int_text(height as int),
            state.db_url@,
        ],
        texts_view(r.tables@) == texts_view(state.tables@),
        r.tables_active == (state.panel is Tables),
        r.list_cursor == state.list_state,
        r.title@ == title_text(state.current_table@),
        texts_view(r.header@) == column_names(columns_view(state.current_columns@)),
        r.widths@ == column_widths(columns_view(state.current_columns@)),
        grid_texts(r.rows@) == table_texts(
            columns_view(state.current_columns@),
            rows_view(state.last_results@),
        ),
        r.table_cursor == state.table_state,
{
    let direction = if width > height {
        Direction::Horizontal
    } else {
        Direction::Vertical
    };
    let mut info: Vec<String> = Vec::new();
    info.push(decimal_string(width as i64));
    info.push(decimal_string(height as i64));
    info.push(state.db_url.clone());
    assert(texts_view(info@) =~= seq![
        int_text(width as int),
        int_text(height as int),
        state.db_url@,
    ]);
    let mut rows: Vec<Vec<String>> = Vec::new();
    let mut i: usize = 0;
    while i < state.last_results.len()
        invariant
            i <= state.last_results.len(),
            rows@.len() == i,
            forall|j: int|
                0 <= j < i ==> texts_view((#[trigger] rows@[j])@) == row_texts(
                    columns_view(state.current_columns@),
                    state.last_results@[j]@,
                ),
        decreases state.last_results.len() - i,
    {
        rows.push(row_cells(&state.current_columns, &state.last_results[i]));
        i += 1;
    }
    assert(grid_texts(rows@) =~= table_texts(
        columns_view(state.current_columns@),
        rows_view(state.last_results@),
    ));
    Screen {
        direction,
        info,
        tables: copy_of(&state.tables),
        tables_active: match state.panel {
            UserPanels::Tables(_) => true,
            UserPanels::Rows(_) => false,
        },
        list_cursor: state.list_state,
        title: String::from_str("Table preview: ").concat(state.current_table.as_str()),
        header: names_of(&state.current_columns),
        widths: widths_of(&state.current_columns),
        rows,
        table_cursor: state.table_state,
    }
}

} // verus!
