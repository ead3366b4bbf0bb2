use dbtui::app_state::State;
use dbtui::database::sqlite::{describe_table, get_table_entries, Row};
use dbtui::database::{QueryOutcome, RawCell};
use dbtui::ui::{row_cells, ui, Direction, Ratio};

fn text(s: &str) -> RawCell {
    RawCell::Text(String::from(s))
}

fn meta(ordinal: i64, name: &str, declared: &str) -> Vec<RawCell> {
    vec![RawCell::Integer(ordinal), text(name), text(declared), RawCell::Integer(0), RawCell::Null]
}

fn users() -> State {
    let columns = describe_table(&Ok(vec![
        meta(0, "id", "INTEGER"),
        meta(1, "name", "TEXT"),
        meta(2, "score", "REAL"),
    ]))
    .unwrap();
    let x: f32 = 3.5;
    let fetched: QueryOutcome = Ok(vec![
        vec![RawCell::Integer(1), text("Ann"), RawCell::Null],
        vec![RawCell::Integer(2), text(""), RawCell::Real(x.to_string())],
    ]);
    let table = get_table_entries(columns, &fetched).unwrap();
    State::new(
        String::from("sqlite://app.db"),
        vec![String::from("orders"), String::from("users")],
        String::from("users"),
        table,
    )
}

#[test]
fn the_layout_follows_the_terminal() {
    let s = users();
    assert_eq!(ui(120, 40, &s).direction, Direction::Horizontal);
    assert_eq!(ui(40, 120, &s).direction, Direction::Vertical);
    assert_eq!(ui(80, 80, &s).direction, Direction::Vertical);
    assert_eq!(ui(0, 0, &s).direction, Direction::Vertical);
}

#[test]
fn the_screen_shows_the_session() {
    let mut s = users();
    s.next();
    let screen = ui(120, 40, &s);
    assert_eq!(screen.info, vec!["120", "40", "sqlite://app.db"]);
    assert_eq!(screen.tables, vec!["orders", "users"]);
    assert!(screen.tables_active);
    assert_eq!(screen.list_cursor, 1);
    assert_eq!(screen.table_cursor, 1);
    assert_eq!(screen.title, "Table preview: users");
    assert_eq!(screen.header, vec!["id", "name", "score"]);
    s.switch_panel();
    assert!(!ui(65535, 1, &s).tables_active);
    assert_eq!(ui(65535, 1, &s).info[0], "65535");
}

#[test]
fn absent_values_show_as_null_and_empty_text_as_empty() {
    let screen = ui(10, 10, &users());
    assert_eq!(screen.rows, vec![vec!["1", "Ann", "NULL"], vec!["2", "", "3.5"]]);
}

#[test]
fn columns_share_the_width_by_their_names() {
    let screen = ui(10, 10, &users());
    assert_eq!(
        screen.widths,
        vec![
            Ratio { part: 2, whole: 11 },
            Ratio { part: 4, whole: 11 },
            Ratio { part: 5, whole: 11 },
        ]
    );
    let empty = ui(10, 10, &State::default());
    assert!(empty.widths.is_empty());
    assert!(empty.header.is_empty());
    assert!(empty.rows.is_empty());
    assert_eq!(empty.title, "Table preview: ");
}

#[test]
fn widths_count_bytes() {
    let columns = describe_table(&Ok(vec![meta(0, "\u{e9}t\u{e9}", "TEXT"), meta(1, "x", "TEXT")]))
        .unwrap();
    let table = get_table_entries(columns, &Ok(vec![])).unwrap();
    let s = State::new(String::new(), Vec::new(), String::new(), table);
    assert_eq!(
        ui(1, 1, &s).widths,
        vec![Ratio { part: 5, whole: 6 }, Ratio { part: 1, whole: 6 }]
    );
}

#[test]
fn a_row_without_the_column_shows_null() {
    let columns = describe_table(&Ok(vec![meta(0, "a", "TEXT"), meta(1, "b", "TEXT")])).unwrap();
    let mut row = Row::new();
    row.insert(String::from("b"), Some(String::from("here")));
    assert_eq!(row_cells(&columns, &row), vec!["NULL", "here"]);
}
