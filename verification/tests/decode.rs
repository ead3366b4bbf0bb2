use dbtui::database::sqlite::{decode, ColumnTypes, TableInfoRow};
use dbtui::database::RawCell;

fn column(col_type: ColumnTypes) -> TableInfoRow {
    TableInfoRow {
        id: 0,
        name: String::from("c"),
        col_type,
        nullable: true,
        default_value: None,
    }
}

fn text(s: &str) -> RawCell {
    RawCell::Text(String::from(s))
}

fn some(s: &str) -> Option<String> {
    Some(String::from(s))
}

#[test]
fn declared_types_match_whole_names() {
    assert_eq!(ColumnTypes::from_str("TEXT"), ColumnTypes::Text);
    assert_eq!(ColumnTypes::from_str("INTEGER"), ColumnTypes::Integer);
    assert_eq!(ColumnTypes::from_str("REAL"), ColumnTypes::Real);
    assert_eq!(ColumnTypes::from_str("BLOB"), ColumnTypes::Blob);
}

#[test]
fn declared_types_match_in_any_case() {
    assert_eq!(ColumnTypes::from_str("text"), ColumnTypes::Text);
    assert_eq!(ColumnTypes::from_str("Integer"), ColumnTypes::Integer);
    assert_eq!(ColumnTypes::from_str("rEaL"), ColumnTypes::Real);
    assert_eq!(ColumnTypes::from_str("blob"), ColumnTypes::Blob);
}

#[test]
fn other_declarations_are_unknown() {
    assert_eq!(ColumnTypes::from_str(""), ColumnTypes::Null);
    assert_eq!(ColumnTypes::from_str("VARCHAR(50)"), ColumnTypes::Null);
    assert_eq!(ColumnTypes::from_str("TEXT "), ColumnTypes::Null);
    assert_eq!(ColumnTypes::from_str("INT"), ColumnTypes::Null);
    assert_eq!(ColumnTypes::from_str("TEXTS"), ColumnTypes::Null);
    assert_eq!(ColumnTypes::from_str("T\u{c9}XT"), ColumnTypes::Null);
    assert_eq!(ColumnTypes::default(), ColumnTypes::Null);
}

#[test]
fn varchar_column_decodes_to_nothing() {
    let c = column(ColumnTypes::from_str("VARCHAR(50)"));
    assert_eq!(decode(&c, &text("hello")), None);
    assert_eq!(decode(&c, &RawCell::Integer(7)), None);
    assert_eq!(decode(&c, &RawCell::Real(String::from("1.5"))), None);
    assert_eq!(decode(&c, &RawCell::Blob(vec![1, 2])), None);
    assert_eq!(decode(&c, &RawCell::Null), None);
}

#[test]
fn null_decodes_to_nothing_under_every_type() {
    assert_eq!(decode(&column(ColumnTypes::Text), &RawCell::Null), None);
    assert_eq!(decode(&column(ColumnTypes::Integer), &RawCell::Null), None);
    assert_eq!(decode(&column(ColumnTypes::Real), &RawCell::Null), None);
    assert_eq!(decode(&column(ColumnTypes::Blob), &RawCell::Null), None);
}

#[test]
fn text_column_gives_text_or_empty() {
    let c = column(ColumnTypes::Text);
    assert_eq!(decode(&c, &text("Ann")), some("Ann"));
    assert_eq!(decode(&c, &text("")), some(""));
    assert_eq!(decode(&c, &RawCell::Integer(5)), some(""));
    assert_eq!(decode(&c, &RawCell::Real(String::from("2.5"))), some(""));
    assert_eq!(decode(&c, &RawCell::Blob(vec![0x61])), some(""));
}

#[test]
fn integer_column_gives_decimal_or_nothing() {
    let c = column(ColumnTypes::Integer);
    assert_eq!(decode(&c, &RawCell::Integer(0)), some("0"));
    assert_eq!(decode(&c, &RawCell::Integer(1)), some("1"));
    assert_eq!(decode(&c, &RawCell::Integer(-42)), some("-42"));
    assert_eq!(decode(&c, &RawCell::Integer(1234567890)), some("1234567890"));
    assert_eq!(decode(&c, &text("12")), None);
    assert_eq!(decode(&c, &RawCell::Real(String::from("12"))), None);
    assert_eq!(decode(&c, &RawCell::Blob(vec![0x31])), None);
}

#[test]
fn integer_beyond_32_bits_decodes_to_nothing() {
    let c = column(ColumnTypes::Integer);
    assert_eq!(decode(&c, &RawCell::Integer(2147483647)), some("2147483647"));
    assert_eq!(decode(&c, &RawCell::Integer(-2147483648)), some("-2147483648"));
    assert_eq!(decode(&c, &RawCell::Integer(2147483648)), None);
    assert_eq!(decode(&c, &RawCell::Integer(-2147483649)), None);
    assert_eq!(decode(&c, &RawCell::Integer(i64::MAX)), None);
    assert_eq!(decode(&c, &RawCell::Integer(i64::MIN)), None);
}

#[test]
fn real_column_gives_notation_or_nothing() {
    let c = column(ColumnTypes::Real);
    let x: f32 = 3.5;
    assert_eq!(decode(&c, &RawCell::Real(x.to_string())), some("3.5"));
    assert_eq!(decode(&c, &RawCell::Integer(3)), None);
    assert_eq!(decode(&c, &text("3.5")), None);
    assert_eq!(decode(&c, &RawCell::Blob(vec![])), None);
}

#[test]
fn blob_column_reads_bytes_as_text() {
    let c = column(ColumnTypes::Blob);
    assert_eq!(decode(&c, &RawCell::Blob(vec![0x61, 0x62])), some("ab"));
    assert_eq!(decode(&c, &RawCell::Blob(vec![0xc3, 0xa9])), some("\u{e9}"));
    assert_eq!(decode(&c, &RawCell::Blob(vec![])), some(""));
    assert_eq!(decode(&c, &text("plain")), some("plain"));
}

#[test]
fn blob_column_gives_empty_for_what_is_no_text() {
    let c = column(ColumnTypes::Blob);
    assert_eq!(decode(&c, &RawCell::Blob(vec![0xff, 0xfe])), some(""));
    assert_eq!(decode(&c, &RawCell::Blob(vec![0xc3])), some(""));
    assert_eq!(decode(&c, &RawCell::Integer(9)), some(""));
    assert_eq!(decode(&c, &RawCell::Real(String::from("0.5"))), some(""));
}
