use sqlxum::common::unescape_query;
use sqlxum::mapper::{convert_value, rule_for, ColumnRule, Decoded, OnDecodeError};
use sqlxum::preview::bytea_as_string;
use sqlxum::row::{convert_row, ColumnDescriptor, RowResult};
use sqlxum::value::{GenericValue, ValueTag};

fn col(name: &str, declared: &str) -> ColumnDescriptor {
    ColumnDescriptor { name: name.to_string(), declared: declared.to_string() }
}

fn convert(declared: &str, d: &Decoded) -> GenericValue {
    convert_value(rule_for(declared), declared, d, OnDecodeError::ByRule)
}

#[test]
fn unescape_replaces_backticks() {
    let q = unescape_query("select * from t where x = `abc`");
    assert_eq!(q, "select * from t where x = 'abc'");
    assert_eq!(unescape_query(&q), q);
}

#[test]
fn unescape_leaves_other_text() {
    assert_eq!(unescape_query(""), "");
    assert_eq!(unescape_query("select 'a' from \"t\""), "select 'a' from \"t\"");
    assert_eq!(unescape_query("``é`"), "''é'");
}

#[test]
fn preview_short_value_is_whole() {
    assert_eq!(bytea_as_string(b"Hello"), "(5) [72, 101, 108, 108, 111] -> ascii='Hello'");
    assert_eq!(bytea_as_string(&[]), "(0) [] -> ascii=''");
    assert_eq!(
        bytea_as_string(b"0123456789"),
        "(10) [48, 49, 50, 51, 52, 53, 54, 55, 56, 57] -> ascii='0123456789'"
    );
}

#[test]
fn preview_long_value_is_cut_at_twelve() {
    assert_eq!(
        bytea_as_string(b"Hello, World!"),
        "(13) [72, 101, 108, 108, 111, 44, 32, 87, 111, 114, 108, 100, ...] -> ascii='Hello, World...'"
    );
    let big = vec![255u8; 300];
    let s = bytea_as_string(&big);
    assert!(s.starts_with("(300) [255, 255, 255, 255, 255, 255, 255, 255, 255, 255, 255, 255, ...] -> ascii='"));
    assert!(s.ends_with("...'"));
}

#[test]
fn preview_eleven_bytes_shows_all_with_marks() {
    assert_eq!(
        bytea_as_string(b"abcdefghijk"),
        "(11) [97, 98, 99, 100, 101, 102, 103, 104, 105, 106, 107, ...] -> ascii='abcdefghijk...'"
    );
}

#[test]
fn preview_decodes_invalid_utf8_lossily() {
    assert_eq!(bytea_as_string(&[0, 159, 65]), "(3) [0, 159, 65] -> ascii='\u{0}\u{FFFD}A'");
}

#[test]
fn rules_match_type_names_exactly() {
    assert_eq!(rule_for("INT2"), ColumnRule::Int2);
    assert_eq!(rule_for("INT4"), ColumnRule::Int4);
    assert_eq!(rule_for("INT8"), ColumnRule::Int8);
    assert_eq!(rule_for("FLOAT4"), ColumnRule::Float4);
    assert_eq!(rule_for("FLOAT8"), ColumnRule::Float8);
    assert_eq!(rule_for("VARCHAR"), ColumnRule::Text);
    assert_eq!(rule_for("TEXT"), ColumnRule::Text);
    assert_eq!(rule_for("TIMESTAMPTZ"), ColumnRule::TimestampTz);
    assert_eq!(rule_for("TIMESTAMP"), ColumnRule::Timestamp);
    assert_eq!(rule_for("BOOL"), ColumnRule::Bool);
    assert_eq!(rule_for("BYTEA"), ColumnRule::Bytea);
    assert_eq!(rule_for("UUID"), ColumnRule::Uuid);
    assert_eq!(rule_for("int2"), ColumnRule::Unhandled);
    assert_eq!(rule_for("JSONB"), ColumnRule::Unhandled);
    assert_eq!(rule_for(""), ColumnRule::Unhandled);
}

#[test]
fn supported_values_keep_their_kind() {
    assert_eq!(convert("INT2", &Decoded::Int2(-3)), GenericValue::Int(-3));
    assert_eq!(convert("INT4", &Decoded::Int4(70000)), GenericValue::Int(70000));
    assert_eq!(convert("INT8", &Decoded::Int8(i64::MIN)), GenericValue::Int(i64::MIN));
    let bits = 1.5f64.to_bits();
    assert_eq!(convert("FLOAT4", &Decoded::Float(bits)), GenericValue::Float(bits));
    assert_eq!(convert("FLOAT8", &Decoded::Float(bits)), GenericValue::Float(bits));
    assert_eq!(convert("TEXT", &Decoded::Text("hi".to_string())), GenericValue::String("hi".to_string()));
    assert_eq!(
        convert("TIMESTAMPTZ", &Decoded::Text("2024-02-14 10:00:00 UTC".to_string())),
        GenericValue::String("2024-02-14 10:00:00 UTC".to_string())
    );
    assert_eq!(convert("BOOL", &Decoded::Bool(true)), GenericValue::Bool(true));
    assert_eq!(
        convert("BYTEA", &Decoded::Bytes(vec![1, 2])),
        GenericValue::String("(2) [1, 2] -> ascii='\u{1}\u{2}'".to_string())
    );
    assert_eq!(convert("INT4", &Decoded::Int4(1)).tag(), ValueTag::Number);
    assert_eq!(convert("FLOAT8", &Decoded::Float(0)).tag(), ValueTag::Number);
    assert_eq!(convert("BOOL", &Decoded::Bool(false)).tag(), ValueTag::Bool);
    assert_eq!(convert("UUID", &Decoded::Text("x".to_string())).tag(), ValueTag::String);
}

#[test]
fn null_is_null_for_every_type() {
    for t in ["INT2", "INT4", "INT8", "FLOAT4", "FLOAT8", "VARCHAR", "TEXT", "TIMESTAMPTZ",
        "TIMESTAMP", "BOOL", "BYTEA", "UUID", "JSONB", "int4"]
    {
        assert_eq!(convert(t, &Decoded::Null), GenericValue::Null);
    }
}

#[test]
fn unhandled_type_gives_marker() {
    assert_eq!(
        convert("JSONB", &Decoded::Text("{}".to_string())),
        GenericValue::String("(UNHANDLED TYPE: JSONB)".to_string())
    );
}

#[test]
fn decode_failure_degrades() {
    let err = Decoded::Failed("mismatched types".to_string());
    assert_eq!(convert("INT4", &err), GenericValue::Null);
    assert_eq!(convert("BOOL", &err), GenericValue::Null);
    assert_eq!(convert("BYTEA", &err), GenericValue::Null);
    assert_eq!(convert("TEXT", &err), GenericValue::String("ERROR: mismatched types".to_string()));
    assert_eq!(convert("UUID", &err), GenericValue::String("ERROR: mismatched types".to_string()));
    assert_eq!(convert("INT4", &Decoded::Text("1".to_string())), GenericValue::Null);
}

#[test]
fn duplicate_column_name_last_wins() {
    let cols = vec![col("x", "INT4"), col("x", "INT4")];
    let cells = vec![Decoded::Int4(1), Decoded::Int4(2)];
    let row = convert_row(&cols, &cells, OnDecodeError::ByRule);
    assert_eq!(row.len(), 1);
    assert_eq!(row.name_at(0), "x");
    assert_eq!(row.get("x"), Some(&GenericValue::Int(2)));
}

#[test]
fn duplicate_name_keeps_first_place() {
    let cols = vec![col("x", "INT4"), col("y", "BOOL"), col("x", "TEXT")];
    let cells = vec![Decoded::Int4(1), Decoded::Bool(false), Decoded::Text("t".to_string())];
    let row = convert_row(&cols, &cells, OnDecodeError::ByRule);
    assert_eq!(row.len(), 2);
    assert_eq!(row.name_at(0), "x");
    assert_eq!(row.value_at(0), &GenericValue::String("t".to_string()));
    assert_eq!(row.name_at(1), "y");
    assert_eq!(row.get("z"), None);
}

#[test]
fn end_to_end_row() {
    let cols = vec![col("a", "INT2"), col("b", "TEXT"), col("c", "BYTEA")];
    let cells = vec![Decoded::Int2(1), Decoded::Null, Decoded::Bytes(b"Hello, World!".to_vec())];
    let row = convert_row(&cols, &cells, OnDecodeError::ByRule);
    let mut expected = RowResult::new();
    expected.insert("a".to_string(), GenericValue::Int(1));
    expected.insert("b".to_string(), GenericValue::Null);
    expected.insert(
        "c".to_string(),
        GenericValue::String(
            "(13) [72, 101, 108, 108, 111, 44, 32, 87, 111, 114, 108, 100, ...] -> ascii='Hello, World...'"
                .to_string(),
        ),
    );
    assert_eq!(row, expected);
}

#[test]
fn decode_failure_policy_is_configurable() {
    let err = Decoded::Failed("bad".to_string());
    let text = GenericValue::String("ERROR: bad".to_string());
    assert_eq!(convert_value(ColumnRule::Text, "TEXT", &err, OnDecodeError::Null), GenericValue::Null);
    assert_eq!(convert_value(ColumnRule::Int8, "INT8", &err, OnDecodeError::EmbedMessage), text);
    assert_eq!(convert_value(ColumnRule::Int8, "INT8", &err, OnDecodeError::Null), GenericValue::Null);
    assert_eq!(convert_value(ColumnRule::Uuid, "UUID", &err, OnDecodeError::EmbedMessage), text);
    assert_eq!(
        convert_value(ColumnRule::Bool, "BOOL", &Decoded::Null, OnDecodeError::EmbedMessage),
        GenericValue::Null
    );
}
