use sqlbridge::common::{
    classify_mysql, classify_sqlite, collect_row, collect_rows, to_json, to_json_mysql, Backend,
    Category, RawColumn,
};
use sqlbridge::value::{byte_values, Error, Payload, Value};

fn col(name: &str, ty_name: &str, is_null: bool, payload: Payload) -> RawColumn {
    RawColumn { name: name.to_string(), ty_name: ty_name.to_string(), is_null, payload }
}

#[test]
fn null_flag_short_circuits_any_type() {
    assert_eq!(to_json("INTEGER", true, Payload::Int(7)), Ok(Value::Null));
    assert_eq!(to_json("TEXT", true, Payload::Text("x".to_string())), Ok(Value::Null));
    // The null flag wins before the type name is even looked at.
    assert_eq!(to_json("FOOBAR", true, Payload::Undecodable), Ok(Value::Null));
    assert_eq!(to_json_mysql("FOOBAR", true, Payload::Undecodable), Ok(Value::Null));
}

#[test]
fn text_decodes_as_string() {
    assert_eq!(
        to_json("TEXT", false, Payload::Text("hello".to_string())),
        Ok(Value::Text("hello".to_string()))
    );
}

#[test]
fn real_decodes_as_float() {
    let bits = (1.5f64).to_bits();
    assert_eq!(to_json("REAL", false, Payload::Real(bits)), Ok(Value::Float(bits)));
    assert_eq!(Value::Float(bits), Value::Float((1.5f64).to_bits()));
}

#[test]
fn integer_and_numeric_decode_as_int() {
    assert_eq!(to_json("INTEGER", false, Payload::Int(-42)), Ok(Value::Int(-42)));
    assert_eq!(to_json("NUMERIC", false, Payload::Int(7)), Ok(Value::Int(7)));
    assert_eq!(to_json("INTEGER", false, Payload::Int(i64::MAX)), Ok(Value::Int(i64::MAX)));
}

#[test]
fn boolean_decodes() {
    assert_eq!(to_json("BOOLEAN", false, Payload::Bool(true)), Ok(Value::Bool(true)));
    assert_eq!(to_json_mysql("BOOLEAN", false, Payload::Bool(false)), Ok(Value::Bool(false)));
}

#[test]
fn date_and_time_render_as_text() {
    assert_eq!(
        to_json("DATE", false, Payload::Text("2024-02-29".to_string())),
        Ok(Value::Text("2024-02-29".to_string()))
    );
    assert_eq!(
        to_json("TIME", false, Payload::Text("12:34:56".to_string())),
        Ok(Value::Text("12:34:56".to_string()))
    );
    assert_eq!(
        to_json("DATETIME", false, Payload::Text("2024-02-29 12:34:56".to_string())),
        Ok(Value::Text("2024-02-29 12:34:56".to_string()))
    );
    assert_eq!(
        to_json_mysql("TIMESTAMP", false, Payload::Text("2024-02-29 12:34:56 +00:00".to_string())),
        Ok(Value::Text("2024-02-29 12:34:56 +00:00".to_string()))
    );
}

#[test]
fn blob_decodes_as_bytes() {
    assert_eq!(
        to_json("BLOB", false, Payload::Bytes(vec![0, 127, 255])),
        Ok(Value::Bytes(vec![0, 127, 255]))
    );
}

#[test]
fn null_type_name_gives_null() {
    assert_eq!(to_json("NULL", false, Payload::Undecodable), Ok(Value::Null));
    assert_eq!(to_json_mysql("NULL", false, Payload::Undecodable), Ok(Value::Null));
}

#[test]
fn unknown_type_name_fails() {
    assert_eq!(
        to_json("FOOBAR", false, Payload::Undecodable),
        Err(Error::UnsupportedDatatype("FOOBAR".to_string()))
    );
    assert_eq!(
        to_json_mysql("FOOBAR", false, Payload::Undecodable),
        Err(Error::UnsupportedDatatype("FOOBAR".to_string()))
    );
    // The embedded engine does not know the networked engine's names.
    assert_eq!(
        to_json("VARCHAR", false, Payload::Text("x".to_string())),
        Err(Error::UnsupportedDatatype("VARCHAR".to_string()))
    );
}

#[test]
fn malformed_known_type_degrades_to_null() {
    assert_eq!(to_json("INTEGER", false, Payload::Undecodable), Ok(Value::Null));
    assert_eq!(to_json("REAL", false, Payload::Undecodable), Ok(Value::Null));
    assert_eq!(to_json("TEXT", false, Payload::Undecodable), Ok(Value::Null));
    // A payload of the wrong shape counts as a failed decode too.
    assert_eq!(to_json("INTEGER", false, Payload::Text("ten".to_string())), Ok(Value::Null));
    assert_eq!(to_json_mysql("DOUBLE", false, Payload::Undecodable), Ok(Value::Null));
}

#[test]
fn mysql_text_categories_decode_as_string() {
    for ty in ["CHAR", "VARCHAR", "TINYTEXT", "TEXT", "MEDIUMTEXT", "LONGTEXT", "ENUM"] {
        assert_eq!(
            to_json_mysql(ty, false, Payload::Text("v".to_string())),
            Ok(Value::Text("v".to_string()))
        );
    }
}

#[test]
fn mysql_signed_and_unsigned_integers() {
    for ty in ["TINYINT", "SMALLINT", "INT", "MEDIUMINT", "BIGINT"] {
        assert_eq!(to_json_mysql(ty, false, Payload::Int(-5)), Ok(Value::Int(-5)));
    }
    for ty in [
        "TINYINT UNSIGNED",
        "SMALLINT UNSIGNED",
        "INT UNSIGNED",
        "MEDIUMINT UNSIGNED",
        "BIGINT UNSIGNED",
        "YEAR",
    ] {
        assert_eq!(to_json_mysql(ty, false, Payload::Uint(u64::MAX)), Ok(Value::Uint(u64::MAX)));
    }
}

#[test]
fn mysql_json_passes_structured_value_through() {
    let v = Value::Array(vec![Value::Int(1), Value::Text("two".to_string()), Value::Null]);
    let expected = Value::Array(vec![Value::Int(1), Value::Text("two".to_string()), Value::Null]);
    assert_eq!(to_json_mysql("JSON", false, Payload::Json(v)), Ok(expected));
}

#[test]
fn mysql_json_failure_gives_default_empty_value() {
    assert_eq!(to_json_mysql("JSON", false, Payload::Undecodable), Ok(Value::default()));
    assert_eq!(Value::default(), Value::Null);
}

#[test]
fn mysql_blob_name_set_is_exact() {
    for ty in ["TINYBLOB", "MEDIUMBLOB", "BLOB", "LONGBLOB"] {
        assert_eq!(
            to_json_mysql(ty, false, Payload::Bytes(vec![1, 2])),
            Ok(Value::Bytes(vec![1, 2]))
        );
    }
    // Raw binary column names stay outside the known set.
    assert_eq!(
        to_json_mysql("VARBINARY", false, Payload::Bytes(vec![1, 2])),
        Err(Error::UnsupportedDatatype("VARBINARY".to_string()))
    );
}

#[test]
fn classify_matches_category_sets() {
    assert_eq!(classify_sqlite("INTEGER"), Some(Category::Int));
    assert_eq!(classify_sqlite("REAL"), Some(Category::Real));
    assert_eq!(classify_sqlite("JSON"), None);
    assert_eq!(classify_mysql("JSON"), Some(Category::Json));
    assert_eq!(classify_mysql("BIGINT UNSIGNED"), Some(Category::Uint));
    assert_eq!(classify_mysql("REAL"), None);
}

#[test]
fn byte_values_renders_each_byte_as_integer() {
    let r = byte_values(&vec![0u8, 1, 255]);
    assert_eq!(r, vec![Value::Int(0), Value::Int(1), Value::Int(255)]);
    assert_eq!(byte_values(&Vec::new()), Vec::<Value>::new());
}

#[test]
fn collect_row_preserves_order_and_duplicate_names() {
    let cells = vec![
        col("id", "INTEGER", false, Payload::Int(1)),
        col("name", "TEXT", false, Payload::Text("a".to_string())),
        // A joined table may repeat a column name; it stays positional.
        col("id", "INTEGER", false, Payload::Int(2)),
    ];
    let row = collect_row(Backend::Sqlite, cells).unwrap();
    assert_eq!(
        row.columns,
        vec![
            ("id".to_string(), Value::Int(1)),
            ("name".to_string(), Value::Text("a".to_string())),
            ("id".to_string(), Value::Int(2)),
        ]
    );
}

#[test]
fn collect_row_fails_on_unknown_type_name() {
    let cells = vec![
        col("id", "INTEGER", false, Payload::Int(1)),
        col("w", "WIDGET", false, Payload::Undecodable),
    ];
    assert_eq!(
        collect_row(Backend::Sqlite, cells),
        Err(Error::UnsupportedDatatype("WIDGET".to_string()))
    );
}

#[test]
fn collect_rows_coerces_every_row_in_order() {
    let rows = vec![
        vec![col("n", "INTEGER", false, Payload::Int(1))],
        vec![col("n", "INTEGER", true, Payload::Undecodable)],
        vec![col("n", "INTEGER", false, Payload::Undecodable)],
    ];
    let out = collect_rows(Backend::Sqlite, rows).unwrap();
    assert_eq!(out.len(), 3);
    assert_eq!(out[0].columns, vec![("n".to_string(), Value::Int(1))]);
    assert_eq!(out[1].columns, vec![("n".to_string(), Value::Null)]);
    assert_eq!(out[2].columns, vec![("n".to_string(), Value::Null)]);
}

#[test]
fn collect_rows_fails_on_any_unknown_cell() {
    let rows = vec![
        vec![col("n", "INT", false, Payload::Int(1))],
        vec![col("w", "MYSTERY", false, Payload::Undecodable)],
    ];
    assert_eq!(
        collect_rows(Backend::Mysql, rows),
        Err(Error::UnsupportedDatatype("MYSTERY".to_string()))
    );
}
