use vstd::prelude::*;
use crate::value::{Error, Payload, Value};

verus! {

/// Relies on str's `PartialEq`: two string slices compare equal exactly when
/// their character sequences are equal.
#[verifier::external_body]
pub(crate) fn str_eq(a: &str, b: &str) -> (r: bool)
    ensures
        r == (a@ == b@),
{
    a == b
}

/// The category a driver-reported column type name falls into.  The two
/// backends recognise different name sets (and only the networked backend
/// has unsigned, timestamp and JSON categories), but both coerce through the
/// same per-category rule.
#[derive(Debug, Clone, Copy, PartialEq, Eq, Structural)]
pub enum Category {
    Text,
    Real,
    Int,
    Uint,
    Boolean,
    Date,
    Time,
    DateTime,
    Timestamp,
    Json,
    Blob,
    Null,
}

/// The category of an embedded-engine (file-based) column type name, or
/// `None` for a name outside the known set.
pub open spec fn sqlite_category(name: Seq<char>) -> Option<Category> {
    if name == "TEXT"@ {
        Some(Category::Text)
    } else if name == "REAL"@ {
        Some(Category::Real)
    } else if name == "INTEGER"@ || name == "NUMERIC"@ {
        Some(Category::Int)
    } else if name == "BOOLEAN"@ {
        Some(Category::Boolean)
    } else if name == "DATE"@ {
        Some(Category::Date)
    } else if name == "TIME"@ {
        Some(Category::Time)
    } else if name == "DATETIME"@ {
        Some(Category::DateTime)
    } else if name == "BLOB"@ {
        Some(Category::Blob)
    } else if name == "NULL"@ {
        Some(Category::Null)
    } else {
        None
    }
}

/// Classifies an embedded-engine column type name.
pub fn classify_sqlite(name: &str) -> (r: Option<Category>)
    ensures
        r == sqlite_category(name@),
{
    if str_eq(name, "TEXT") {
        Some(Category::Text)
    } else if str_eq(name, "REAL") {
        Some(Category::Real)
    } else if str_eq(name, "INTEGER") || str_eq(name, "NUMERIC") {
        Some(Category::Int)
    } else if str_eq(name, "BOOLEAN") {
        Some(Category::Boolean)
    } else if str_eq(name, "DATE") {
        Some(Category::Date)
    } else if str_eq(name, "TIME") {
        Some(Category::Time)
    } else if str_eq(name, "DATETIME") {
        Some(Category::DateTime)
    } else if str_eq(name, "BLOB") {
        Some(Category::Blob)
    } else if str_eq(name, "NULL") {
        Some(Category::Null)
    } else {
        None
    }
}

/// The category of a networked-engine column type name, or `None` for a
/// name outside the known set.
pub open spec fn mysql_category(name: Seq<char>) -> Option<Category> {
    if name == "CHAR"@ || name == "VARCHAR"@ || name == "TINYTEXT"@ || name == "TEXT"@
        || name == "MEDIUMTEXT"@ || name == "LONGTEXT"@ || name == "ENUM"@ {
        Some(Category::Text)
    } else if name == "FLOAT"@ || name == "DOUBLE"@ {
        Some(Category::Real)
    } else if name == "TINYINT"@ || name == "SMALLINT"@ || name == "INT"@
        || name == "MEDIUMINT"@ || name == "BIGINT"@ {
        Some(Category::Int)
    } else if name == "TINYINT UNSIGNED"@ || name == "SMALLINT UNSIGNED"@
        || name == "INT UNSIGNED"@ || name == "MEDIUMINT UNSIGNED"@
        || name == "BIGINT UNSIGNED"@ || name == "YEAR"@ {
        Some(Category::Uint)
    } else if name == "BOOLEAN"@ {
        Some(Category::Boolean)
    } else if name == "DATE"@ {
        Some(Category::Date)
    } else if name == "TIME"@ {
        Some(Category::Time)
    } else if name == "DATETIME"@ {
        Some(Category::DateTime)
    } else if name == "TIMESTAMP"@ {
        Some(Category::Timestamp)
    } else if name == "JSON"@ {
        Some(Category::Json)
    } else if name == "TINYBLOB"@ || name == "MEDIUMBLOB"@ || name == "BLOB"@
        || name == "LONGBLOB"@ {
        Some(Category::Blob)
    } else if name == "NULL"@ {
        Some(Category::Null)
    } else {
        None
    }
}

/// Classifies a networked-engine column type name.
pub fn classify_mysql(name: &str) -> (r: Option<Category>)
    ensures
        r == mysql_category(name@),
{
    if str_eq(name, "CHAR") || str_eq(name, "VARCHAR") || str_eq(name, "TINYTEXT")
        || str_eq(name, "TEXT") || str_eq(name, "MEDIUMTEXT") || str_eq(name, "LONGTEXT")
        || str_eq(name, "ENUM") {
        Some(Category::Text)
    } else if str_eq(name, "FLOAT") || str_eq(name, "DOUBLE") {
        Some(Category::Real)
    } else if str_eq(name, "TINYINT") || str_eq(name, "SMALLINT") || str_eq(name, "INT")
        || str_eq(name, "MEDIUMINT") || str_eq(name, "BIGINT") {
        Some(Category::Int)
    } else if str_eq(name, "TINYINT UNSIGNED") || str_eq(name, "SMALLINT UNSIGNED")
        || str_eq(name, "INT UNSIGNED") || str_eq(name, "MEDIUMINT UNSIGNED")
        || str_eq(name, "BIGINT UNSIGNED") || str_eq(name, "YEAR") {
        Some(Category::Uint)
    } else if str_eq(name, "BOOLEAN") {
        Some(Category::Boolean)
    } else if str_eq(name, "DATE") {
        Some(Category::Date)
    } else if str_eq(name, "TIME") {
        Some(Category::Time)
    } else if str_eq(name, "DATETIME") {
        Some(Category::DateTime)
    } else if str_eq(name, "TIMESTAMP") {
        Some(Category::Timestamp)
    } else if str_eq(name, "JSON") {
        Some(Category::Json)
    } else if str_eq(name, "TINYBLOB") || str_eq(name, "MEDIUMBLOB") || str_eq(name, "BLOB")
        || str_eq(name, "LONGBLOB") {
        Some(Category::Blob)
    } else if str_eq(name, "NULL") {
        Some(Category::Null)
    } else {
        None
    }
}

/// The per-category coercion rule shared by both backends.  A payload of
/// the category's expected shape becomes the value of the matching tag; any
/// other payload means the driver-side decode failed, and the cell degrades
/// silently to `Null` — except in the JSON category, which degrades to the
/// empty structured value (`Value::default()`, which is `Null`) instead.
pub open spec fn coerce_category(c: Category, p: Payload) -> Value {
    match c {
        Category::Text | Category::Date | Category::Time | Category::DateTime
        | Category::Timestamp => match p {
            Payload::Text(s) => Value::Text(s),
            _ => Value::Null,
        },
        Category::Real => match p {
            Payload::Real(bits) => Value::Float(bits),
            _ => Value::Null,
        },
        Category::Int => match p {
            Payload::Int(i) => Value::Int(i),
            _ => Value::Null,
        },
        Category::Uint => match p {
            Payload::Uint(u) => Value::Uint(u),
            _ => Value::Null,
        },
        Category::Boolean => match p {
            Payload::Bool(b) => Value::Bool(b),
            _ => Value::Null,
        },
        Category::Json => match p {
            Payload::Json(v) => v,
            _ => Value::Null,
        },
        Category::Blob => match p {
            Payload::Bytes(b) => Value::Bytes(b),
            _ => Value::Null,
        },
        Category::Null => Value::Null,
    }
}

/// The shared executable half of the per-category rule.
fn coerce_known(c: Category, p: Payload) -> (r: Value)
    ensures
        r == coerce_category(c, p),
{
    match c {
        Category::Text | Category::Date | Category::Time | Category::DateTime
        | Category::Timestamp => match p {
            Payload::Text(s) => Value::Text(s),
            _ => Value::Null,
        },
        Category::Real => match p {
            Payload::Real(bits) => Value::Float(bits),
            _ => Value::Null,
        },
        Category::Int => match p {
            Payload::Int(i) => Value::Int(i),
            _ => Value::Null,
        },
        Category::Uint => match p {
            Payload::Uint(u) => Value::Uint(u),
            _ => Value::Null,
        },
        Category::Boolean => match p {
            Payload::Bool(b) => Value::Bool(b),
            _ => Value::Null,
        },
        Category::Json => match p {
            Payload::Json(v) => v,
            _ => Value::default(),
        },
        Category::Blob => match p {
            Payload::Bytes(b) => Value::Bytes(b),
            _ => Value::Null,
        },
        Category::Null => Value::Null,
    }
}

/// Coerces one embedded-engine column: a driver-reported null short-circuits
/// to `Null`; a known type name coerces its payload by the category rule; an
/// unknown type name fails with `UnsupportedDatatype` carrying that name.
pub fn to_json(ty_name: &str, is_null: bool, payload: Payload) -> (r: Result<Value, Error>)
    ensures
        is_null ==> r == Ok::<Value, Error>(Value::Null),
        !is_null ==> (match sqlite_category(ty_name@) {
            Some(c) => r == Ok::<Value, Error>(coerce_category(c, payload)),
            None => r matches Err(e) && e matches Error::UnsupportedDatatype(n) && n@
                == ty_name@,
        }),
{
    if is_null {
        return Ok(Value::Null);
    }
    match classify_sqlite(ty_name) {
        Some(c) => Ok(coerce_known(c, payload)),
        None => Err(Error::UnsupportedDatatype(ty_name.to_owned())),
    }
}

/// Coerces one networked-engine column, by the same rule over the networked
/// backend's category sets (which add unsigned, timestamp and JSON
/// categories).
pub fn to_json_mysql(ty_name: &str, is_null: bool, payload: Payload) -> (r: Result<
    Value,
    Error,
>)
    ensures
        is_null ==> r == Ok::<Value, Error>(Value::Null),
        !is_null ==> (match mysql_category(ty_name@) {
            Some(c) => r == Ok::<Value, Error>(coerce_category(c, payload)),
            None => r matches Err(e) && e matches Error::UnsupportedDatatype(n) && n@
                == ty_name@,
        }),
{
    if is_null {
        return Ok(Value::Null);
    }
    match classify_mysql(ty_name) {
        Some(c) => Ok(coerce_known(c, payload)),
        None => Err(Error::UnsupportedDatatype(ty_name.to_owned())),
    }
}

/// The backend a column or row came from; coercion dispatches on this tag.
#[derive(Debug, Clone, Copy, PartialEq, Eq, Structural)]
pub enum Backend {
    Sqlite,
    Mysql,
}

/// The category sets of the given backend.
pub open spec fn category_of(b: Backend, name: Seq<char>) -> Option<Category> {
    match b {
        Backend::Sqlite => sqlite_category(name),
        Backend::Mysql => mysql_category(name),
    }
}

/// One column of a fetched row, as the driver reports it: column name,
/// column type name, null flag, and the decoded payload.
#[derive(Debug, PartialEq, Eq)]
pub struct RawColumn {
    pub name: String,
    pub ty_name: String,
    pub is_null: bool,
    pub payload: Payload,
}

/// One row of a result set: an ordered sequence of (column name, value)
/// pairs.  Column names are not guaranteed unique within a row; duplicates
/// are preserved positionally, never merged.
#[derive(Debug, PartialEq, Eq)]
pub struct Row {
    pub columns: Vec<(String, Value)>,
}

/// Whether one cell coerces without an error: a driver-reported null always
/// does, and otherwise the type name must be in the backend's known set.
pub open spec fn cell_ok(b: Backend, c: RawColumn) -> bool {
    c.is_null || category_of(b, c.ty_name@) is Some
}

/// The value one cell coerces to.
pub open spec fn cell_value(b: Backend, c: RawColumn) -> Value
    recommends
        cell_ok(b, c),
{
    if c.is_null {
        Value::Null
    } else {
        coerce_category(category_of(b, c.ty_name@).unwrap(), c.payload)
    }
}

/// The (column name, value) pairs a whole row coerces to.
pub open spec fn row_values(b: Backend, cells: Seq<RawColumn>) -> Seq<(String, Value)> {
    cells.map_values(|c: RawColumn| (c.name, cell_value(b, c)))
}

/// Coerces every cell of one fetched row, in order.  Fails with the first
/// cell whose type name is outside the backend's known set; a cell whose
/// bytes merely failed to decode degrades to `Null` instead.
pub fn collect_row(b: Backend, cells: Vec<RawColumn>) -> (r: Result<Row, Error>)
    ensures
        r matches Ok(row) ==> row.columns@ == row_values(b, cells@),
        r is Ok <==> (forall|j: int| 0 <= j < cells@.len() ==> cell_ok(b, #[trigger] cells@[j])),
        r matches Err(e) ==> (e matches Error::UnsupportedDatatype(n) && exists|j: int|
            0 <= j < cells@.len() && !cell_ok(b, #[trigger] cells@[j]) && n@ == cells@[j].ty_name@),
{
    let ghost orig: Seq<RawColumn> = cells@;
    let mut rest = cells;
    let mut out: Vec<(String, Value)> = Vec::new();
    while rest.len() > 0
        invariant
            orig == cells@,
            out@.len() + rest@.len() == orig.len(),
            rest@ == orig.subrange(out@.len() as int, orig.len() as int),
            forall|j: int| 0 <= j < out@.len() ==> cell_ok(b, #[trigger] orig[j]),
            forall|j: int| 0 <= j < out@.len() ==> #[trigger] out@[j] == (
                orig[j].name,
                cell_value(b, orig[j]),
            ),
        decreases rest@.len(),
    {
        let ghost k: int = out@.len() as int;
        let c = rest.remove(0);
        proof {
            assert(c == orig[k]);
            assert(rest@ =~= orig.subrange(k + 1, orig.len() as int));
        }
        let coerced = match b {
            Backend::Sqlite => to_json(c.ty_name.as_str(), c.is_null, c.payload),
            Backend::Mysql => to_json_mysql(c.ty_name.as_str(), c.is_null, c.payload),
        };
        match coerced {
            Ok(v) => out.push((c.name, v)),
            Err(e) => {
                proof {
                    assert(0 <= k < orig.len() && !cell_ok(b, orig[k]));
                    assert(e matches Error::UnsupportedDatatype(n) && n@ == orig[k].ty_name@);
                }
                return Err(e);
            },
        }
    }
    proof {
        assert(out@ =~= row_values(b, orig));
    }
    Ok(Row { columns: out })
}

/// A driver-reported null short-circuits to `Null`, whatever the type name
/// and whatever the payload, on either backend.
pub proof fn lemma_null_short_circuit(b: Backend, c: RawColumn)
    requires
        c.is_null,
    ensures
        cell_value(b, c) == Value::Null,
{
}

/// For a known category and a successfully decoded payload of that
/// category's shape, coercion returns a value of the expected tag, carrying
/// the decoded content unchanged.
pub proof fn lemma_expected_tag(c: Category, p: Payload)
    ensures
        p matches Payload::Text(s) ==> ((c == Category::Text || c == Category::Date || c
            == Category::Time || c == Category::DateTime || c == Category::Timestamp)
            ==> coerce_category(c, p) == Value::Text(s)),
        p matches Payload::Real(x) ==> (c == Category::Real ==> coerce_category(c, p)
            == Value::Float(x)),
        p matches Payload::Int(i) ==> (c == Category::Int ==> coerce_category(c, p)
            == Value::Int(i)),
        p matches Payload::Uint(u) ==> (c == Category::Uint ==> coerce_category(c, p)
            == Value::Uint(u)),
        p matches Payload::Bool(x) ==> (c == Category::Boolean ==> coerce_category(c, p)
            == Value::Bool(x)),
        p matches Payload::Json(v) ==> (c == Category::Json ==> coerce_category(c, p) == v),
        p matches Payload::Bytes(x) ==> (c == Category::Blob ==> coerce_category(c, p)
            == Value::Bytes(x)),
        c == Category::Null ==> coerce_category(c, p) == Value::Null,
{
}

/// A known category whose bytes did not decode degrades silently to `Null`,
/// never to an error.  The JSON category alone degrades through the empty
/// structured value, `Value::default()` — which its contract pins to
/// `Null`, so the two fallbacks coincide in the model.
pub proof fn lemma_undecodable_degrades(c: Category)
    ensures
        coerce_category(c, Payload::Undecodable) == Value::Null,
{
}

/// Whether every cell of a row coerces without an error.
pub open spec fn row_ok(b: Backend, cells: Seq<RawColumn>) -> bool {
    forall|j: int| 0 <= j < cells.len() ==> cell_ok(b, #[trigger] cells[j])
}

/// Coerces every row of a fetched result set, in backend-reported order (no
/// re-ordering).  Fails with `UnsupportedDatatype` exactly when some cell's
/// type name is outside the backend's known set.
pub fn collect_rows(b: Backend, rows: Vec<Vec<RawColumn>>) -> (r: Result<Vec<Row>, Error>)
    ensures
        r matches Ok(out) ==> out@.len() == rows@.len() && (forall|i: int|
            0 <= i < rows@.len() ==> (#[trigger] out@[i]).columns@ == row_values(
                b,
                rows@[i]@,
            )),
        r is Ok <==> (forall|i: int| 0 <= i < rows@.len() ==> row_ok(b, (#[trigger] rows@[i])@)),
        r matches Err(e) ==> (e matches Error::UnsupportedDatatype(n) && exists|i: int, j: int|
            0 <= i < rows@.len() && 0 <= j < rows@[i]@.len() && !cell_ok(
                b,
                #[trigger] rows@[i]@[j],
            ) && n@ == rows@[i]@[j].ty_name@),
{
    let ghost orig: Seq<Vec<RawColumn>> = rows@;
    let mut rest = rows;
    let mut out: Vec<Row> = Vec::new();
    while rest.len() > 0
        invariant
            orig == rows@,
            out@.len() + rest@.len() == orig.len(),
            rest@ == orig.subrange(out@.len() as int, orig.len() as int),
            forall|i: int| 0 <= i < out@.len() ==> row_ok(b, (#[trigger] orig[i])@),
            forall|i: int| 0 <= i < out@.len() ==> (#[trigger] out@[i]).columns@ == row_values(
                b,
                orig[i]@,
            ),
        decreases rest@.len(),
    {
        let ghost k: int = out@.len() as int;
        let cells = rest.remove(0);
        proof {
            assert(cells == orig[k]);
            assert(rest@ =~= orig.subrange(k + 1, orig.len() as int));
        }
        match collect_row(b, cells) {
            Ok(row) => out.push(row),
            Err(e) => {
                proof {
                    assert(0 <= k < orig.len() && !row_ok(b, orig[k]@));
                    let j = choose|j: int| 0 <= j < orig[k]@.len() && !cell_ok(
                        b,
                        #[trigger] orig[k]@[j],
                    );
                    assert(!cell_ok(b, rows@[k]@[j]));
                }
                return Err(e);
            },
        }
    }
    Ok(out)
}

} // verus!
