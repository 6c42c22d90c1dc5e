//! The column decoder: maps a result column's reported native type name to
//! a decode path, and shapes the fetched primitive into an outbound JSON
//! value.
//!
//! The engine owns the dispatch table and the shaping; the surrounding
//! process performs the driver's typed fetch that the chosen path calls
//! for and hands the primitive back.  A SQL NULL at any column becomes
//! JSON null on every path, without error; temporal columns are formatted
//! here, digit by digit, from their broken-down fields.

use vstd::prelude::*;

use crate::json::JsonOut;

verus! {

// ---------------------------------------------------------------------
// Decimal digits and zero-padded fields
// ---------------------------------------------------------------------

/// The decimal digit character for `d`.
pub open spec fn dec_digit(d: int) -> char
    recommends
        0 <= d < 10,
{
    if d == 0 {
        '0'
    } else if d == 1 {
        '1'
    } else if d == 2 {
        '2'
    } else if d == 3 {
        '3'
    } else if d == 4 {
        '4'
    } else if d == 5 {
        '5'
    } else if d == 6 {
        '6'
    } else if d == 7 {
        '7'
    } else if d == 8 {
        '8'
    } else {
        '9'
    }
}

/// `v` written as exactly two decimal digits, zero-padded.
pub open spec fn pad2(v: int) -> Seq<char>
    recommends
        0 <= v < 100,
{
    seq![dec_digit(v / 10), dec_digit(v % 10)]
}

/// `v` written as exactly four decimal digits, zero-padded.
pub open spec fn pad4(v: int) -> Seq<char>
    recommends
        0 <= v < 10000,
{
    seq![dec_digit(v / 1000), dec_digit((v / 100) % 10), dec_digit((v / 10) % 10), dec_digit(v % 10)]
}

/// The ISO text of a calendar date: `YYYY-MM-DD`.
pub open spec fn date_text(y: int, mo: int, d: int) -> Seq<char> {
    pad4(y) + seq!['-'] + pad2(mo) + seq!['-'] + pad2(d)
}

/// The text of a time of day: `HH:MM:SS`.
pub open spec fn time_text(h: int, mi: int, s: int) -> Seq<char> {
    pad2(h) + seq![':'] + pad2(mi) + seq![':'] + pad2(s)
}

/// The text of a UTC timestamp: `YYYY-MM-DD HH:MM:SS`.
pub open spec fn datetime_text(y: int, mo: int, d: int, h: int, mi: int, s: int) -> Seq<char> {
    date_text(y, mo, d) + seq![' '] + time_text(h, mi, s)
}

/// The one-character string for decimal digit `d`.
fn digit_str(d: u32) -> (r: &'static str)
    requires
        d < 10,
    ensures
        r@ =~= seq![dec_digit(d as int)],
{
    proof {
        reveal_strlit("0");
        reveal_strlit("1");
        reveal_strlit("2");
        reveal_strlit("3");
        reveal_strlit("4");
        reveal_strlit("5");
        reveal_strlit("6");
        reveal_strlit("7");
        reveal_strlit("8");
        reveal_strlit("9");
    }
    if d == 0 {
        "0"
    } else if d == 1 {
        "1"
    } else if d == 2 {
        "2"
    } else if d == 3 {
        "3"
    } else if d == 4 {
        "4"
    } else if d == 5 {
        "5"
    } else if d == 6 {
        "6"
    } else if d == 7 {
        "7"
    } else if d == 8 {
        "8"
    } else {
        "9"
    }
}

/// Appends `v` to `out` as two zero-padded decimal digits.
fn push_pad2(out: &mut String, v: u32)
    requires
        v < 100,
    ensures
        final(out)@ == old(out)@ + pad2(v as int),
{
    out.append(digit_str(v / 10));
    out.append(digit_str(v % 10));
    proof {
        assert(final(out)@ =~= old(out)@ + pad2(v as int));
    }
}

/// Appends `v` to `out` as four zero-padded decimal digits.
fn push_pad4(out: &mut String, v: u32)
    requires
        v < 10000,
    ensures
        final(out)@ == old(out)@ + pad4(v as int),
{
    out.append(digit_str(v / 1000));
    out.append(digit_str((v / 100) % 10));
    out.append(digit_str((v / 10) % 10));
    out.append(digit_str(v % 10));
    proof {
        assert(final(out)@ =~= old(out)@ + pad4(v as int));
    }
}

/// Formats a calendar date as `YYYY-MM-DD`.
pub fn format_date(y: u32, mo: u32, d: u32) -> (r: String)
    requires
        y < 10000,
        1 <= mo <= 12,
        1 <= d <= 31,
    ensures
        r@ == date_text(y as int, mo as int, d as int),
{
    proof {
        reveal_strlit("-");
    }
    let mut out = String::new();
    push_pad4(&mut out, y);
    out.append("-");
    push_pad2(&mut out, mo);
    out.append("-");
    push_pad2(&mut out, d);
    proof {
        assert(out@ =~= date_text(y as int, mo as int, d as int));
    }
    out
}

/// Formats a time of day as `HH:MM:SS`.
pub fn format_time(h: u32, mi: u32, s: u32) -> (r: String)
    requires
        h <= 23,
        mi <= 59,
        s <= 59,
    ensures
        r@ == time_text(h as int, mi as int, s as int),
{
    proof {
        reveal_strlit(":");
    }
    let mut out = String::new();
    push_pad2(&mut out, h);
    out.append(":");
    push_pad2(&mut out, mi);
    out.append(":");
    push_pad2(&mut out, s);
    proof {
        assert(out@ =~= time_text(h as int, mi as int, s as int));
    }
    out
}

/// Formats a UTC timestamp as `YYYY-MM-DD HH:MM:SS`.
pub fn format_datetime(y: u32, mo: u32, d: u32, h: u32, mi: u32, s: u32) -> (r: String)
    requires
        y < 10000,
        1 <= mo <= 12,
        1 <= d <= 31,
        h <= 23,
        mi <= 59,
        s <= 59,
    ensures
        r@ == datetime_text(y as int, mo as int, d as int, h as int, mi as int, s as int),
{
    proof {
        reveal_strlit(" ");
    }
    let mut out = format_date(y, mo, d);
    out.append(" ");
    push_pad2(&mut out, h);
    proof {
        reveal_strlit(":");
    }
    out.append(":");
    push_pad2(&mut out, mi);
    out.append(":");
    push_pad2(&mut out, s);
    proof {
        assert(out@ =~= datetime_text(y as int, mo as int, d as int, h as int, mi as int, s as int));
    }
    out
}

// ---------------------------------------------------------------------
// The dispatch table: native type name -> decode path
// ---------------------------------------------------------------------

/// The decode path selected for a column, by its reported native type.
#[derive(Clone, Copy, PartialEq, Eq, Structural, Debug)]
pub enum DecodeKind {
    F32,
    F64,
    I64,
    U64,
    I32,
    U32,
    I16,
    U16,
    I8,
    U8,
    Bool,
    Date,
    Time,
    DateTime,
    Json,
    Text,
}

/// The dispatch table, over the native type name as the wire protocol
/// reports it.  Any name outside the table decodes as text.
pub open spec fn kind_of_name(n: Seq<char>) -> DecodeKind {
    if n == "FLOAT"@ || n == "FLOAT4"@ || n == "FLOAT8"@ {
        DecodeKind::F32
    } else if n == "REAL"@ || n == "NUMERIC"@ || n == "DECIMAL"@ || n == "DOUBLE"@ {
        DecodeKind::F64
    } else if n == "INT8"@ || n == "BIGINT"@ || n == "INTEGER"@ {
        DecodeKind::I64
    } else if n == "INT8 UNSIGNED"@ || n == "BIGINT UNSIGNED"@ || n == "INTEGER UNSIGNED"@ {
        DecodeKind::U64
    } else if n == "INT"@ || n == "INT4"@ {
        DecodeKind::I32
    } else if n == "INT UNSIGNED"@ || n == "INT4 UNSIGNED"@ {
        DecodeKind::U32
    } else if n == "INT2"@ || n == "SMALLINT"@ {
        DecodeKind::I16
    } else if n == "INT2 UNSIGNED"@ || n == "SMALLINT UNSIGNED"@ {
        DecodeKind::U16
    } else if n == "INT1"@ || n == "TINYINT"@ {
        DecodeKind::I8
    } else if n == "INT1 UNSIGNED"@ || n == "TINYINT UNSIGNED"@ {
        DecodeKind::U8
    } else if n == "BOOL"@ || n == "BOOLEAN"@ {
        DecodeKind::Bool
    } else if n == "DATE"@ {
        DecodeKind::Date
    } else if n == "TIME"@ {
        DecodeKind::Time
    } else if n == "DATETIME"@ || n == "DATETIME2"@ || n == "DATETIMEOFFSET"@ || n == "TIMESTAMP"@
        || n == "TIMESTAMPTZ"@ {
        DecodeKind::DateTime
    } else if n == "JSON"@ || n == "JSON[]"@ || n == "JSONB"@ || n == "JSONB[]"@ {
        DecodeKind::Json
    } else {
        DecodeKind::Text
    }
}

/// String equality by content.
pub(crate) fn str_eq(a: &str, b: &str) -> (r: bool)
    ensures
        r == (a@ == b@),
{
    let sa: String = a.to_owned();
    let sb: String = b.to_owned();
    sa == sb
}

/// Selects the decode path for a reported native type name.
pub fn kind_of(native_type: &str) -> (k: DecodeKind)
    ensures
        k == kind_of_name(native_type@),
{
    let n = native_type;
    if str_eq(n, "FLOAT") || str_eq(n, "FLOAT4") || str_eq(n, "FLOAT8") {
        DecodeKind::F32
    } else if str_eq(n, "REAL") || str_eq(n, "NUMERIC") || str_eq(n, "DECIMAL") || str_eq(
        n,
        "DOUBLE",
    ) {
        DecodeKind::F64
    } else if str_eq(n, "INT8") || str_eq(n, "BIGINT") || str_eq(n, "INTEGER") {
        DecodeKind::I64
    } else if str_eq(n, "INT8 UNSIGNED") || str_eq(n, "BIGINT UNSIGNED") || str_eq(
        n,
        "INTEGER UNSIGNED",
    ) {
        DecodeKind::U64
    } else if str_eq(n, "INT") || str_eq(n, "INT4") {
        DecodeKind::I32
    } else if str_eq(n, "INT UNSIGNED") || str_eq(n, "INT4 UNSIGNED") {
        DecodeKind::U32
    } else if str_eq(n, "INT2") || str_eq(n, "SMALLINT") {
        DecodeKind::I16
    } else if str_eq(n, "INT2 UNSIGNED") || str_eq(n, "SMALLINT UNSIGNED") {
        DecodeKind::U16
    } else if str_eq(n, "INT1") || str_eq(n, "TINYINT") {
        DecodeKind::I8
    } else if str_eq(n, "INT1 UNSIGNED") || str_eq(n, "TINYINT UNSIGNED") {
        DecodeKind::U8
    } else if str_eq(n, "BOOL") || str_eq(n, "BOOLEAN") {
        DecodeKind::Bool
    } else if str_eq(n, "DATE") {
        DecodeKind::Date
    } else if str_eq(n, "TIME") {
        DecodeKind::Time
    } else if str_eq(n, "DATETIME") || str_eq(n, "DATETIME2") || str_eq(n, "DATETIMEOFFSET")
        || str_eq(n, "TIMESTAMP") || str_eq(n, "TIMESTAMPTZ") {
        DecodeKind::DateTime
    } else if str_eq(n, "JSON") || str_eq(n, "JSON[]") || str_eq(n, "JSONB") || str_eq(
        n,
        "JSONB[]",
    ) {
        DecodeKind::Json
    } else {
        DecodeKind::Text
    }
}

// ---------------------------------------------------------------------
// Shaping a fetched column into an outbound JSON value
// ---------------------------------------------------------------------

/// The primitive the surrounding process fetched for a column, widened
/// losslessly where the wire type is narrower.  Temporal values arrive as
/// broken-down UTC fields; float values arrive as bit patterns.
#[derive(Debug)]
pub enum RawValue {
    I(i64),
    U(u64),
    B(bool),
    S(String),
    F32Bits(u32),
    F64Bits(u64),
    Date { y: u32, mo: u32, d: u32 },
    Time { h: u32, mi: u32, s: u32 },
    DateTime { y: u32, mo: u32, d: u32, h: u32, mi: u32, s: u32 },
    Json(String),
}

/// One column of a fetched result row: its name, the reported native type
/// name, whether the value was SQL NULL, and — when not NULL — what the
/// typed fetch on the selected decode path produced.
#[derive(Debug)]
pub struct ColumnFetch {
    pub name: String,
    pub native_type: String,
    pub is_null: bool,
    pub fetched: Option<Result<RawValue, String>>,
}

/// One decoded column of an outbound row object.
#[derive(Debug)]
pub struct ColumnOut {
    pub name: String,
    pub value: JsonOut,
}

/// Whether the fetched primitive has the form and field ranges the decode
/// path calls for.
pub open spec fn raw_fits_kind(k: DecodeKind, raw: RawValue) -> bool {
    match k {
        DecodeKind::F32 => raw is F32Bits,
        DecodeKind::F64 => raw is F64Bits,
        DecodeKind::I64 => raw is I,
        DecodeKind::I32 => raw is I,
        DecodeKind::I16 => raw is I,
        DecodeKind::I8 => raw is I,
        DecodeKind::U64 => raw is U,
        DecodeKind::U32 => raw is U,
        DecodeKind::U16 => raw is U,
        DecodeKind::U8 => raw is U,
        DecodeKind::Bool => raw is B,
        DecodeKind::Date => raw matches RawValue::Date { y, mo, d } && y < 10000 && 1 <= mo <= 12
            && 1 <= d <= 31,
        DecodeKind::Time => raw matches RawValue::Time { h, mi, s } && h <= 23 && mi <= 59 && s
            <= 59,
        DecodeKind::DateTime => raw matches RawValue::DateTime { y, mo, d, h, mi, s } && y < 10000
            && 1 <= mo <= 12 && 1 <= d <= 31 && h <= 23 && mi <= 59 && s <= 59,
        DecodeKind::Json => raw is Json,
        DecodeKind::Text => raw is S,
    }
}

/// How a fitting primitive appears in the outbound row: integers and
/// booleans as themselves, floats as their carried bit patterns, temporal
/// values as their formatted text, JSON verbatim, text as text.
pub open spec fn value_shapes(k: DecodeKind, raw: RawValue, out: JsonOut) -> bool {
    match raw {
        RawValue::I(v) => out == JsonOut::I(v),
        RawValue::U(v) => out == JsonOut::U(v),
        RawValue::B(v) => out == JsonOut::Bool(v),
        RawValue::S(v) => out == JsonOut::Str(v),
        RawValue::F32Bits(b) => out == JsonOut::F32Bits(b),
        RawValue::F64Bits(b) => out == JsonOut::F64Bits(b),
        RawValue::Date { y, mo, d } => out matches JsonOut::Str(t) && t@ == date_text(
            y as int,
            mo as int,
            d as int,
        ),
        RawValue::Time { h, mi, s } => out matches JsonOut::Str(t) && t@ == time_text(
            h as int,
            mi as int,
            s as int,
        ),
        RawValue::DateTime { y, mo, d, h, mi, s } => out matches JsonOut::Str(t) && t@
            == datetime_text(y as int, mo as int, d as int, h as int, mi as int, s as int),
        RawValue::Json(v) => out == JsonOut::JsonText(v),
    }
}

/// A fetched column decodes without error exactly when it is NULL, or its
/// fetch succeeded with a primitive fitting the selected decode path.
pub open spec fn column_shape_ok(c: ColumnFetch) -> bool {
    c.is_null || (c.fetched matches Some(Ok(raw)) && raw_fits_kind(
        kind_of_name(c.native_type@),
        raw,
    ))
}

/// The decoded value of a column that shapes without error: JSON null when
/// the column is NULL — on every decode path — and the shaped primitive
/// otherwise.
pub open spec fn column_shaped(c: ColumnFetch, out: JsonOut) -> bool {
    if c.is_null {
        out is Null
    } else {
        c.fetched matches Some(Ok(raw)) && value_shapes(kind_of_name(c.native_type@), raw, out)
    }
}

/// Decodes one fetched column.  A NULL column becomes JSON null on every
/// decode path, without error; a failed fetch propagates its message; a
/// primitive of the wrong form for the path is a decode failure.
pub fn shape_column(c: &ColumnFetch) -> (r: Result<ColumnOut, String>)
    ensures
        r is Ok <==> column_shape_ok(*c),
        r matches Ok(o) ==> o.name == c.name && column_shaped(*c, o.value),
        c.fetched matches Some(Err(m)) ==> !c.is_null ==> (r matches Err(e) && e@ == m@),
{
    if c.is_null {
        return Ok(ColumnOut { name: c.name.clone(), value: JsonOut::Null });
    }
    let kind = kind_of(c.native_type.as_str());
    match &c.fetched {
        Option::None => Err(String::from_str("column value was not fetched")),
        Option::Some(Err(m)) => Err(m.clone()),
        Option::Some(Ok(raw)) => {
            let value: JsonOut = match kind {
                DecodeKind::F32 => match raw {
                    RawValue::F32Bits(b) => JsonOut::F32Bits(*b),
                    _ => {
                        return Err(mismatch_message());
                    },
                },
                DecodeKind::F64 => match raw {
                    RawValue::F64Bits(b) => JsonOut::F64Bits(*b),
                    _ => {
                        return Err(mismatch_message());
                    },
                },
                DecodeKind::I64 | DecodeKind::I32 | DecodeKind::I16 | DecodeKind::I8 => match raw {
                    RawValue::I(v) => JsonOut::I(*v),
                    _ => {
                        return Err(mismatch_message());
                    },
                },
                DecodeKind::U64 | DecodeKind::U32 | DecodeKind::U16 | DecodeKind::U8 => match raw {
                    RawValue::U(v) => JsonOut::U(*v),
                    _ => {
                        return Err(mismatch_message());
                    },
                },
                DecodeKind::Bool => match raw {
                    RawValue::B(v) => JsonOut::Bool(*v),
                    _ => {
                        return Err(mismatch_message());
                    },
                },
                DecodeKind::Date => match raw {
                    RawValue::Date { y, mo, d } => {
                        if *y < 10000 && 1 <= *mo && *mo <= 12 && 1 <= *d && *d <= 31 {
                            JsonOut::Str(format_date(*y, *mo, *d))
                        } else {
                            return Err(mismatch_message());
                        }
                    },
                    _ => {
                        return Err(mismatch_message());
                    },
                },
                DecodeKind::Time => match raw {
                    RawValue::Time { h, mi, s } => {
                        if *h <= 23 && *mi <= 59 && *s <= 59 {
                            JsonOut::Str(format_time(*h, *mi, *s))
                        } else {
                            return Err(mismatch_message());
                        }
                    },
                    _ => {
                        return Err(mismatch_message());
                    },
                },
                DecodeKind::DateTime => match raw {
                    RawValue::DateTime { y, mo, d, h, mi, s } => {
                        if *y < 10000 && 1 <= *mo && *mo <= 12 && 1 <= *d && *d <= 31 && *h <= 23
                            && *mi <= 59 && *s <= 59 {
                            JsonOut::Str(format_datetime(*y, *mo, *d, *h, *mi, *s))
                        } else {
                            return Err(mismatch_message());
                        }
                    },
                    _ => {
                        return Err(mismatch_message());
                    },
                },
                DecodeKind::Json => match raw {
                    RawValue::Json(v) => JsonOut::JsonText(v.clone()),
                    _ => {
                        return Err(mismatch_message());
                    },
                },
                DecodeKind::Text => match raw {
                    RawValue::S(v) => JsonOut::Str(v.clone()),
                    _ => {
                        return Err(mismatch_message());
                    },
                },
            };
            Ok(ColumnOut { name: c.name.clone(), value })
        },
    }
}

/// The decode failure reported when the fetched primitive does not fit the
/// decode path the type name selects.
fn mismatch_message() -> String {
    String::from_str("fetched value does not fit the column's decode path")
}

/// Every column of the row decodes without error.
pub open spec fn row_shape_ok(cols: Seq<ColumnFetch>) -> bool {
    forall|i: int| 0 <= i < cols.len() ==> column_shape_ok(#[trigger] cols[i])
}

/// The decoded row object: one decoded column per fetched column, in
/// column order, each keeping its column name.
pub open spec fn row_shaped(cols: Seq<ColumnFetch>, out: Seq<ColumnOut>) -> bool {
    out.len() == cols.len() && forall|i: int|
        0 <= i < cols.len() ==> (#[trigger] out[i]).name == cols[i].name && column_shaped(
            cols[i],
            out[i].value,
        )
}

/// Decodes one result row, column by column, stopping at the first decode
/// failure.
pub fn shape_row(cols: &Vec<ColumnFetch>) -> (r: Result<Vec<ColumnOut>, String>)
    ensures
        r is Ok <==> row_shape_ok(cols@),
        r matches Ok(o) ==> row_shaped(cols@, o@),
{
    let mut out: Vec<ColumnOut> = Vec::new();
    let mut i: usize = 0;
    while i < cols.len()
        invariant
            0 <= i <= cols.len(),
            out@.len() == i,
            forall|j: int| 0 <= j < i ==> column_shape_ok(#[trigger] cols@[j]),
            forall|j: int|
                0 <= j < i ==> (#[trigger] out@[j]).name == cols@[j].name && column_shaped(
                    cols@[j],
                    out@[j].value,
                ),
        decreases cols.len() - i,
    {
        match shape_column(&cols[i]) {
            Ok(o) => {
                out.push(o);
            },
            Err(e) => {
                return Err(e);
            },
        }
        i += 1;
    }
    Ok(out)
}

/// Every row of the result decodes without error.
pub open spec fn rows_shape_ok(rows: Seq<Vec<ColumnFetch>>) -> bool {
    forall|i: int| 0 <= i < rows.len() ==> row_shape_ok((#[trigger] rows[i])@)
}

/// The decoded result set: one row object per fetched row, in row order.
pub open spec fn rows_shaped(rows: Seq<Vec<ColumnFetch>>, out: Seq<Vec<ColumnOut>>) -> bool {
    out.len() == rows.len() && forall|i: int|
        0 <= i < rows.len() ==> row_shaped((#[trigger] rows[i])@, (#[trigger] out[i])@)
}

/// Decodes a whole fetched result set, row by row, stopping at the first
/// decode failure.
pub fn shape_rows(rows: &Vec<Vec<ColumnFetch>>) -> (r: Result<Vec<Vec<ColumnOut>>, String>)
    ensures
        r is Ok <==> rows_shape_ok(rows@),
        r matches Ok(o) ==> rows_shaped(rows@, o@),
{
    let mut out: Vec<Vec<ColumnOut>> = Vec::new();
    let mut i: usize = 0;
    while i < rows.len()
        invariant
            0 <= i <= rows.len(),
            out@.len() == i,
            forall|j: int| 0 <= j < i ==> row_shape_ok((#[trigger] rows@[j])@),
            forall|j: int| 0 <= j < i ==> row_shaped((#[trigger] rows@[j])@, (#[trigger] out@[j])@),
        decreases rows.len() - i,
    {
        match shape_row(&rows[i]) {
            Ok(o) => {
                out.push(o);
            },
            Err(e) => {
                return Err(e);
            },
        }
        i += 1;
    }
    Ok(out)
}

} // verus!
