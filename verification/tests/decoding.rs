use sqlxrg::decode::{
    format_date, format_datetime, format_time, kind_of, shape_column, shape_rows, ColumnFetch,
    DecodeKind, RawValue,
};
use sqlxrg::bind::{bind_scalar, BoundParam};
use sqlxrg::json::{JsonNum, JsonOut, JsonValue};

#[test]
fn dispatch_table_matches_native_type_names() {
    assert_eq!(kind_of("FLOAT"), DecodeKind::F32);
    assert_eq!(kind_of("FLOAT4"), DecodeKind::F32);
    assert_eq!(kind_of("FLOAT8"), DecodeKind::F32);
    assert_eq!(kind_of("REAL"), DecodeKind::F64);
    assert_eq!(kind_of("NUMERIC"), DecodeKind::F64);
    assert_eq!(kind_of("DECIMAL"), DecodeKind::F64);
    assert_eq!(kind_of("DOUBLE"), DecodeKind::F64);
    assert_eq!(kind_of("INT8"), DecodeKind::I64);
    assert_eq!(kind_of("BIGINT"), DecodeKind::I64);
    assert_eq!(kind_of("INTEGER"), DecodeKind::I64);
    assert_eq!(kind_of("BIGINT UNSIGNED"), DecodeKind::U64);
    assert_eq!(kind_of("INT"), DecodeKind::I32);
    assert_eq!(kind_of("INT4"), DecodeKind::I32);
    assert_eq!(kind_of("INT UNSIGNED"), DecodeKind::U32);
    assert_eq!(kind_of("INT2"), DecodeKind::I16);
    assert_eq!(kind_of("SMALLINT"), DecodeKind::I16);
    assert_eq!(kind_of("SMALLINT UNSIGNED"), DecodeKind::U16);
    assert_eq!(kind_of("INT1"), DecodeKind::I8);
    assert_eq!(kind_of("TINYINT"), DecodeKind::I8);
    assert_eq!(kind_of("TINYINT UNSIGNED"), DecodeKind::U8);
    assert_eq!(kind_of("BOOL"), DecodeKind::Bool);
    assert_eq!(kind_of("BOOLEAN"), DecodeKind::Bool);
    assert_eq!(kind_of("DATE"), DecodeKind::Date);
    assert_eq!(kind_of("TIME"), DecodeKind::Time);
    assert_eq!(kind_of("DATETIME"), DecodeKind::DateTime);
    assert_eq!(kind_of("TIMESTAMP"), DecodeKind::DateTime);
    assert_eq!(kind_of("JSON"), DecodeKind::Json);
    // anything else decodes as text
    assert_eq!(kind_of("VARCHAR"), DecodeKind::Text);
    assert_eq!(kind_of("TEXT"), DecodeKind::Text);
    assert_eq!(kind_of(""), DecodeKind::Text);
    // the table is case-sensitive, as the wire protocol reports names
    assert_eq!(kind_of("bigint"), DecodeKind::Text);
}

fn null_column(native_type: &str) -> ColumnFetch {
    ColumnFetch {
        name: "c".to_string(),
        native_type: native_type.to_string(),
        is_null: true,
        fetched: None,
    }
}

/// A NULL column of any supported native type decodes to JSON null,
/// never an error.
#[test]
fn null_decodes_to_null_on_every_path() {
    for t in [
        "FLOAT", "DOUBLE", "BIGINT", "BIGINT UNSIGNED", "INT", "SMALLINT", "TINYINT", "BOOL",
        "DATE", "TIME", "DATETIME", "JSON", "VARCHAR", "anything else",
    ] {
        let out = shape_column(&null_column(t)).unwrap();
        assert!(matches!(out.value, JsonOut::Null), "NULL {} must decode to null", t);
    }
}

/// An unsigned 64-bit value beyond the signed range survives the round
/// trip through an unsigned column identically.
#[test]
fn u64_beyond_signed_range_round_trips() {
    let v: u64 = 18446744073709551615;
    match bind_scalar(&JsonValue::Num(JsonNum::U(v))).unwrap() {
        BoundParam::U64(b) => assert_eq!(b, v),
        _ => panic!("a value beyond the signed range must bind unsigned"),
    }
    let c = ColumnFetch {
        name: "n".to_string(),
        native_type: "BIGINT UNSIGNED".to_string(),
        is_null: false,
        fetched: Some(Ok(RawValue::U(v))),
    };
    match shape_column(&c).unwrap().value {
        JsonOut::U(u) => assert_eq!(u, v),
        _ => panic!("an unsigned column must decode unsigned"),
    }
}

#[test]
fn temporal_columns_format_exactly() {
    assert_eq!(format_date(2008, 7, 4).as_str(), "2008-07-04");
    assert_eq!(format_time(14, 3, 15).as_str(), "14:03:15");
    assert_eq!(format_datetime(2023, 11, 29, 14, 3, 15).as_str(), "2023-11-29 14:03:15");
    assert_eq!(format_datetime(2023, 11, 30, 0, 3, 15).as_str(), "2023-11-30 00:03:15");

    let c = ColumnFetch {
        name: "ts".to_string(),
        native_type: "DATETIME".to_string(),
        is_null: false,
        fetched: Some(Ok(RawValue::DateTime { y: 2023, mo: 11, d: 30, h: 0, mi: 3, s: 15 })),
    };
    match shape_column(&c).unwrap().value {
        JsonOut::Str(s) => assert_eq!(s.as_str(), "2023-11-30 00:03:15"),
        _ => panic!("a datetime column must decode to its formatted text"),
    }
}

#[test]
fn shaping_keeps_names_and_values_in_order() {
    let row = vec![
        ColumnFetch {
            name: "_id".to_string(),
            native_type: "INT".to_string(),
            is_null: false,
            fetched: Some(Ok(RawValue::I(4))),
        },
        ColumnFetch {
            name: "_text".to_string(),
            native_type: "TEXT".to_string(),
            is_null: false,
            fetched: Some(Ok(RawValue::S("abcde".to_string()))),
        },
        ColumnFetch {
            name: "_flag".to_string(),
            native_type: "BOOLEAN".to_string(),
            is_null: false,
            fetched: Some(Ok(RawValue::B(true))),
        },
    ];
    let shaped = shape_rows(&vec![row]).unwrap();
    assert_eq!(shaped.len(), 1);
    assert_eq!(shaped[0].len(), 3);
    assert_eq!(shaped[0][0].name.as_str(), "_id");
    assert!(matches!(shaped[0][0].value, JsonOut::I(4)));
    assert_eq!(shaped[0][1].name.as_str(), "_text");
    match &shaped[0][1].value {
        JsonOut::Str(s) => assert_eq!(s.as_str(), "abcde"),
        _ => panic!("a text column must decode to text"),
    }
    assert!(matches!(shaped[0][2].value, JsonOut::Bool(true)));
}

/// A failed fetch propagates its message; a primitive that does not fit
/// the selected decode path is a decode failure.
#[test]
fn decode_failures_abort_the_row() {
    let bad = ColumnFetch {
        name: "x".to_string(),
        native_type: "BIGINT".to_string(),
        is_null: false,
        fetched: Some(Err("unexpected byte length".to_string())),
    };
    assert_eq!(shape_column(&bad).unwrap_err().as_str(), "unexpected byte length");

    let mismatched = ColumnFetch {
        name: "x".to_string(),
        native_type: "BIGINT".to_string(),
        is_null: false,
        fetched: Some(Ok(RawValue::B(true))),
    };
    assert!(shape_column(&mismatched).is_err());

    let out_of_range = ColumnFetch {
        name: "d".to_string(),
        native_type: "DATE".to_string(),
        is_null: false,
        fetched: Some(Ok(RawValue::Date { y: 2024, mo: 13, d: 1 })),
    };
    assert!(shape_column(&out_of_range).is_err());
}

/// Float columns keep their width through the carried bit patterns.
#[test]
fn float_columns_carry_bit_patterns() {
    let c32 = ColumnFetch {
        name: "f".to_string(),
        native_type: "FLOAT".to_string(),
        is_null: false,
        fetched: Some(Ok(RawValue::F32Bits(0x3f800000))),
    };
    match shape_column(&c32).unwrap().value {
        JsonOut::F32Bits(b) => assert_eq!(f32::from_bits(b), 1.0f32),
        _ => panic!("a float column must decode to a 32-bit pattern"),
    }
    let c64 = ColumnFetch {
        name: "d".to_string(),
        native_type: "DOUBLE".to_string(),
        is_null: false,
        fetched: Some(Ok(RawValue::F64Bits(2.5f64.to_bits()))),
    };
    match shape_column(&c64).unwrap().value {
        JsonOut::F64Bits(b) => assert_eq!(f64::from_bits(b), 2.5f64),
        _ => panic!("a double column must decode to a 64-bit pattern"),
    }
}
