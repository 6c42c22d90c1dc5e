use sqlxrg::bind::{bind_params, bind_scalar, BoundParam};
use sqlxrg::headers::validate_headers;
use sqlxrg::json::{JsonNum, JsonValue};
use sqlxrg::registry::PoolRegistry;
use sqlxrg::response::{error_status, overall_success, transaction_status, GatewayError};
use sqlxrg::txn::Outcome;

#[test]
fn scalars_bind_deterministically() {
    assert!(matches!(bind_scalar(&JsonValue::Null).unwrap(), BoundParam::Null));
    assert!(matches!(bind_scalar(&JsonValue::Bool(true)).unwrap(), BoundParam::Bool(true)));
    match bind_scalar(&JsonValue::Str("abcde".to_string())).unwrap() {
        BoundParam::Text(s) => assert_eq!(s.as_str(), "abcde"),
        _ => panic!("a string must bind as text"),
    }
    // integers keep signedness and width
    assert!(matches!(
        bind_scalar(&JsonValue::Num(JsonNum::I(100))).unwrap(),
        BoundParam::I64(100)
    ));
    assert!(matches!(
        bind_scalar(&JsonValue::Num(JsonNum::I(-1))).unwrap(),
        BoundParam::I64(-1)
    ));
    // a non-negative integer within the signed range binds signed
    assert!(matches!(
        bind_scalar(&JsonValue::Num(JsonNum::U(2147483648))).unwrap(),
        BoundParam::I64(2147483648)
    ));
    assert!(matches!(
        bind_scalar(&JsonValue::Num(JsonNum::U(9223372036854775807))).unwrap(),
        BoundParam::I64(9223372036854775807)
    ));
    // beyond it, unsigned
    assert!(matches!(
        bind_scalar(&JsonValue::Num(JsonNum::U(9223372036854775808))).unwrap(),
        BoundParam::U64(9223372036854775808)
    ));
    // a non-integral number binds as a double
    let bits = 1.5f64.to_bits();
    match bind_scalar(&JsonValue::Num(JsonNum::F(bits))).unwrap() {
        BoundParam::F64Bits(b) => assert_eq!(f64::from_bits(b), 1.5),
        _ => panic!("a non-integral number must bind as a double"),
    }
    // arrays and objects are rejected, never coerced
    assert!(bind_scalar(&JsonValue::Arr(vec![])).is_err());
    assert!(bind_scalar(&JsonValue::Obj).is_err());
}

#[test]
fn parameter_lists_bind_in_order_or_fail() {
    let vals = JsonValue::Arr(vec![
        JsonValue::Str("test".to_string()),
        JsonValue::Num(JsonNum::I(4)),
        JsonValue::Null,
    ]);
    let bound = bind_params(&Some(vals)).unwrap();
    assert_eq!(bound.len(), 3);
    assert!(matches!(bound[2], BoundParam::Null));

    assert_eq!(bind_params(&None).unwrap().len(), 0);
    assert_eq!(
        bind_params(&Some(JsonValue::Num(JsonNum::I(1)))).unwrap_err().as_str(),
        "Values must be array."
    );
    let nested = JsonValue::Arr(vec![JsonValue::Arr(vec![])]);
    assert!(bind_params(&Some(nested)).is_err());
}

/// Get-or-insert is atomic with respect to the key: the first access
/// installs it, every later access returns the same handle and changes
/// nothing, so exactly one pool is retained per connection string.
#[test]
fn registry_retains_one_pool_per_key() {
    let mut r = PoolRegistry::new();
    let (h1, fresh1) = r.get_or_insert("mysql://root:pw@db-one/app");
    assert!(fresh1);
    assert_eq!(h1, 0);

    let (h2, fresh2) = r.get_or_insert("mysql://root:pw@db-two/app");
    assert!(fresh2);
    assert_eq!(h2, 1);

    // simultaneous first-accesses serialize through get_or_insert: the
    // later ones find the installed key
    for _ in 0..3 {
        let (h, fresh) = r.get_or_insert("mysql://root:pw@db-one/app");
        assert!(!fresh);
        assert_eq!(h, h1);
    }
    assert_eq!(r.keys.len(), 2);
    assert_eq!(r.lookup("mysql://root:pw@db-one/app"), Some(0));
    assert_eq!(r.lookup("mysql://root:pw@db-two/app"), Some(1));
    assert_eq!(r.lookup("mysql://root:pw@db-three/app"), None);
}

#[test]
fn headers_gate_the_request() {
    // missing or wrong content type
    assert!(matches!(
        validate_headers(None, Some("mysql://root:pw@localhost:3306/rust_test")),
        Err(GatewayError::Validation(_))
    ));
    assert!(matches!(
        validate_headers(Some("text/plain"), Some("mysql://root:pw@localhost:3306/rust_test")),
        Err(GatewayError::Validation(_))
    ));
    // missing or unparsable connection string
    assert!(matches!(
        validate_headers(Some("application/json"), None),
        Err(GatewayError::Validation(_))
    ));
    assert!(matches!(
        validate_headers(Some("application/json"), Some("not a connection string")),
        Err(GatewayError::Validation(_))
    ));
    // a well-formed request passes, and the key comes back verbatim
    let key = validate_headers(
        Some("application/json"),
        Some("mysql://root:pw@localhost:3306/rust_test"),
    )
    .unwrap();
    assert_eq!(key.as_str(), "mysql://root:pw@localhost:3306/rust_test");
}

#[test]
fn response_status_follows_the_outcomes() {
    let ok = vec![
        Outcome::StatementOk { tag: None, rows_affected: 1, last_insert_id: 0 },
        Outcome::QueryOk { tag: Some("q".to_string()), rows: vec![] },
    ];
    assert!(overall_success(&ok));
    assert_eq!(transaction_status(&ok), 200);

    let failed = vec![
        Outcome::StatementOk { tag: None, rows_affected: 1, last_insert_id: 0 },
        Outcome::Failed { tag: None, message: "fail on purpose".to_string() },
    ];
    assert!(!overall_success(&failed));
    assert_eq!(transaction_status(&failed), 500);

    assert!(overall_success(&vec![]));
    assert_eq!(transaction_status(&vec![]), 200);
}

#[test]
fn error_kinds_carry_their_status() {
    assert_eq!(error_status(&GatewayError::Validation("bad".to_string())), 400);
    assert_eq!(error_status(&GatewayError::Connection("no".to_string())), 400);
    assert_eq!(error_status(&GatewayError::Contention("busy".to_string())), 500);
}
