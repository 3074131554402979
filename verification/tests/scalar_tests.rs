use kraken_ws::{
    normalize_scalar, BidAskData, DecodeError, FieldLoc, JsonValue, ScalarValue, ValueMarker,
};

#[test]
fn normalize_integer_and_decimal() {
    assert_eq!(
        Ok(ScalarValue::Integer(7)),
        normalize_scalar(&JsonValue::UInt(7))
    );
    assert_eq!(
        Ok(ScalarValue::Decimal("5525.40000".to_string())),
        normalize_scalar(&JsonValue::Text("5525.40000".to_string()))
    );
}

#[test]
fn normalize_rejects_other_shapes() {
    assert_eq!(
        Err(DecodeError::UnexpectedScalarShape),
        normalize_scalar(&JsonValue::Bool(false))
    );
    assert_eq!(
        Err(DecodeError::UnexpectedScalarShape),
        normalize_scalar(&JsonValue::Null)
    );
    assert_eq!(
        Err(DecodeError::UnexpectedScalarShape),
        normalize_scalar(&JsonValue::Array(vec![]))
    );
    assert_eq!(
        Err(DecodeError::UnexpectedScalarShape),
        normalize_scalar(&JsonValue::OtherNumber)
    );
}

#[test]
fn bidask_try_from_in_order() {
    let src = [
        ScalarValue::Decimal("5525.40000".to_string()),
        ScalarValue::Integer(1),
        ScalarValue::Decimal("1.000".to_string()),
    ];
    assert_eq!(
        Ok(BidAskData {
            price: "5525.40000".to_string(),
            whole_lot_volume: 1,
            lot_volume: "1.000".to_string(),
        }),
        BidAskData::try_from(&src)
    );
}

#[test]
fn bidask_try_from_rejects_wrong_order() {
    assert_eq!(
        Err(DecodeError::BidAskShapeMismatch),
        BidAskData::try_from(&[
            ScalarValue::Integer(1),
            ScalarValue::Integer(1),
            ScalarValue::Decimal("1.000".to_string()),
        ])
    );
    assert_eq!(
        Err(DecodeError::BidAskShapeMismatch),
        BidAskData::try_from(&[
            ScalarValue::Decimal("1.0".to_string()),
            ScalarValue::Decimal("2.0".to_string()),
            ScalarValue::Decimal("1.000".to_string()),
        ])
    );
    assert_eq!(
        Err(DecodeError::BidAskShapeMismatch),
        BidAskData::try_from(&[
            ScalarValue::Decimal("1.0".to_string()),
            ScalarValue::Integer(2),
            ScalarValue::Integer(3),
        ])
    );
}

#[test]
fn value_marker_from_slots() {
    assert_eq!(
        ValueMarker {
            today: "5525.10000".to_string(),
            last_24h: "0.00398963".to_string(),
        },
        ValueMarker::<String>::from(&["5525.10000".to_string(), "0.00398963".to_string()])
    );
    assert_eq!(
        ValueMarker {
            today: 11493u64,
            last_24h: 16267u64,
        },
        ValueMarker::<u64>::from(&[11493u64, 16267u64])
    );
}

#[test]
fn field_loc_distinguishes_index_and_key() {
    assert_ne!(FieldLoc::Index(2), FieldLoc::Key('c'));
    assert_eq!(FieldLoc::Key('c'), FieldLoc::Key('c'));
}
