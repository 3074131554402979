use kraken_ws::{
    parse_message, BidAskData, DecodeError, FieldLoc, JsonValue, TickerState, ValueMarker,
};

const VALID_TICKER_RESPONSE: &'static str = r#"[
  0,
  {
    "a": ["5525.40000", 1,  "1.000"],
    "b": ["5525.10000", 1,  "1.000"],
    "c": ["5525.10000", "0.00398963"],
    "h": ["5783.00000", "5783.00000"],
    "l": ["5505.00000", "5505.00000"],
    "o": ["5760.70000", "5763.40000"],
    "p": ["5631.44067", "5653.78939"],
    "t": [11493, 16267],
    "v": ["2634.11501494", "3591.17907851"]
  },
  "ticker",
  "XBT/USD"
]"#;

fn expected_ticker() -> TickerState {
    TickerState {
        channel_id: 0,
        pair: format!("XBT/USD"),
        ask: BidAskData {
            price: format!("5525.40000"),
            whole_lot_volume: 1,
            lot_volume: format!("1.000"),
        },
        bid: BidAskData {
            price: format!("5525.10000"),
            whole_lot_volume: 1,
            lot_volume: format!("1.000"),
        },
        close: ValueMarker {
            today: format!("5525.10000"),
            last_24h: format!("0.00398963"),
        },
        high_price: ValueMarker {
            today: format!("5783.00000"),
            last_24h: format!("5783.00000"),
        },
        low_price: ValueMarker {
            today: format!("5505.00000"),
            last_24h: format!("5505.00000"),
        },
        open_price: ValueMarker {
            today: format!("5760.70000"),
            last_24h: format!("5763.40000"),
        },
        volume_weighted_avg_price: ValueMarker {
            today: format!("5631.44067"),
            last_24h: format!("5653.78939"),
        },
        trade_count: ValueMarker {
            today: 11493,
            last_24h: 16267,
        },
        volume: ValueMarker {
            today: format!("2634.11501494"),
            last_24h: format!("3591.17907851"),
        },
    }
}

#[test]
fn ticker_external_success_deserialization() {
    let v = parse_message(VALID_TICKER_RESPONSE).unwrap();
    assert_eq!(expected_ticker(), TickerState::from_json(&v).unwrap());
}

#[test]
fn internal_success_deserialization() {
    let expected = JsonValue::Array(vec![
        JsonValue::UInt(0),
        JsonValue::Object(vec![
            (
                "a".to_string(),
                JsonValue::Array(vec![
                    JsonValue::Text("5525.40000".to_string()),
                    JsonValue::UInt(1),
                    JsonValue::Text("1.000".to_string()),
                ]),
            ),
            (
                "b".to_string(),
                JsonValue::Array(vec![
                    JsonValue::Text("5525.10000".to_string()),
                    JsonValue::UInt(1),
                    JsonValue::Text("1.000".to_string()),
                ]),
            ),
            (
                "c".to_string(),
                JsonValue::Array(vec![
                    JsonValue::Text("5525.10000".to_string()),
                    JsonValue::Text("0.00398963".to_string()),
                ]),
            ),
            (
                "h".to_string(),
                JsonValue::Array(vec![
                    JsonValue::Text("5783.00000".to_string()),
                    JsonValue::Text("5783.00000".to_string()),
                ]),
            ),
            (
                "l".to_string(),
                JsonValue::Array(vec![
                    JsonValue::Text("5505.00000".to_string()),
                    JsonValue::Text("5505.00000".to_string()),
                ]),
            ),
            (
                "o".to_string(),
                JsonValue::Array(vec![
                    JsonValue::Text("5760.70000".to_string()),
                    JsonValue::Text("5763.40000".to_string()),
                ]),
            ),
            (
                "p".to_string(),
                JsonValue::Array(vec![
                    JsonValue::Text("5631.44067".to_string()),
                    JsonValue::Text("5653.78939".to_string()),
                ]),
            ),
            (
                "t".to_string(),
                JsonValue::Array(vec![JsonValue::UInt(11493), JsonValue::UInt(16267)]),
            ),
            (
                "v".to_string(),
                JsonValue::Array(vec![
                    JsonValue::Text("2634.11501494".to_string()),
                    JsonValue::Text("3591.17907851".to_string()),
                ]),
            ),
        ]),
        JsonValue::Text("ticker".to_string()),
        JsonValue::Text("XBT/USD".to_string()),
    ]);
    assert_eq!(expected, parse_message(VALID_TICKER_RESPONSE).unwrap());
}

#[test]
fn ticker_round_trip() {
    let v = parse_message(VALID_TICKER_RESPONSE).unwrap();
    let rec = TickerState::from_json(&v).unwrap();
    let rec2 = TickerState::from_json(&rec.to_json()).unwrap();
    assert_eq!(rec, rec2);
}

#[test]
fn ticker_extra_key_ignored() {
    let text = r#"[0,{"a":["5525.40000",1,"1.000"],"b":["5525.10000",1,"1.000"],"c":["5525.10000","0.00398963"],"h":["5783.00000","5783.00000"],"l":["5505.00000","5505.00000"],"o":["5760.70000","5763.40000"],"p":["5631.44067","5653.78939"],"t":[11493,16267],"v":["2634.11501494","3591.17907851"],"x":{"deep":[null,true]}},"ticker","XBT/USD"]"#;
    let v = parse_message(text).unwrap();
    assert_eq!(expected_ticker(), TickerState::from_json(&v).unwrap());
}

#[test]
fn ticker_missing_key_fails() {
    let text = r#"[0,{"a":["5525.40000",1,"1.000"],"b":["5525.10000",1,"1.000"],"c":["5525.10000","0.00398963"],"h":["5783.00000","5783.00000"],"l":["5505.00000","5505.00000"],"o":["5760.70000","5763.40000"],"p":["5631.44067","5653.78939"],"t":[11493,16267]},"ticker","XBT/USD"]"#;
    let v = parse_message(text).unwrap();
    assert_eq!(
        Err(DecodeError::MissingField('v')),
        TickerState::from_json(&v)
    );
}

#[test]
fn ticker_error_variants() {
    // Too few slots in the outer array.
    assert_eq!(
        Err(DecodeError::ArityMismatch),
        TickerState::from_json(&JsonValue::Array(vec![
            JsonValue::UInt(1),
            JsonValue::UInt(2),
            JsonValue::UInt(3),
        ]))
    );
    // Not an array at all.
    assert_eq!(
        Err(DecodeError::UnrecognizedShape),
        TickerState::from_json(&JsonValue::Null)
    );
    let payload = |ask: JsonValue| {
        JsonValue::Object(vec![
            ("a".to_string(), ask),
            (
                "b".to_string(),
                JsonValue::Array(vec![
                    JsonValue::Text("2.0".to_string()),
                    JsonValue::UInt(1),
                    JsonValue::Text("3.0".to_string()),
                ]),
            ),
        ])
    };
    let wrap = |p: JsonValue| {
        JsonValue::Array(vec![
            JsonValue::UInt(7),
            p,
            JsonValue::Text("ticker".to_string()),
            JsonValue::Text("XBT/USD".to_string()),
        ])
    };
    // The channel id slot does not hold an unsigned integer.
    assert_eq!(
        Err(DecodeError::MissingChannelId),
        TickerState::from_json(&JsonValue::Array(vec![
            JsonValue::Text("0".to_string()),
            payload(JsonValue::Null),
            JsonValue::Text("ticker".to_string()),
            JsonValue::Text("XBT/USD".to_string()),
        ]))
    );
    // The payload slot is not an object.
    assert_eq!(
        Err(DecodeError::FieldTypeMismatch(FieldLoc::Index(1))),
        TickerState::from_json(&wrap(JsonValue::UInt(9)))
    );
    // A bid/ask triple in the wrong scalar order.
    assert_eq!(
        Err(DecodeError::BidAskShapeMismatch),
        TickerState::from_json(&wrap(payload(JsonValue::Array(vec![
            JsonValue::Text("1.0".to_string()),
            JsonValue::Text("2.0".to_string()),
            JsonValue::Text("3.0".to_string()),
        ]))))
    );
    // A scalar slot holding neither a number nor a string.
    assert_eq!(
        Err(DecodeError::UnexpectedScalarShape),
        TickerState::from_json(&wrap(payload(JsonValue::Array(vec![
            JsonValue::Bool(true),
            JsonValue::UInt(1),
            JsonValue::Text("3.0".to_string()),
        ]))))
    );
    // A bid/ask value with the wrong element count.
    assert_eq!(
        Err(DecodeError::ArityMismatch),
        TickerState::from_json(&wrap(payload(JsonValue::Array(vec![JsonValue::Text(
            "1.0".to_string()
        )]))))
    );
    // A bid/ask value that is not an array.
    assert_eq!(
        Err(DecodeError::FieldTypeMismatch(FieldLoc::Key('a'))),
        TickerState::from_json(&wrap(payload(JsonValue::Text("1.0".to_string()))))
    );
}

#[test]
fn ticker_missing_pair() {
    let v = parse_message(VALID_TICKER_RESPONSE).unwrap();
    let rec = TickerState::from_json(&v).unwrap();
    let enc = rec.to_json();
    if let JsonValue::Array(mut slots) = enc {
        slots[3] = JsonValue::UInt(0);
        assert_eq!(
            Err(DecodeError::MissingPair),
            TickerState::from_json(&JsonValue::Array(slots))
        );
    } else {
        panic!("encoded ticker is not an array");
    }
}

#[test]
fn ticker_dual_field_type_mismatch() {
    let v = parse_message(VALID_TICKER_RESPONSE).unwrap();
    let rec = TickerState::from_json(&v).unwrap();
    if let JsonValue::Array(mut slots) = rec.to_json() {
        // Replace the close pair with integers: the decimal pair decoder
        // must name the key.
        if let JsonValue::Object(ref mut entries) = slots[1] {
            entries[2].1 = JsonValue::Array(vec![JsonValue::UInt(1), JsonValue::UInt(2)]);
        } else {
            panic!("payload is not an object");
        }
        assert_eq!(
            Err(DecodeError::FieldTypeMismatch(FieldLoc::Key('c'))),
            TickerState::from_json(&JsonValue::Array(slots))
        );
    } else {
        panic!("encoded ticker is not an array");
    }
}
