use kraken_ws::{decode_message, parse_message, BidAskData, DecodeError, Ohlc, Resp, TickerState, ValueMarker};

#[test]
fn ticker_deserialization() {
    assert_eq!(
        Resp::Ticker(TickerState {
            channel_id: 0,
            pair: format!("XBT/USD"),
            ask: BidAskData {
                price: format!("5525.40000"),
                whole_lot_volume: 1,
                lot_volume: format!("1.000")
            },
            bid: BidAskData {
                price: format!("5525.10000"),
                whole_lot_volume: 1,
                lot_volume: format!("1.000")
            },
            close: ValueMarker {
                today: format!("5525.10000"),
                last_24h: format!("0.00398963")
            },
            high_price: ValueMarker {
                today: format!("5783.00000"),
                last_24h: format!("5783.00000")
            },
            low_price: ValueMarker {
                today: format!("5505.00000"),
                last_24h: format!("5505.00000")
            },
            open_price: ValueMarker {
                today: format!("5760.70000"),
                last_24h: format!("5763.40000")
            },
            volume_weighted_avg_price: ValueMarker {
                today: format!("5631.44067"),
                last_24h: format!("5653.78939")
            },
            trade_count: ValueMarker {
                today: 11493,
                last_24h: 16267
            },
            volume: ValueMarker {
                today: format!("2634.11501494"),
                last_24h: format!("3591.17907851")
            }
        }),
        decode_message(
            r#"[
          0,
          {
            "a": ["5525.40000", 1, "1.000"],
            "b": ["5525.10000", 1, "1.000"],
            "c": ["5525.10000", "0.00398963"],
            "h": ["5783.00000", "5783.00000"],
            "l": ["5505.00000","5505.00000"],
            "o": ["5760.70000", "5763.40000"],
            "p": ["5631.44067", "5653.78939"],
            "t": [11493, 16267],
            "v": ["2634.11501494", "3591.17907851"]
          },
          "ticker",
          "XBT/USD"
        ]"#
        )
        .unwrap()
    );
}

#[test]
fn ohlc_deserialization() {
    assert_eq!(
        Resp::Ohlc(Ohlc {
            channel_id: 42,
            time: "1542057314.748456".to_owned(),
            etime: "1542057360.435743".to_string(),
            open: "3586.70001".to_string(),
            high: "3586.70000".to_string(),
            low: "3586.60001".to_string(),
            close: "3586.60000".to_string(),
            vwap: "3586.68894".to_string(),
            volume: "0.03373000".to_string(),
            count: 2,
            channel_name: "ohlc-5".to_string(),
            pair: "XBT/USD".to_string()
        }),
        decode_message(
            r#"
          [
            42,
            [
              "1542057314.748456",
              "1542057360.435743",
              "3586.70001",
              "3586.70000",
              "3586.60001",
              "3586.60000",
              "3586.68894",
              "0.03373000",
              2
            ],
            "ohlc-5",
            "XBT/USD"
          ]"#
        )
        .unwrap()
    );
}

#[test]
fn heartbeat_is_skipped() {
    assert_eq!(None, decode_message(r#"{"event":"heartbeat"}"#));
}

#[test]
fn malformed_text_is_skipped() {
    assert_eq!(None, decode_message("not json at all"));
    assert_eq!(
        Err(DecodeError::MalformedJson),
        parse_message("not json at all")
    );
}

#[test]
fn unrecognized_shape_is_skipped() {
    // Valid JSON, but neither record shape: a four-slot array whose
    // payload fits no decoder.
    assert_eq!(None, decode_message(r#"[1, true, "x", "y"]"#));
    assert_eq!(None, decode_message(r#"[]"#));
    assert_eq!(None, decode_message("3"));
}

#[test]
fn decoding_twice_is_idempotent() {
    let text = r#"[42,["1542057314.748456","1542057360.435743","3586.70001","3586.70000","3586.60001","3586.60000","3586.68894","0.03373000",2],"ohlc-5","XBT/USD"]"#;
    let first = decode_message(text);
    let second = decode_message(text);
    assert_eq!(first, second);
    assert!(first.is_some());
}

#[test]
fn scenario_ticker_concrete() {
    let text = r#"[0,{"a":["5525.40000",1,"1.000"],"b":["5525.10000",1,"1.000"],"c":["5525.10000","0.00398963"],"h":["5783.00000","5783.00000"],"l":["5505.00000","5505.00000"],"o":["5760.70000","5763.40000"],"p":["5631.44067","5653.78939"],"t":[11493,16267],"v":["2634.11501494","3591.17907851"]},"ticker","XBT/USD"]"#;
    match decode_message(text) {
        Some(Resp::Ticker(t)) => {
            assert_eq!(0, t.channel_id);
            assert_eq!("XBT/USD", t.pair.as_str());
            assert_eq!("5525.40000", t.ask.price.as_str());
            assert_eq!(11493, t.trade_count.today);
        }
        other => panic!("expected a ticker record, got {:?}", other),
    }
}

#[test]
fn scenario_ohlc_concrete() {
    let text = r#"[42,["1542057314.748456","1542057360.435743","3586.70001","3586.70000","3586.60001","3586.60000","3586.68894","0.03373000",2],"ohlc-5","XBT/USD"]"#;
    match decode_message(text) {
        Some(Resp::Ohlc(o)) => {
            assert_eq!(42, o.channel_id);
            assert_eq!(2, o.count);
            assert_eq!("XBT/USD", o.pair.as_str());
        }
        other => panic!("expected a candle record, got {:?}", other),
    }
}

#[test]
fn float_scalars_are_not_integers() {
    // A payload whose count is written with a fractional part is not an
    // unsigned integer, so neither decoder accepts the message.
    let text = r#"[42,["1.0","2.0","3.0","4.0","5.0","6.0","7.0","8.0",2.5],"ohlc-5","XBT/USD"]"#;
    assert_eq!(None, decode_message(text));
}
