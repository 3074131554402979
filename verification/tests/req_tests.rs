use kraken_ws::{BookDepth, OhlcInterval, Subscription, WsReq};

#[test]
fn serialize_owntrades_subscription() {
    assert_eq!(
        r#"{"event":"subscribe","reqid":13,"pair":["XBT/USD"],"subscription":{"name":"ownTrades","snapshot":true,"token":"abc"}}"#,
        WsReq::Subscribe {
            request_id: Some(13),
            pair: vec!["XBT/USD".to_string()],
            subscription: Subscription::OwnTrades {
                snapshot: Some(true),
                token: "abc".to_string()
            }
        }
        .to_json()
        .as_str()
    );
}

#[test]
fn serialize_openorders_subscription() {
    assert_eq!(
        r#"{"event":"subscribe","reqid":13,"pair":["XBT/USD"],"subscription":{"name":"openOrders","ratecounter":true,"token":"abc"}}"#,
        WsReq::Subscribe {
            request_id: Some(13),
            pair: vec!["XBT/USD".to_string()],
            subscription: Subscription::OpenOrders {
                rate_counter: Some(true),
                token: "abc".to_string()
            }
        }
        .to_json()
        .as_str()
    );
}

#[test]
fn serialize_ohlc_subscription() {
    assert_eq!(
        r#"{"event":"subscribe","reqid":13,"pair":["XBT/USD"],"subscription":{"name":"ohlc","interval":30}}"#,
        WsReq::Subscribe {
            request_id: Some(13),
            pair: vec!["XBT/USD".to_string()],
            subscription: Subscription::Ohlc {
                interval: OhlcInterval::Mins30
            }
        }
        .to_json()
        .as_str()
    );
}

#[test]
fn serialize_spread_subscription() {
    assert_eq!(
        r#"{"event":"subscribe","reqid":13,"pair":["XBT/USD","XBT/ETH"],"subscription":{"name":"spread"}}"#,
        WsReq::Subscribe {
            request_id: Some(13),
            pair: vec!["XBT/USD".to_string(), "XBT/ETH".to_string()],
            subscription: Subscription::Spread
        }
        .to_json()
        .as_str()
    );
}

#[test]
fn serialize_trade_subscription() {
    assert_eq!(
        r#"{"event":"subscribe","pair":["XBT/USD"],"subscription":{"name":"trade"}}"#,
        WsReq::Subscribe {
            request_id: None,
            pair: vec!["XBT/USD".to_string()],
            subscription: Subscription::Trade
        }
        .to_json()
        .as_str()
    );
    assert_eq!(
        r#"{"event":"subscribe","reqid":13,"pair":["XBT/USD","XBT/ETH"],"subscription":{"name":"trade"}}"#,
        WsReq::Subscribe {
            request_id: Some(13),
            pair: vec!["XBT/USD".to_string(), "XBT/ETH".to_string()],
            subscription: Subscription::Trade
        }
        .to_json()
        .as_str()
    );
}

#[test]
fn serialize_ticker_subscription() {
    assert_eq!(
        r#"{"event":"subscribe","pair":["XBT/USD"],"subscription":{"name":"ticker"}}"#,
        WsReq::Subscribe {
            request_id: None,
            pair: vec!["XBT/USD".to_string()],
            subscription: Subscription::Ticker
        }
        .to_json()
        .as_str()
    );
    assert_eq!(
        r#"{"event":"subscribe","reqid":13,"pair":["XBT/USD","XBT/ETH"],"subscription":{"name":"ticker"}}"#,
        WsReq::Subscribe {
            request_id: Some(13),
            pair: vec!["XBT/USD".to_string(), "XBT/ETH".to_string()],
            subscription: Subscription::Ticker
        }
        .to_json()
        .as_str()
    );
}

#[test]
fn serialize_book_subscription() {
    assert_eq!(
        r#"{"event":"subscribe","pair":["XBT/USD"],"subscription":{"name":"book","depth":25}}"#,
        WsReq::Subscribe {
            request_id: None,
            pair: vec!["XBT/USD".to_string()],
            subscription: Subscription::Book {
                depth: BookDepth::N25
            }
        }
        .to_json()
        .as_str()
    );
    assert_eq!(
        r#"{"event":"subscribe","reqid":13,"pair":["XBT/USD","XBT/ETH"],"subscription":{"name":"book","depth":10}}"#,
        WsReq::Subscribe {
            request_id: Some(13),
            pair: vec!["XBT/USD".to_string(), "XBT/ETH".to_string()],
            subscription: Subscription::Book {
                depth: BookDepth::N10
            }
        }
        .to_json()
        .as_str()
    );
}

#[test]
fn serialize_ping() {
    assert_eq!(
        r#"{"event":"ping"}"#,
        WsReq::Ping { request_id: None }.to_json().as_str()
    );
    assert_eq!(
        r#"{"event":"ping","reqid":5}"#,
        WsReq::Ping {
            request_id: Some(5)
        }
        .to_json()
        .as_str()
    );
}

#[test]
fn serialize_depth() {
    assert_eq!("10", BookDepth::N10.to_json().as_str());
    assert_eq!("25", BookDepth::N25.to_json().as_str());
    assert_eq!("100", BookDepth::N100.to_json().as_str());
    assert_eq!("500", BookDepth::N500.to_json().as_str());
    assert_eq!("1000", BookDepth::N1000.to_json().as_str());
}

#[test]
fn serialize_interval() {
    assert_eq!("1", OhlcInterval::Mins1.to_json().as_str());
    assert_eq!("5", OhlcInterval::Mins5.to_json().as_str());
    assert_eq!("15", OhlcInterval::Mins15.to_json().as_str());
    assert_eq!("30", OhlcInterval::Mins30.to_json().as_str());
    assert_eq!("60", OhlcInterval::Hours1.to_json().as_str());
    assert_eq!("240", OhlcInterval::Hours4.to_json().as_str());
    assert_eq!("1440", OhlcInterval::Days1.to_json().as_str());
    assert_eq!("10080", OhlcInterval::Days7.to_json().as_str());
    assert_eq!("21600", OhlcInterval::Days15.to_json().as_str());
}

#[test]
fn serialize_unsubscribe() {
    assert_eq!(
        r#"{"event":"unsubscribe","reqid":12,"pair":["ETH/USD"],"subscription":{"name":"ticker"}}"#,
        WsReq::Unsubscribe {
            request_id: Some(12),
            pair: vec!["ETH/USD".to_string()],
            subscription: Subscription::Ticker
        }
        .to_json()
        .as_str()
    );
}

#[test]
fn serialize_token_with_escapes() {
    assert_eq!(
        r#"{"event":"subscribe","pair":["A\"B\\C"],"subscription":{"name":"trade"}}"#,
        WsReq::Subscribe {
            request_id: None,
            pair: vec!["A\"B\\C".to_string()],
            subscription: Subscription::Trade
        }
        .to_json()
        .as_str()
    );
    assert_eq!(
        r#"{"name":"ownTrades","token":"a\tb\u001fc"}"#,
        Subscription::OwnTrades {
            snapshot: None,
            token: "a\tb\u{1f}c".to_string()
        }
        .to_json()
        .as_str()
    );
}

#[test]
fn serialize_reqid_boundaries() {
    assert_eq!(
        r#"{"event":"ping","reqid":0}"#,
        WsReq::Ping {
            request_id: Some(0)
        }
        .to_json()
        .as_str()
    );
    assert_eq!(
        r#"{"event":"ping","reqid":4294967295}"#,
        WsReq::Ping {
            request_id: Some(4294967295)
        }
        .to_json()
        .as_str()
    );
}
