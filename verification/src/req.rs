use vstd::prelude::*;

verus! {

/// One outbound request of the push protocol: a ping or a change of
/// subscriptions, each with an optional request id echoed back by the
/// exchange.
#[derive(Clone, Eq, PartialEq)]
pub enum WsReq {
    Ping { request_id: Option<u32> },
    Subscribe { request_id: Option<u32>, pair: Vec<String>, subscription: Subscription },
    Unsubscribe { request_id: Option<u32>, pair: Vec<String>, subscription: Subscription },
}

/// The feed a subscription request asks for.
#[derive(Clone, Eq, PartialEq)]
pub enum Subscription {
    Ticker,
    Trade,
    Spread,
    Book { depth: BookDepth },
    Ohlc { interval: OhlcInterval },
    OpenOrders { rate_counter: Option<bool>, token: String },
    OwnTrades { snapshot: Option<bool>, token: String },
}

/// The order-book depths the exchange offers.
#[derive(Copy, Clone, Eq, PartialEq, Structural)]
pub enum BookDepth {
    N10,
    N25,
    N100,
    N500,
    N1000,
}

/// The candle intervals the exchange offers.
#[derive(Copy, Clone, Eq, PartialEq, Structural)]
pub enum OhlcInterval {
    Mins1,
    Mins5,
    Mins15,
    Mins30,
    Hours1,
    Hours4,
    Days1,
    Days7,
    Days15,
}

/// The mathematical model of a `Subscription`.
pub enum SubscriptionModel {
    Ticker,
    Trade,
    Spread,
    Book { depth: BookDepth },
    Ohlc { interval: OhlcInterval },
    OpenOrders { rate_counter: Option<bool>, token: Seq<char> },
    OwnTrades { snapshot: Option<bool>, token: Seq<char> },
}

/// The mathematical model of a `WsReq`.
pub enum WsReqModel {
    Ping { request_id: Option<u32> },
    Subscribe { request_id: Option<u32>, pair: Seq<Seq<char>>, subscription: SubscriptionModel },
    Unsubscribe { request_id: Option<u32>, pair: Seq<Seq<char>>, subscription: SubscriptionModel },
}

impl View for Subscription {
    type V = SubscriptionModel;

    open spec fn view(&self) -> SubscriptionModel {
        match self {
            Subscription::Ticker => SubscriptionModel::Ticker,
            Subscription::Trade => SubscriptionModel::Trade,
            Subscription::Spread => SubscriptionModel::Spread,
            Subscription::Book { depth } => SubscriptionModel::Book { depth: *depth },
            Subscription::Ohlc { interval } => SubscriptionModel::Ohlc { interval: *interval },
            Subscription::OpenOrders { rate_counter, token } => SubscriptionModel::OpenOrders {
                rate_counter: *rate_counter,
                token: token@,
            },
            Subscription::OwnTrades { snapshot, token } => SubscriptionModel::OwnTrades {
                snapshot: *snapshot,
                token: token@,
            },
        }
    }
}

impl View for WsReq {
    type V = WsReqModel;

    open spec fn view(&self) -> WsReqModel {
        match self {
            WsReq::Ping { request_id } => WsReqModel::Ping { request_id: *request_id },
            WsReq::Subscribe { request_id, pair, subscription } => WsReqModel::Subscribe {
                request_id: *request_id,
                pair: pair.deep_view(),
                subscription: subscription@,
            },
            WsReq::Unsubscribe { request_id, pair, subscription } => WsReqModel::Unsubscribe {
                request_id: *request_id,
                pair: pair.deep_view(),
                subscription: subscription@,
            },
        }
    }
}

/// The character of one decimal digit.
pub open spec fn spec_digit_char(d: int) -> char {
    ((48 + d) as u8) as char
}

/// The character of one lower-case hexadecimal digit.
pub open spec fn spec_hex_char(d: int) -> char {
    if d < 10 {
        spec_digit_char(d)
    } else {
        ((87 + d) as u8) as char
    }
}

/// The decimal text of an unsigned number, most significant digit first,
/// without leading zeros.
pub open spec fn spec_uint_text(n: int) -> Seq<char>
    decreases n,
{
    if n < 10 {
        seq![spec_digit_char(n)]
    } else {
        spec_uint_text(n / 10).push(spec_digit_char(n % 10))
    }
}

/// How one character stands inside a JSON string: quote and backslash
/// get a backslash, the named control characters their short escapes,
/// the remaining control characters a hexadecimal escape, and everything
/// else stands as it is.
pub open spec fn spec_escape_char(c: char) -> Seq<char> {
    if c == '"' {
        seq!['\\', '"']
    } else if c == '\\' {
        seq!['\\', '\\']
    } else if c == '\u{8}' {
        seq!['\\', 'b']
    } else if c == '\t' {
        seq!['\\', 't']
    } else if c == '\n' {
        seq!['\\', 'n']
    } else if c == '\u{c}' {
        seq!['\\', 'f']
    } else if c == '\r' {
        seq!['\\', 'r']
    } else if (c as int) < 32 {
        seq!['\\', 'u', '0', '0', spec_hex_char(c as int / 16), spec_hex_char(c as int % 16)]
    } else {
        seq![c]
    }
}

/// A text with every character escaped for JSON.
pub open spec fn spec_escaped(s: Seq<char>) -> Seq<char>
    decreases s.len(),
{
    if s.len() == 0 {
        Seq::empty()
    } else {
        spec_escaped(s.drop_last()) + spec_escape_char(s.last())
    }
}

/// A JSON string: the escaped text between double quotes.
pub open spec fn spec_quoted(s: Seq<char>) -> Seq<char> {
    seq!['"'] + spec_escaped(s) + seq!['"']
}

/// The comma-separated JSON strings of a pair list, without brackets.
pub open spec fn spec_pair_items(pairs: Seq<Seq<char>>) -> Seq<char>
    decreases pairs.len(),
{
    if pairs.len() == 0 {
        Seq::empty()
    } else if pairs.len() == 1 {
        spec_quoted(pairs[0])
    } else {
        spec_pair_items(pairs.drop_last()) + seq![','] + spec_quoted(pairs.last())
    }
}

/// The JSON array of a pair list.
pub open spec fn spec_pair_array(pairs: Seq<Seq<char>>) -> Seq<char> {
    seq!['['] + spec_pair_items(pairs) + seq![']']
}

/// The optional request-id member, empty where no id was given.
pub open spec fn spec_reqid_part(id: Option<u32>) -> Seq<char> {
    match id {
        None => Seq::empty(),
        Some(n) => ",\"reqid\":"@ + spec_uint_text(n as int),
    }
}

/// The JSON number the exchange expects for a book depth.
pub open spec fn spec_depth_text(d: BookDepth) -> Seq<char> {
    match d {
        BookDepth::N10 => "10"@,
        BookDepth::N25 => "25"@,
        BookDepth::N100 => "100"@,
        BookDepth::N500 => "500"@,
        BookDepth::N1000 => "1000"@,
    }
}

/// The JSON number the exchange expects for a candle interval, in
/// minutes.
pub open spec fn spec_interval_text(i: OhlcInterval) -> Seq<char> {
    match i {
        OhlcInterval::Mins1 => "1"@,
        OhlcInterval::Mins5 => "5"@,
        OhlcInterval::Mins15 => "15"@,
        OhlcInterval::Mins30 => "30"@,
        OhlcInterval::Hours1 => "60"@,
        OhlcInterval::Hours4 => "240"@,
        OhlcInterval::Days1 => "1440"@,
        OhlcInterval::Days7 => "10080"@,
        OhlcInterval::Days15 => "21600"@,
    }
}

/// The JSON object that names a subscription, members in the order the
/// exchange documents: the name first, then the feed's own options,
/// optional members left out where they are `None`.
pub open spec fn spec_subscription_text(s: SubscriptionModel) -> Seq<char> {
    match s {
        SubscriptionModel::Ticker => "{\"name\":\"ticker\"}"@,
        SubscriptionModel::Trade => "{\"name\":\"trade\"}"@,
        SubscriptionModel::Spread => "{\"name\":\"spread\"}"@,
        SubscriptionModel::Book { depth } => "{\"name\":\"book\",\"depth\":"@ + spec_depth_text(
            depth,
        ) + "}"@,
        SubscriptionModel::Ohlc { interval } => "{\"name\":\"ohlc\",\"interval\":"@
            + spec_interval_text(interval) + "}"@,
        SubscriptionModel::OpenOrders { rate_counter, token } => "{\"name\":\"openOrders\""@ + (
        match rate_counter {
            None => Seq::<char>::empty(),
            Some(true) => ",\"ratecounter\":true"@,
            Some(false) => ",\"ratecounter\":false"@,
        }) + ",\"token\":"@ + spec_quoted(token) + "}"@,
        SubscriptionModel::OwnTrades { snapshot, token } => "{\"name\":\"ownTrades\""@ + (
        match snapshot {
            None => Seq::<char>::empty(),
            Some(true) => ",\"snapshot\":true"@,
            Some(false) => ",\"snapshot\":false"@,
        }) + ",\"token\":"@ + spec_quoted(token) + "}"@,
    }
}

/// The whole request as the JSON text the exchange expects: the event
/// name, the optional request id, and for subscription changes the pair
/// list and the subscription object, members in this order.
pub open spec fn spec_ws_req_text(r: WsReqModel) -> Seq<char> {
    match r {
        WsReqModel::Ping { request_id } => "{\"event\":\"ping\""@ + spec_reqid_part(request_id)
            + "}"@,
        WsReqModel::Subscribe { request_id, pair, subscription } => "{\"event\":\"subscribe\""@
            + spec_reqid_part(request_id) + ",\"pair\":"@ + spec_pair_array(pair)
            + ",\"subscription\":"@ + spec_subscription_text(subscription) + "}"@,
        WsReqModel::Unsubscribe { request_id, pair, subscription } => "{\"event\":\"unsubscribe\""@
            + spec_reqid_part(request_id) + ",\"pair\":"@ + spec_pair_array(pair)
            + ",\"subscription\":"@ + spec_subscription_text(subscription) + "}"@,
    }
}

/// Relies on `String::push`: appends exactly the given character at the
/// end of the string.
#[verifier::external_body]
fn push_char(out: &mut String, c: char)
    ensures
        final(out)@ == old(out)@.push(c),
{
    out.push(c);
}

/// Writes the decimal text of a number, most significant digit first.
fn push_uint(out: &mut String, n: u32)
    ensures
        final(out)@ == old(out)@ + spec_uint_text(n as int),
    decreases n,
{
    if n < 10 {
        let d: u8 = 48 + (n as u8);
        push_char(out, d as char);
        proof {
            assert(out@ =~= old(out)@ + spec_uint_text(n as int));
        }
    } else {
        push_uint(out, n / 10);
        let d: u8 = 48 + ((n % 10) as u8);
        push_char(out, d as char);
        proof {
            assert(out@ =~= old(out)@ + spec_uint_text(n as int));
        }
    }
}

/// Writes a text with every character escaped for JSON.
fn push_escaped(out: &mut String, s: &str)
    ensures
        final(out)@ == old(out)@ + spec_escaped(s@),
{
    let n = s.unicode_len();
    proof {
        assert(s@.take(0) =~= Seq::<char>::empty());
        assert(out@ =~= old(out)@ + spec_escaped(s@.take(0)));
    }
    let mut i: usize = 0;
    while i < n
        invariant
            i <= n,
            n == s@.len(),
            out@ == old(out)@ + spec_escaped(s@.take(i as int)),
        decreases n - i,
    {
        let c = s.get_char(i);
        if c == '"' {
            out.append("\\\"");
            proof {
                reveal_strlit("\\\"");
            }
        } else if c == '\\' {
            out.append("\\\\");
            proof {
                reveal_strlit("\\\\");
            }
        } else if c == '\u{8}' {
            out.append("\\b");
            proof {
                reveal_strlit("\\b");
            }
        } else if c == '\t' {
            out.append("\\t");
            proof {
                reveal_strlit("\\t");
            }
        } else if c == '\n' {
            out.append("\\n");
            proof {
                reveal_strlit("\\n");
            }
        } else if c == '\u{c}' {
            out.append("\\f");
            proof {
                reveal_strlit("\\f");
            }
        } else if c == '\r' {
            out.append("\\r");
            proof {
                reveal_strlit("\\r");
            }
        } else if (c as u32) < 32 {
            out.append("\\u00");
            let hi: u8 = 48 + ((c as u32) / 16) as u8;
            push_char(out, hi as char);
            let lo32: u32 = (c as u32) % 16;
            let lo: u8 = if lo32 < 10 {
                48 + (lo32 as u8)
            } else {
                87 + (lo32 as u8)
            };
            push_char(out, lo as char);
            proof {
                reveal_strlit("\\u00");
            }
        } else {
            push_char(out, c);
        }
        proof {
            assert(s@.take(i + 1).drop_last() =~= s@.take(i as int));
            assert(s@.take(i + 1).last() == s@[i as int]);
            assert(out@ =~= old(out)@ + spec_escaped(s@.take(i + 1)));
        }
        i = i + 1;
    }
    proof {
        assert(s@.take(n as int) =~= s@);
    }
}

/// Writes a JSON string: the escaped text between double quotes.
fn push_quoted(out: &mut String, s: &str)
    ensures
        final(out)@ == old(out)@ + spec_quoted(s@),
{
    push_char(out, '"');
    push_escaped(out, s);
    push_char(out, '"');
    proof {
        assert(out@ =~= old(out)@ + spec_quoted(s@));
    }
}

/// Writes the JSON array of the pair list.
fn push_pairs(out: &mut String, pairs: &Vec<String>)
    ensures
        final(out)@ == old(out)@ + spec_pair_array(pairs.deep_view()),
{
    let ghost dv = pairs.deep_view();
    push_char(out, '[');
    proof {
        assert(dv.take(0) =~= Seq::<Seq<char>>::empty());
        assert(out@ =~= old(out)@.push('[') + spec_pair_items(dv.take(0)));
    }
    let mut i: usize = 0;
    while i < pairs.len()
        invariant
            i <= pairs.len(),
            dv == pairs.deep_view(),
            dv.len() == pairs@.len(),
            out@ == old(out)@.push('[') + spec_pair_items(dv.take(i as int)),
        decreases pairs.len() - i,
    {
        if i > 0 {
            push_char(out, ',');
        }
        push_quoted(out, pairs[i].as_str());
        proof {
            assert(dv[i as int] == pairs@[i as int]@);
            assert(dv.take(i + 1).drop_last() =~= dv.take(i as int));
            assert(dv.take(i + 1).last() == dv[i as int]);
            if i > 0 {
                assert(out@ =~= old(out)@.push('[') + spec_pair_items(dv.take(i + 1)));
            } else {
                assert(dv.take(1) =~= seq![dv[0]]);
                assert(out@ =~= old(out)@.push('[') + spec_pair_items(dv.take(i + 1)));
            }
        }
        i = i + 1;
    }
    push_char(out, ']');
    proof {
        assert(dv.take(pairs@.len() as int) =~= dv);
        assert(out@ =~= old(out)@ + spec_pair_array(dv));
    }
}

impl BookDepth {
    /// The book depth as the JSON number the exchange expects.
    pub fn to_json(&self) -> (r: String)
        ensures
            r@ == spec_depth_text(*self),
    {
        match self {
            BookDepth::N10 => String::from_str("10"),
            BookDepth::N25 => String::from_str("25"),
            BookDepth::N100 => String::from_str("100"),
            BookDepth::N500 => String::from_str("500"),
            BookDepth::N1000 => String::from_str("1000"),
        }
    }
}

impl OhlcInterval {
    /// The candle interval as the JSON number the exchange expects.
    pub fn to_json(&self) -> (r: String)
        ensures
            r@ == spec_interval_text(*self),
    {
        match self {
            OhlcInterval::Mins1 => String::from_str("1"),
            OhlcInterval::Mins5 => String::from_str("5"),
            OhlcInterval::Mins15 => String::from_str("15"),
            OhlcInterval::Mins30 => String::from_str("30"),
            OhlcInterval::Hours1 => String::from_str("60"),
            OhlcInterval::Hours4 => String::from_str("240"),
            OhlcInterval::Days1 => String::from_str("1440"),
            OhlcInterval::Days7 => String::from_str("10080"),
            OhlcInterval::Days15 => String::from_str("21600"),
        }
    }
}

impl Subscription {
    /// The subscription as the JSON object the exchange expects.
    pub fn to_json(&self) -> (r: String)
        ensures
            r@ == spec_subscription_text(self@),
    {
        let mut out = String::new();
        match self {
            Subscription::Ticker => {
                out.append("{\"name\":\"ticker\"}");
            },
            Subscription::Trade => {
                out.append("{\"name\":\"trade\"}");
            },
            Subscription::Spread => {
                out.append("{\"name\":\"spread\"}");
            },
            Subscription::Book { depth } => {
                out.append("{\"name\":\"book\",\"depth\":");
                let d = depth.to_json();
                out.append(d.as_str());
                out.append("}");
            },
            Subscription::Ohlc { interval } => {
                out.append("{\"name\":\"ohlc\",\"interval\":");
                let d = interval.to_json();
                out.append(d.as_str());
                out.append("}");
            },
            Subscription::OpenOrders { rate_counter, token } => {
                out.append("{\"name\":\"openOrders\"");
                match rate_counter {
                    Some(true) => out.append(",\"ratecounter\":true"),
                    Some(false) => out.append(",\"ratecounter\":false"),
                    None => {},
                }
                out.append(",\"token\":");
                push_quoted(&mut out, token.as_str());
                out.append("}");
            },
            Subscription::OwnTrades { snapshot, token } => {
                out.append("{\"name\":\"ownTrades\"");
                match snapshot {
                    Some(true) => out.append(",\"snapshot\":true"),
                    Some(false) => out.append(",\"snapshot\":false"),
                    None => {},
                }
                out.append(",\"token\":");
                push_quoted(&mut out, token.as_str());
                out.append("}");
            },
        }
        proof {
            assert(out@ =~= spec_subscription_text(self@));
        }
        out
    }
}

impl WsReq {
    /// The whole request as the JSON text the exchange expects.
    pub fn to_json(&self) -> (r: String)
        ensures
            r@ == spec_ws_req_text(self@),
    {
        let mut out = String::new();
        match self {
            WsReq::Ping { request_id } => {
                out.append("{\"event\":\"ping\"");
                match request_id {
                    Some(id) => {
                        out.append(",\"reqid\":");
                        push_uint(&mut out, *id);
                    },
                    None => {},
                }
                out.append("}");
            },
            WsReq::Subscribe { request_id, pair, subscription } => {
                out.append("{\"event\":\"subscribe\"");
                match request_id {
                    Some(id) => {
                        out.append(",\"reqid\":");
                        push_uint(&mut out, *id);
                    },
                    None => {},
                }
                out.append(",\"pair\":");
                push_pairs(&mut out, pair);
                out.append(",\"subscription\":");
                let sub = subscription.to_json();
                out.append(sub.as_str());
                out.append("}");
            },
            WsReq::Unsubscribe { request_id, pair, subscription } => {
                out.append("{\"event\":\"unsubscribe\"");
                match request_id {
                    Some(id) => {
                        out.append(",\"reqid\":");
                        push_uint(&mut out, *id);
                    },
                    None => {},
                }
                out.append(",\"pair\":");
                push_pairs(&mut out, pair);
                out.append(",\"subscription\":");
                let sub = subscription.to_json();
                out.append(sub.as_str());
                out.append("}");
            },
        }
        proof {
            assert(out@ =~= spec_ws_req_text(self@));
        }
        out
    }
}

} // verus!
