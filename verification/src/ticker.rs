use vstd::prelude::*;

use crate::error::{res_view, DecodeError, FieldLoc};
use crate::json::{elems_view, entries_view, lookup, spec_lookup, JsonModel, JsonValue};
use crate::scalar::{normalize_scalar, spec_normalize_scalar, ScalarModel, ScalarValue};

verus! {

/// One side of the book: the best price, its whole-lot volume and its lot
/// volume, prices and lot volumes kept as decimal text.
#[derive(Debug, Clone, PartialEq, Eq, Hash)]
pub struct BidAskData {
    pub price: String,
    pub whole_lot_volume: u64,
    pub lot_volume: String,
}

/// The mathematical model of a `BidAskData`.
pub struct BidAskModel {
    pub price: Seq<char>,
    pub whole_lot_volume: u64,
    pub lot_volume: Seq<char>,
}

impl View for BidAskData {
    type V = BidAskModel;

    open spec fn view(&self) -> BidAskModel {
        BidAskModel {
            price: self.price@,
            whole_lot_volume: self.whole_lot_volume,
            lot_volume: self.lot_volume@,
        }
    }
}

/// A metric's value for the current period next to its value over the
/// trailing 24 hours.
#[derive(Debug, Clone, PartialEq, Eq, Hash)]
pub struct ValueMarker<T> {
    pub today: T,
    pub last_24h: T,
}

impl<T: View> View for ValueMarker<T> {
    type V = ValueMarker<T::V>;

    open spec fn view(&self) -> ValueMarker<T::V> {
        ValueMarker { today: self.today@, last_24h: self.last_24h@ }
    }
}

/// Everything one ticker update says about a pair at a point in time.
#[derive(Debug, Clone, PartialEq, Eq, Hash)]
pub struct TickerState {
    pub channel_id: u64,
    pub pair: String,
    pub ask: BidAskData,
    pub bid: BidAskData,
    pub close: ValueMarker<String>,
    pub volume: ValueMarker<String>,
    pub volume_weighted_avg_price: ValueMarker<String>,
    pub trade_count: ValueMarker<u64>,
    pub low_price: ValueMarker<String>,
    pub high_price: ValueMarker<String>,
    pub open_price: ValueMarker<String>,
}

/// The mathematical model of a `TickerState`.
pub struct TickerModel {
    pub channel_id: u64,
    pub pair: Seq<char>,
    pub ask: BidAskModel,
    pub bid: BidAskModel,
    pub close: ValueMarker<Seq<char>>,
    pub volume: ValueMarker<Seq<char>>,
    pub volume_weighted_avg_price: ValueMarker<Seq<char>>,
    pub trade_count: ValueMarker<u64>,
    pub low_price: ValueMarker<Seq<char>>,
    pub high_price: ValueMarker<Seq<char>>,
    pub open_price: ValueMarker<Seq<char>>,
}

impl View for TickerState {
    type V = TickerModel;

    open spec fn view(&self) -> TickerModel {
        TickerModel {
            channel_id: self.channel_id,
            pair: self.pair@,
            ask: self.ask@,
            bid: self.bid@,
            close: self.close@,
            volume: self.volume@,
            volume_weighted_avg_price: self.volume_weighted_avg_price@,
            trade_count: self.trade_count@,
            low_price: self.low_price@,
            high_price: self.high_price@,
            open_price: self.open_price@,
        }
    }
}

/// A bid/ask triple must hold, in order, a decimal price, an integer
/// whole-lot volume and a decimal lot volume; any other order of scalar
/// kinds is a shape mismatch.
pub open spec fn spec_bidask_from(s0: ScalarModel, s1: ScalarModel, s2: ScalarModel) -> Result<
    BidAskModel,
    DecodeError,
> {
    match s0 {
        ScalarModel::Decimal(price) => match s1 {
            ScalarModel::Integer(whole) => match s2 {
                ScalarModel::Decimal(lot) => Ok(
                    BidAskModel { price, whole_lot_volume: whole, lot_volume: lot },
                ),
                _ => Err(DecodeError::BidAskShapeMismatch),
            },
            _ => Err(DecodeError::BidAskShapeMismatch),
        },
        _ => Err(DecodeError::BidAskShapeMismatch),
    }
}

impl BidAskData {
    /// Assembles one side of the book from three already-normalized
    /// scalars, insisting on the order decimal, integer, decimal.
    pub fn try_from(src: &[ScalarValue; 3]) -> (r: Result<BidAskData, DecodeError>)
        ensures
            res_view(r) == spec_bidask_from(src@[0]@, src@[1]@, src@[2]@),
    {
        let price = match &src[0] {
            ScalarValue::Decimal(s) => s.clone(),
            ScalarValue::Integer(_) => {
                return Err(DecodeError::BidAskShapeMismatch);
            },
        };
        let whole_lot_volume = match &src[1] {
            ScalarValue::Integer(n) => *n,
            ScalarValue::Decimal(_) => {
                return Err(DecodeError::BidAskShapeMismatch);
            },
        };
        let lot_volume = match &src[2] {
            ScalarValue::Decimal(s) => s.clone(),
            ScalarValue::Integer(_) => {
                return Err(DecodeError::BidAskShapeMismatch);
            },
        };
        Ok(BidAskData { price, whole_lot_volume, lot_volume })
    }
}

impl ValueMarker<String> {
    /// Copies a today/trailing-24h pair of decimal texts out of its slots.
    pub fn from(src: &[String; 2]) -> (r: ValueMarker<String>)
        ensures
            r@ == (ValueMarker { today: src@[0]@, last_24h: src@[1]@ }),
    {
        ValueMarker { today: src[0].clone(), last_24h: src[1].clone() }
    }
}

impl ValueMarker<u64> {
    /// Copies a today/trailing-24h pair of integers out of its slots.
    pub fn from(src: &[u64; 2]) -> (r: ValueMarker<u64>)
        ensures
            r@ == (ValueMarker { today: src@[0], last_24h: src@[1] }),
    {
        ValueMarker { today: src[0], last_24h: src[1] }
    }
}

/// Decodes a payload value that must be a bid/ask triple: a 3-element
/// array of scalars in the order decimal, integer, decimal.
pub open spec fn spec_bidask_value(m: JsonModel, k: char) -> Result<BidAskModel, DecodeError> {
    match m {
        JsonModel::Array(items) => {
            if items.len() != 3 {
                Err(DecodeError::ArityMismatch)
            } else {
                match spec_normalize_scalar(items[0]) {
                    Err(e) => Err(e),
                    Ok(s0) => match spec_normalize_scalar(items[1]) {
                        Err(e) => Err(e),
                        Ok(s1) => match spec_normalize_scalar(items[2]) {
                            Err(e) => Err(e),
                            Ok(s2) => spec_bidask_from(s0, s1, s2),
                        },
                    },
                }
            }
        },
        _ => Err(DecodeError::FieldTypeMismatch(FieldLoc::Key(k))),
    }
}

/// Decodes a payload value that must be a 2-element array of decimal
/// texts, such as the close or volume pair.
pub open spec fn spec_dual_dec_value(m: JsonModel, k: char) -> Result<
    ValueMarker<Seq<char>>,
    DecodeError,
> {
    match m {
        JsonModel::Array(items) => {
            if items.len() != 2 {
                Err(DecodeError::ArityMismatch)
            } else {
                match spec_normalize_scalar(items[0]) {
                    Err(e) => Err(e),
                    Ok(ScalarModel::Integer(_)) => Err(
                        DecodeError::FieldTypeMismatch(FieldLoc::Key(k)),
                    ),
                    Ok(ScalarModel::Decimal(t0)) => match spec_normalize_scalar(items[1]) {
                        Err(e) => Err(e),
                        Ok(ScalarModel::Integer(_)) => Err(
                            DecodeError::FieldTypeMismatch(FieldLoc::Key(k)),
                        ),
                        Ok(ScalarModel::Decimal(t1)) => Ok(
                            ValueMarker { today: t0, last_24h: t1 },
                        ),
                    },
                }
            }
        },
        _ => Err(DecodeError::FieldTypeMismatch(FieldLoc::Key(k))),
    }
}

/// Decodes a payload value that must be a 2-element array of integers:
/// the trade-count pair.
pub open spec fn spec_dual_int_value(m: JsonModel, k: char) -> Result<
    ValueMarker<u64>,
    DecodeError,
> {
    match m {
        JsonModel::Array(items) => {
            if items.len() != 2 {
                Err(DecodeError::ArityMismatch)
            } else {
                match spec_normalize_scalar(items[0]) {
                    Err(e) => Err(e),
                    Ok(ScalarModel::Decimal(_)) => Err(
                        DecodeError::FieldTypeMismatch(FieldLoc::Key(k)),
                    ),
                    Ok(ScalarModel::Integer(n0)) => match spec_normalize_scalar(items[1]) {
                        Err(e) => Err(e),
                        Ok(ScalarModel::Decimal(_)) => Err(
                            DecodeError::FieldTypeMismatch(FieldLoc::Key(k)),
                        ),
                        Ok(ScalarModel::Integer(n1)) => Ok(
                            ValueMarker { today: n0, last_24h: n1 },
                        ),
                    },
                }
            }
        },
        _ => Err(DecodeError::FieldTypeMismatch(FieldLoc::Key(k))),
    }
}

/// Looks a key up in the payload object and decodes it as a bid/ask
/// triple; an absent key is a missing field.
pub open spec fn spec_bidask_field(es: Seq<(Seq<char>, JsonModel)>, k: char) -> Result<
    BidAskModel,
    DecodeError,
> {
    match spec_lookup(es, k) {
        None => Err(DecodeError::MissingField(k)),
        Some(m) => spec_bidask_value(m, k),
    }
}

/// Looks a key up in the payload object and decodes it as a decimal pair.
pub open spec fn spec_dual_dec_field(es: Seq<(Seq<char>, JsonModel)>, k: char) -> Result<
    ValueMarker<Seq<char>>,
    DecodeError,
> {
    match spec_lookup(es, k) {
        None => Err(DecodeError::MissingField(k)),
        Some(m) => spec_dual_dec_value(m, k),
    }
}

/// Looks a key up in the payload object and decodes it as an integer pair.
pub open spec fn spec_dual_int_field(es: Seq<(Seq<char>, JsonModel)>, k: char) -> Result<
    ValueMarker<u64>,
    DecodeError,
> {
    match spec_lookup(es, k) {
        None => Err(DecodeError::MissingField(k)),
        Some(m) => spec_dual_int_value(m, k),
    }
}

/// What decoding a ticker update returns for every JSON document: the
/// message must be a 4-slot array of channel id, payload object with the
/// nine named fields checked in the order a, b, c, v, p, t, l, h, o, a
/// subscription-name slot that is not retained, and the pair name; the
/// first structural error aborts the record.
pub open spec fn spec_decode_ticker(m: JsonModel) -> Result<TickerModel, DecodeError> {
    match m {
        JsonModel::Array(slots) => {
            if slots.len() != 4 {
                Err(DecodeError::ArityMismatch)
            } else {
                match slots[0] {
                    JsonModel::UInt(channel_id) => match slots[1] {
                        JsonModel::Object(es) => match spec_bidask_field(es, 'a') {
                            Err(e) => Err(e),
                            Ok(ask) => match spec_bidask_field(es, 'b') {
                                Err(e) => Err(e),
                                Ok(bid) => match spec_dual_dec_field(es, 'c') {
                                    Err(e) => Err(e),
                                    Ok(close) => match spec_dual_dec_field(es, 'v') {
                                        Err(e) => Err(e),
                                        Ok(volume) => match spec_dual_dec_field(es, 'p') {
                                            Err(e) => Err(e),
                                            Ok(vwap) => match spec_dual_int_field(es, 't') {
                                                Err(e) => Err(e),
                                                Ok(trade_count) => match spec_dual_dec_field(
                                                    es,
                                                    'l',
                                                ) {
                                                    Err(e) => Err(e),
                                                    Ok(low) => match spec_dual_dec_field(es, 'h') {
                                                        Err(e) => Err(e),
                                                        Ok(high) => match spec_dual_dec_field(
                                                            es,
                                                            'o',
                                                        ) {
                                                            Err(e) => Err(e),
                                                            Ok(open) => match slots[3] {
                                                                JsonModel::Text(pair) => Ok(
                                                                    TickerModel {
                                                                        channel_id,
                                                                        pair,
                                                                        ask,
                                                                        bid,
                                                                        close,
                                                                        volume,
                                                                        volume_weighted_avg_price:
                                                                            vwap,
                                                                        trade_count,
                                                                        low_price: low,
                                                                        high_price: high,
                                                                        open_price: open,
                                                                    },
                                                                ),
                                                                _ => Err(DecodeError::MissingPair),
                                                            },
                                                        },
                                                    },
                                                },
                                            },
                                        },
                                    },
                                },
                            },
                        },
                        _ => Err(DecodeError::FieldTypeMismatch(FieldLoc::Index(1))),
                    },
                    _ => Err(DecodeError::MissingChannelId),
                }
            }
        },
        _ => Err(DecodeError::UnrecognizedShape),
    }
}

/// Decodes one payload entry as a bid/ask triple.
fn bidask_field(entries: &Vec<(String, JsonValue)>, k: char) -> (r: Result<
    BidAskData,
    DecodeError,
>)
    ensures
        res_view(r) == spec_bidask_field(entries_view(*entries), k),
{
    let v = match lookup(entries, k) {
        Some(v) => v,
        None => {
            return Err(DecodeError::MissingField(k));
        },
    };
    let items = match v {
        JsonValue::Array(items) => items,
        _ => {
            return Err(DecodeError::FieldTypeMismatch(FieldLoc::Key(k)));
        },
    };
    proof {
        assert(v@ == JsonModel::Array(elems_view(*items)));
        assert(elems_view(*items).len() == items@.len());
    }
    if items.len() != 3 {
        return Err(DecodeError::ArityMismatch);
    }
    let s0 = match normalize_scalar(&items[0]) {
        Ok(s) => s,
        Err(e) => {
            return Err(e);
        },
    };
    let s1 = match normalize_scalar(&items[1]) {
        Ok(s) => s,
        Err(e) => {
            return Err(e);
        },
    };
    let s2 = match normalize_scalar(&items[2]) {
        Ok(s) => s,
        Err(e) => {
            return Err(e);
        },
    };
    BidAskData::try_from(&[s0, s1, s2])
}

/// Decodes one payload entry as a pair of decimal texts.
fn dual_dec_field(entries: &Vec<(String, JsonValue)>, k: char) -> (r: Result<
    ValueMarker<String>,
    DecodeError,
>)
    ensures
        res_view(r) == spec_dual_dec_field(entries_view(*entries), k),
{
    let v = match lookup(entries, k) {
        Some(v) => v,
        None => {
            return Err(DecodeError::MissingField(k));
        },
    };
    let items = match v {
        JsonValue::Array(items) => items,
        _ => {
            return Err(DecodeError::FieldTypeMismatch(FieldLoc::Key(k)));
        },
    };
    proof {
        assert(v@ == JsonModel::Array(elems_view(*items)));
        assert(elems_view(*items).len() == items@.len());
    }
    if items.len() != 2 {
        return Err(DecodeError::ArityMismatch);
    }
    let t0 = match normalize_scalar(&items[0]) {
        Ok(ScalarValue::Decimal(s)) => s,
        Ok(ScalarValue::Integer(_)) => {
            return Err(DecodeError::FieldTypeMismatch(FieldLoc::Key(k)));
        },
        Err(e) => {
            return Err(e);
        },
    };
    let t1 = match normalize_scalar(&items[1]) {
        Ok(ScalarValue::Decimal(s)) => s,
        Ok(ScalarValue::Integer(_)) => {
            return Err(DecodeError::FieldTypeMismatch(FieldLoc::Key(k)));
        },
        Err(e) => {
            return Err(e);
        },
    };
    Ok(ValueMarker { today: t0, last_24h: t1 })
}

/// Decodes one payload entry as a pair of integers.
fn dual_int_field(entries: &Vec<(String, JsonValue)>, k: char) -> (r: Result<
    ValueMarker<u64>,
    DecodeError,
>)
    ensures
        res_view(r) == spec_dual_int_field(entries_view(*entries), k),
{
    let v = match lookup(entries, k) {
        Some(v) => v,
        None => {
            return Err(DecodeError::MissingField(k));
        },
    };
    let items = match v {
        JsonValue::Array(items) => items,
        _ => {
            return Err(DecodeError::FieldTypeMismatch(FieldLoc::Key(k)));
        },
    };
    proof {
        assert(v@ == JsonModel::Array(elems_view(*items)));
        assert(elems_view(*items).len() == items@.len());
    }
    if items.len() != 2 {
        return Err(DecodeError::ArityMismatch);
    }
    let n0 = match normalize_scalar(&items[0]) {
        Ok(ScalarValue::Integer(n)) => n,
        Ok(ScalarValue::Decimal(_)) => {
            return Err(DecodeError::FieldTypeMismatch(FieldLoc::Key(k)));
        },
        Err(e) => {
            return Err(e);
        },
    };
    let n1 = match normalize_scalar(&items[1]) {
        Ok(ScalarValue::Integer(n)) => n,
        Ok(ScalarValue::Decimal(_)) => {
            return Err(DecodeError::FieldTypeMismatch(FieldLoc::Key(k)));
        },
        Err(e) => {
            return Err(e);
        },
    };
    Ok(ValueMarker { today: n0, last_24h: n1 })
}

impl TickerState {
    /// Decodes one ticker update from its positional 4-slot array,
    /// returning the first structural error where the shape is wrong.
    pub fn from_json(v: &JsonValue) -> (r: Result<TickerState, DecodeError>)
        ensures
            res_view(r) == spec_decode_ticker(v@),
    {
        let slots = match v {
            JsonValue::Array(items) => items,
            _ => {
                return Err(DecodeError::UnrecognizedShape);
            },
        };
        proof {
            assert(v@ == JsonModel::Array(elems_view(*slots)));
            assert(elems_view(*slots).len() == slots@.len());
        }
        if slots.len() != 4 {
            return Err(DecodeError::ArityMismatch);
        }
        proof {
            assert(elems_view(*slots)[0] == slots@[0]@);
            assert(elems_view(*slots)[1] == slots@[1]@);
            assert(elems_view(*slots)[3] == slots@[3]@);
        }
        let channel_id = match &slots[0] {
            JsonValue::UInt(n) => *n,
            _ => {
                return Err(DecodeError::MissingChannelId);
            },
        };
        let entries = match &slots[1] {
            JsonValue::Object(es) => es,
            _ => {
                return Err(DecodeError::FieldTypeMismatch(FieldLoc::Index(1)));
            },
        };
        let ask = match bidask_field(entries, 'a') {
            Ok(x) => x,
            Err(e) => {
                return Err(e);
            },
        };
        let bid = match bidask_field(entries, 'b') {
            Ok(x) => x,
            Err(e) => {
                return Err(e);
            },
        };
        let close = match dual_dec_field(entries, 'c') {
            Ok(x) => x,
            Err(e) => {
                return Err(e);
            },
        };
        let volume = match dual_dec_field(entries, 'v') {
            Ok(x) => x,
            Err(e) => {
                return Err(e);
            },
        };
        let volume_weighted_avg_price = match dual_dec_field(entries, 'p') {
            Ok(x) => x,
            Err(e) => {
                return Err(e);
            },
        };
        let trade_count = match dual_int_field(entries, 't') {
            Ok(x) => x,
            Err(e) => {
                return Err(e);
            },
        };
        let low_price = match dual_dec_field(entries, 'l') {
            Ok(x) => x,
            Err(e) => {
                return Err(e);
            },
        };
        let high_price = match dual_dec_field(entries, 'h') {
            Ok(x) => x,
            Err(e) => {
                return Err(e);
            },
        };
        let open_price = match dual_dec_field(entries, 'o') {
            Ok(x) => x,
            Err(e) => {
                return Err(e);
            },
        };
        let pair = match &slots[3] {
            JsonValue::Text(s) => s.clone(),
            _ => {
                return Err(DecodeError::MissingPair);
            },
        };
        Ok(
            TickerState {
                channel_id,
                pair,
                ask,
                bid,
                close,
                volume,
                volume_weighted_avg_price,
                trade_count,
                low_price,
                high_price,
                open_price,
            },
        )
    }
}

/// The canonical JSON shape of a bid/ask triple.
pub open spec fn spec_encode_bidask(b: BidAskModel) -> JsonModel {
    JsonModel::Array(
        seq![
            JsonModel::Text(b.price),
            JsonModel::UInt(b.whole_lot_volume),
            JsonModel::Text(b.lot_volume),
        ],
    )
}

/// The canonical JSON shape of a decimal today/trailing-24h pair.
pub open spec fn spec_encode_dual_dec(d: ValueMarker<Seq<char>>) -> JsonModel {
    JsonModel::Array(seq![JsonModel::Text(d.today), JsonModel::Text(d.last_24h)])
}

/// The canonical JSON shape of an integer today/trailing-24h pair.
pub open spec fn spec_encode_dual_int(d: ValueMarker<u64>) -> JsonModel {
    JsonModel::Array(seq![JsonModel::UInt(d.today), JsonModel::UInt(d.last_24h)])
}

/// The canonical JSON shape of a ticker record: the 4-slot array the
/// protocol sends, its payload object carrying exactly the nine keys in
/// the order a, b, c, v, p, t, l, h, o.
pub open spec fn spec_encode_ticker(t: TickerModel) -> JsonModel {
    JsonModel::Array(
        seq![
            JsonModel::UInt(t.channel_id),
            JsonModel::Object(
                seq![
                    (seq!['a'], spec_encode_bidask(t.ask)),
                    (seq!['b'], spec_encode_bidask(t.bid)),
                    (seq!['c'], spec_encode_dual_dec(t.close)),
                    (seq!['v'], spec_encode_dual_dec(t.volume)),
                    (seq!['p'], spec_encode_dual_dec(t.volume_weighted_avg_price)),
                    (seq!['t'], spec_encode_dual_int(t.trade_count)),
                    (seq!['l'], spec_encode_dual_dec(t.low_price)),
                    (seq!['h'], spec_encode_dual_dec(t.high_price)),
                    (seq!['o'], spec_encode_dual_dec(t.open_price)),
                ],
            ),
            JsonModel::Text("ticker"@),
            JsonModel::Text(t.pair),
        ],
    )
}

impl BidAskData {
    /// Encodes one side of the book back into its canonical triple.
    fn to_json(&self) -> (r: JsonValue)
        ensures
            r@ == spec_encode_bidask(self@),
    {
        let items: Vec<JsonValue> = vec![
            JsonValue::Text(self.price.clone()),
            JsonValue::UInt(self.whole_lot_volume),
            JsonValue::Text(self.lot_volume.clone()),
        ];
        proof {
            assert(elems_view(items) =~= spec_encode_bidask(self@)->Array_0);
        }
        JsonValue::Array(items)
    }
}

impl ValueMarker<String> {
    /// Encodes a decimal pair back into its canonical 2-element array.
    fn to_json(&self) -> (r: JsonValue)
        ensures
            r@ == spec_encode_dual_dec(self@),
    {
        let items: Vec<JsonValue> = vec![
            JsonValue::Text(self.today.clone()),
            JsonValue::Text(self.last_24h.clone()),
        ];
        proof {
            assert(elems_view(items) =~= spec_encode_dual_dec(self@)->Array_0);
        }
        JsonValue::Array(items)
    }
}

impl ValueMarker<u64> {
    /// Encodes an integer pair back into its canonical 2-element array.
    fn to_json(&self) -> (r: JsonValue)
        ensures
            r@ == spec_encode_dual_int(self@),
    {
        let items: Vec<JsonValue> = vec![
            JsonValue::UInt(self.today),
            JsonValue::UInt(self.last_24h),
        ];
        proof {
            assert(elems_view(items) =~= spec_encode_dual_int(self@)->Array_0);
        }
        JsonValue::Array(items)
    }
}

impl TickerState {
    /// Encodes the record back into the canonical payload shape it was
    /// decoded from.
    pub fn to_json(&self) -> (r: JsonValue)
        ensures
            r@ == spec_encode_ticker(self@),
    {
        proof {
            reveal_strlit("a");
            reveal_strlit("b");
            reveal_strlit("c");
            reveal_strlit("v");
            reveal_strlit("p");
            reveal_strlit("t");
            reveal_strlit("l");
            reveal_strlit("h");
            reveal_strlit("o");
        }
        let entries: Vec<(String, JsonValue)> = vec![
            (String::from_str("a"), self.ask.to_json()),
            (String::from_str("b"), self.bid.to_json()),
            (String::from_str("c"), self.close.to_json()),
            (String::from_str("v"), self.volume.to_json()),
            (String::from_str("p"), self.volume_weighted_avg_price.to_json()),
            (String::from_str("t"), self.trade_count.to_json()),
            (String::from_str("l"), self.low_price.to_json()),
            (String::from_str("h"), self.high_price.to_json()),
            (String::from_str("o"), self.open_price.to_json()),
        ];
        proof {
            assert("a"@ =~= seq!['a']);
            assert("b"@ =~= seq!['b']);
            assert("c"@ =~= seq!['c']);
            assert("v"@ =~= seq!['v']);
            assert("p"@ =~= seq!['p']);
            assert("t"@ =~= seq!['t']);
            assert("l"@ =~= seq!['l']);
            assert("h"@ =~= seq!['h']);
            assert("o"@ =~= seq!['o']);
            assert(entries_view(entries) =~= spec_encode_ticker(self@)->Array_0[1]->Object_0);
        }
        let payload = JsonValue::Object(entries);
        let outer: Vec<JsonValue> = vec![
            JsonValue::UInt(self.channel_id),
            payload,
            JsonValue::Text(String::from_str("ticker")),
            JsonValue::Text(self.pair.clone()),
        ];
        proof {
            assert(elems_view(outer) =~= spec_encode_ticker(self@)->Array_0);
        }
        JsonValue::Array(outer)
    }
}

/// The value under a key is found by the first entry carrying it,
/// wherever that entry stands.
pub proof fn lemma_lookup_at(es: Seq<(Seq<char>, JsonModel)>, key: char, i: int)
    requires
        0 <= i < es.len(),
        es[i].0 == seq![key],
        forall|j: int| 0 <= j < i ==> (#[trigger] es[j].0) != seq![key],
    ensures
        spec_lookup(es, key) == Some(es[i].1),
    decreases i,
{
    if i == 0 {
    } else {
        assert(es[0].0 != seq![key]);
        lemma_lookup_at(es.skip(1), key, i - 1);
        assert(es.skip(1)[i - 1] == es[i]);
    }
}

/// Two one-character keys differ as soon as their characters do.
pub proof fn lemma_singleton_neq(a: char, b: char)
    requires
        a != b,
    ensures
        seq![a] != seq![b],
{
    assert(seq![a][0] == a);
    assert(seq![b][0] == b);
}

/// Encoding a ticker record into its canonical payload shape and
/// decoding it again reproduces the record exactly: the round trip loses
/// nothing, in particular no decimal text.
pub proof fn lemma_ticker_round_trip(t: TickerModel)
    ensures
        spec_decode_ticker(spec_encode_ticker(t)) == Ok::<TickerModel, DecodeError>(t),
{
    let m = spec_encode_ticker(t);
    let es = m->Array_0[1]->Object_0;
    lemma_singleton_neq('a', 'b');
    lemma_singleton_neq('a', 'c');
    lemma_singleton_neq('b', 'c');
    lemma_singleton_neq('a', 'v');
    lemma_singleton_neq('b', 'v');
    lemma_singleton_neq('c', 'v');
    lemma_singleton_neq('a', 'p');
    lemma_singleton_neq('b', 'p');
    lemma_singleton_neq('c', 'p');
    lemma_singleton_neq('v', 'p');
    lemma_singleton_neq('a', 't');
    lemma_singleton_neq('b', 't');
    lemma_singleton_neq('c', 't');
    lemma_singleton_neq('v', 't');
    lemma_singleton_neq('p', 't');
    lemma_singleton_neq('a', 'l');
    lemma_singleton_neq('b', 'l');
    lemma_singleton_neq('c', 'l');
    lemma_singleton_neq('v', 'l');
    lemma_singleton_neq('p', 'l');
    lemma_singleton_neq('t', 'l');
    lemma_singleton_neq('a', 'h');
    lemma_singleton_neq('b', 'h');
    lemma_singleton_neq('c', 'h');
    lemma_singleton_neq('v', 'h');
    lemma_singleton_neq('p', 'h');
    lemma_singleton_neq('t', 'h');
    lemma_singleton_neq('l', 'h');
    lemma_singleton_neq('a', 'o');
    lemma_singleton_neq('b', 'o');
    lemma_singleton_neq('c', 'o');
    lemma_singleton_neq('v', 'o');
    lemma_singleton_neq('p', 'o');
    lemma_singleton_neq('t', 'o');
    lemma_singleton_neq('l', 'o');
    lemma_singleton_neq('h', 'o');
    lemma_lookup_at(es, 'a', 0);
    lemma_lookup_at(es, 'b', 1);
    lemma_lookup_at(es, 'c', 2);
    lemma_lookup_at(es, 'v', 3);
    lemma_lookup_at(es, 'p', 4);
    lemma_lookup_at(es, 't', 5);
    lemma_lookup_at(es, 'l', 6);
    lemma_lookup_at(es, 'h', 7);
    lemma_lookup_at(es, 'o', 8);
    assert(spec_bidask_field(es, 'a') == Ok::<BidAskModel, DecodeError>(t.ask));
    assert(spec_bidask_field(es, 'b') == Ok::<BidAskModel, DecodeError>(t.bid));
    assert(spec_dual_dec_field(es, 'c') == Ok::<ValueMarker<Seq<char>>, DecodeError>(t.close));
    assert(spec_dual_dec_field(es, 'v') == Ok::<ValueMarker<Seq<char>>, DecodeError>(t.volume));
    assert(spec_dual_dec_field(es, 'p') == Ok::<ValueMarker<Seq<char>>, DecodeError>(
        t.volume_weighted_avg_price,
    ));
    assert(spec_dual_int_field(es, 't') == Ok::<ValueMarker<u64>, DecodeError>(t.trade_count));
    assert(spec_dual_dec_field(es, 'l') == Ok::<ValueMarker<Seq<char>>, DecodeError>(t.low_price));
    assert(spec_dual_dec_field(es, 'h') == Ok::<ValueMarker<Seq<char>>, DecodeError>(
        t.high_price,
    ));
    assert(spec_dual_dec_field(es, 'o') == Ok::<ValueMarker<Seq<char>>, DecodeError>(
        t.open_price,
    ));
}

/// A well-shaped bid/ask payload value: present, a 3-element array of
/// string, number, string.
pub open spec fn spec_bidask_value_ok(v: Option<JsonModel>) -> bool {
    v matches Some(a) && a is Array && a->Array_0.len() == 3 && a->Array_0[0] is Text
        && a->Array_0[1] is UInt && a->Array_0[2] is Text
}

/// A well-shaped decimal pair payload value: present, a 2-element array
/// of strings.
pub open spec fn spec_dual_dec_value_ok(v: Option<JsonModel>) -> bool {
    v matches Some(d) && d is Array && d->Array_0.len() == 2 && d->Array_0[0] is Text
        && d->Array_0[1] is Text
}

/// A well-shaped integer pair payload value: present, a 2-element array
/// of numbers.
pub open spec fn spec_dual_int_value_ok(v: Option<JsonModel>) -> bool {
    v matches Some(d) && d is Array && d->Array_0.len() == 2 && d->Array_0[0] is UInt
        && d->Array_0[1] is UInt
}

/// A valid ticker array: 4 slots, an integer channel id, a payload
/// object whose nine keys are present and well shaped, and a pair-name
/// string; whatever else the object holds does not matter.
pub open spec fn spec_ticker_shape_ok(m: JsonModel) -> bool {
    &&& m is Array
    &&& m->Array_0.len() == 4
    &&& m->Array_0[0] is UInt
    &&& m->Array_0[1] is Object
    &&& spec_bidask_value_ok(spec_lookup(m->Array_0[1]->Object_0, 'a'))
    &&& spec_bidask_value_ok(spec_lookup(m->Array_0[1]->Object_0, 'b'))
    &&& spec_dual_dec_value_ok(spec_lookup(m->Array_0[1]->Object_0, 'c'))
    &&& spec_dual_dec_value_ok(spec_lookup(m->Array_0[1]->Object_0, 'v'))
    &&& spec_dual_dec_value_ok(spec_lookup(m->Array_0[1]->Object_0, 'p'))
    &&& spec_dual_int_value_ok(spec_lookup(m->Array_0[1]->Object_0, 't'))
    &&& spec_dual_dec_value_ok(spec_lookup(m->Array_0[1]->Object_0, 'l'))
    &&& spec_dual_dec_value_ok(spec_lookup(m->Array_0[1]->Object_0, 'h'))
    &&& spec_dual_dec_value_ok(spec_lookup(m->Array_0[1]->Object_0, 'o'))
    &&& m->Array_0[3] is Text
}

/// Every valid ticker array decodes to a record, and only valid ones do:
/// decoding succeeds exactly on the documented shape.
pub proof fn lemma_ticker_decodes_iff_valid(m: JsonModel)
    ensures
        spec_decode_ticker(m) is Ok <==> spec_ticker_shape_ok(m),
{
}

/// A payload missing any required key fails with exactly that missing
/// field, however the other eight are shaped as long as they are valid.
pub proof fn lemma_ticker_missing_key(m: JsonModel, k: char)
    requires
        m is Array && m->Array_0.len() == 4,
        m->Array_0[0] is UInt,
        m->Array_0[1] is Object,
        m->Array_0[3] is Text,
        k == 'a' || k == 'b' || k == 'c' || k == 'v' || k == 'p' || k == 't' || k == 'l' || k
            == 'h' || k == 'o',
        spec_lookup(m->Array_0[1]->Object_0, k) is None,
        k != 'a' ==> spec_bidask_value_ok(spec_lookup(m->Array_0[1]->Object_0, 'a')),
        k != 'b' ==> spec_bidask_value_ok(spec_lookup(m->Array_0[1]->Object_0, 'b')),
        k != 'c' ==> spec_dual_dec_value_ok(spec_lookup(m->Array_0[1]->Object_0, 'c')),
        k != 'v' ==> spec_dual_dec_value_ok(spec_lookup(m->Array_0[1]->Object_0, 'v')),
        k != 'p' ==> spec_dual_dec_value_ok(spec_lookup(m->Array_0[1]->Object_0, 'p')),
        k != 't' ==> spec_dual_int_value_ok(spec_lookup(m->Array_0[1]->Object_0, 't')),
        k != 'l' ==> spec_dual_dec_value_ok(spec_lookup(m->Array_0[1]->Object_0, 'l')),
        k != 'h' ==> spec_dual_dec_value_ok(spec_lookup(m->Array_0[1]->Object_0, 'h')),
        k != 'o' ==> spec_dual_dec_value_ok(spec_lookup(m->Array_0[1]->Object_0, 'o')),
    ensures
        spec_decode_ticker(m) == Err::<TickerModel, DecodeError>(DecodeError::MissingField(k)),
{
}

/// Whenever ticker decoding succeeds, every decimal field of the record
/// is byte for byte the string that stood in the corresponding payload
/// slot, and the integers are the numbers that stood there.
pub proof fn lemma_ticker_decimal_fidelity(m: JsonModel, t: TickerModel)
    requires
        spec_decode_ticker(m) == Ok::<TickerModel, DecodeError>(t),
    ensures
        m is Array && m->Array_0.len() == 4,
        m->Array_0[0] == JsonModel::UInt(t.channel_id),
        m->Array_0[1] is Object,
        (spec_lookup(m->Array_0[1]->Object_0, 'a') matches Some(a) && a->Array_0
            == seq![
            JsonModel::Text(t.ask.price),
            JsonModel::UInt(t.ask.whole_lot_volume),
            JsonModel::Text(t.ask.lot_volume),
        ]),
        (spec_lookup(m->Array_0[1]->Object_0, 'b') matches Some(b) && b->Array_0
            == seq![
            JsonModel::Text(t.bid.price),
            JsonModel::UInt(t.bid.whole_lot_volume),
            JsonModel::Text(t.bid.lot_volume),
        ]),
        (spec_lookup(m->Array_0[1]->Object_0, 'c') matches Some(c) && c->Array_0
            == seq![JsonModel::Text(t.close.today), JsonModel::Text(t.close.last_24h)]),
        (spec_lookup(m->Array_0[1]->Object_0, 'v') matches Some(v) && v->Array_0
            == seq![JsonModel::Text(t.volume.today), JsonModel::Text(t.volume.last_24h)]),
        (spec_lookup(m->Array_0[1]->Object_0, 'p') matches Some(p) && p->Array_0
            == seq![
            JsonModel::Text(t.volume_weighted_avg_price.today),
            JsonModel::Text(t.volume_weighted_avg_price.last_24h),
        ]),
        (spec_lookup(m->Array_0[1]->Object_0, 't') matches Some(tc) && tc->Array_0
            == seq![
            JsonModel::UInt(t.trade_count.today),
            JsonModel::UInt(t.trade_count.last_24h),
        ]),
        (spec_lookup(m->Array_0[1]->Object_0, 'l') matches Some(l) && l->Array_0
            == seq![JsonModel::Text(t.low_price.today), JsonModel::Text(t.low_price.last_24h)]),
        (spec_lookup(m->Array_0[1]->Object_0, 'h') matches Some(h) && h->Array_0
            == seq![JsonModel::Text(t.high_price.today), JsonModel::Text(t.high_price.last_24h)]),
        (spec_lookup(m->Array_0[1]->Object_0, 'o') matches Some(o) && o->Array_0
            == seq![JsonModel::Text(t.open_price.today), JsonModel::Text(t.open_price.last_24h)]),
        m->Array_0[3] == JsonModel::Text(t.pair),
{
    let es = m->Array_0[1]->Object_0;
    let a = spec_lookup(es, 'a')->Some_0;
    assert(a->Array_0 =~= seq![
        JsonModel::Text(t.ask.price),
        JsonModel::UInt(t.ask.whole_lot_volume),
        JsonModel::Text(t.ask.lot_volume),
    ]);
    let b = spec_lookup(es, 'b')->Some_0;
    assert(b->Array_0 =~= seq![
        JsonModel::Text(t.bid.price),
        JsonModel::UInt(t.bid.whole_lot_volume),
        JsonModel::Text(t.bid.lot_volume),
    ]);
    let c = spec_lookup(es, 'c')->Some_0;
    assert(c->Array_0 =~= seq![JsonModel::Text(t.close.today), JsonModel::Text(t.close.last_24h)]);
    let v = spec_lookup(es, 'v')->Some_0;
    assert(v->Array_0 =~= seq![
        JsonModel::Text(t.volume.today),
        JsonModel::Text(t.volume.last_24h),
    ]);
    let p = spec_lookup(es, 'p')->Some_0;
    assert(p->Array_0 =~= seq![
        JsonModel::Text(t.volume_weighted_avg_price.today),
        JsonModel::Text(t.volume_weighted_avg_price.last_24h),
    ]);
    let tc = spec_lookup(es, 't')->Some_0;
    assert(tc->Array_0 =~= seq![
        JsonModel::UInt(t.trade_count.today),
        JsonModel::UInt(t.trade_count.last_24h),
    ]);
    let l = spec_lookup(es, 'l')->Some_0;
    assert(l->Array_0 =~= seq![
        JsonModel::Text(t.low_price.today),
        JsonModel::Text(t.low_price.last_24h),
    ]);
    let h = spec_lookup(es, 'h')->Some_0;
    assert(h->Array_0 =~= seq![
        JsonModel::Text(t.high_price.today),
        JsonModel::Text(t.high_price.last_24h),
    ]);
    let o = spec_lookup(es, 'o')->Some_0;
    assert(o->Array_0 =~= seq![
        JsonModel::Text(t.open_price.today),
        JsonModel::Text(t.open_price.last_24h),
    ]);
}

/// An entry under a key the decoder never asks for does not change what
/// any lookup of another key finds, wherever the entry is inserted.
pub proof fn lemma_lookup_insert_other(
    es: Seq<(Seq<char>, JsonModel)>,
    i: int,
    entry: (Seq<char>, JsonModel),
    key: char,
)
    requires
        0 <= i <= es.len(),
        entry.0 != seq![key],
    ensures
        spec_lookup(es.insert(i, entry), key) == spec_lookup(es, key),
    decreases i,
{
    let es2 = es.insert(i, entry);
    if i == 0 {
        assert(es2.skip(1) =~= es);
    } else {
        assert(es2[0] == es[0]);
        if es[0].0 == seq![key] {
        } else {
            assert(es2.skip(1) =~= es.skip(1).insert(i - 1, entry));
            lemma_lookup_insert_other(es.skip(1), i - 1, entry, key);
        }
    }
}

/// A payload object with an extra, unknown key decodes exactly as the
/// object without it: excess keys are ignored, wherever they stand.
pub proof fn lemma_ticker_extra_key_ignored(
    slots: Seq<JsonModel>,
    es: Seq<(Seq<char>, JsonModel)>,
    i: int,
    entry: (Seq<char>, JsonModel),
)
    requires
        slots.len() == 4,
        slots[1] == JsonModel::Object(es),
        0 <= i <= es.len(),
        entry.0 != seq!['a'],
        entry.0 != seq!['b'],
        entry.0 != seq!['c'],
        entry.0 != seq!['v'],
        entry.0 != seq!['p'],
        entry.0 != seq!['t'],
        entry.0 != seq!['l'],
        entry.0 != seq!['h'],
        entry.0 != seq!['o'],
    ensures
        spec_decode_ticker(
            JsonModel::Array(slots.update(1, JsonModel::Object(es.insert(i, entry)))),
        ) == spec_decode_ticker(JsonModel::Array(slots)),
{
    let es2 = es.insert(i, entry);
    let slots2 = slots.update(1, JsonModel::Object(es2));
    lemma_lookup_insert_other(es, i, entry, 'a');
    lemma_lookup_insert_other(es, i, entry, 'b');
    lemma_lookup_insert_other(es, i, entry, 'c');
    lemma_lookup_insert_other(es, i, entry, 'v');
    lemma_lookup_insert_other(es, i, entry, 'p');
    lemma_lookup_insert_other(es, i, entry, 't');
    lemma_lookup_insert_other(es, i, entry, 'l');
    lemma_lookup_insert_other(es, i, entry, 'h');
    lemma_lookup_insert_other(es, i, entry, 'o');
    assert(spec_bidask_field(es2, 'a') == spec_bidask_field(es, 'a'));
    assert(spec_bidask_field(es2, 'b') == spec_bidask_field(es, 'b'));
    assert(spec_dual_dec_field(es2, 'c') == spec_dual_dec_field(es, 'c'));
    assert(spec_dual_dec_field(es2, 'v') == spec_dual_dec_field(es, 'v'));
    assert(spec_dual_dec_field(es2, 'p') == spec_dual_dec_field(es, 'p'));
    assert(spec_dual_int_field(es2, 't') == spec_dual_int_field(es, 't'));
    assert(spec_dual_dec_field(es2, 'l') == spec_dual_dec_field(es, 'l'));
    assert(spec_dual_dec_field(es2, 'h') == spec_dual_dec_field(es, 'h'));
    assert(spec_dual_dec_field(es2, 'o') == spec_dual_dec_field(es, 'o'));
    assert(slots2[0] == slots[0]);
    assert(slots2[2] == slots[2]);
    assert(slots2[3] == slots[3]);
    assert(slots2.len() == 4);
}

} // verus!
