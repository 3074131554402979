use vstd::prelude::*;

use crate::error::{res_view, DecodeError, FieldLoc};
use crate::json::{elems_view, JsonModel, JsonValue};
use crate::scalar::{
    force_dec, force_int, normalize_scalar, spec_force_dec, spec_force_int, spec_normalize_scalar,
};

verus! {

/// One OHLC candle update: interval begin and end times, the four prices,
/// the volume-weighted average price and the volume as decimal text, and
/// the trade count.
#[derive(Debug, Clone, PartialEq, Eq, Hash)]
pub struct Ohlc {
    pub channel_id: u64,
    pub channel_name: String,
    pub pair: String,
    pub time: String,
    pub etime: String,
    pub open: String,
    pub high: String,
    pub low: String,
    pub close: String,
    pub vwap: String,
    pub volume: String,
    pub count: u64,
}

/// The mathematical model of an `Ohlc`.
pub struct OhlcModel {
    pub channel_id: u64,
    pub channel_name: Seq<char>,
    pub pair: Seq<char>,
    pub time: Seq<char>,
    pub etime: Seq<char>,
    pub open: Seq<char>,
    pub high: Seq<char>,
    pub low: Seq<char>,
    pub close: Seq<char>,
    pub vwap: Seq<char>,
    pub volume: Seq<char>,
    pub count: u64,
}

impl View for Ohlc {
    type V = OhlcModel;

    open spec fn view(&self) -> OhlcModel {
        OhlcModel {
            channel_id: self.channel_id,
            channel_name: self.channel_name@,
            pair: self.pair@,
            time: self.time@,
            etime: self.etime@,
            open: self.open@,
            high: self.high@,
            low: self.low@,
            close: self.close@,
            vwap: self.vwap@,
            volume: self.volume@,
            count: self.count,
        }
    }
}

/// The decimal text at one position of the 9-scalar payload; an integer
/// there is a type mismatch at that index, and a non-scalar is refused by
/// the normalizer.
pub open spec fn spec_dec_at(items: Seq<JsonModel>, i: int) -> Result<Seq<char>, DecodeError> {
    match spec_normalize_scalar(items[i]) {
        Err(e) => Err(e),
        Ok(s) => spec_force_dec(s, FieldLoc::Index(i as usize)),
    }
}

/// The integer at one position of the 9-scalar payload; decimal text
/// there is a type mismatch at that index.
pub open spec fn spec_int_at(items: Seq<JsonModel>, i: int) -> Result<u64, DecodeError> {
    match spec_normalize_scalar(items[i]) {
        Err(e) => Err(e),
        Ok(s) => spec_force_int(s, FieldLoc::Index(i as usize)),
    }
}

/// What decoding an OHLC update returns for every JSON document: the
/// message must be a 4-slot array of channel id, a 9-scalar positional
/// payload holding time, etime, open, high, low, close, vwap and volume
/// as decimals followed by an integer trade count, the channel name and
/// the pair, both strings copied verbatim; the first structural error
/// aborts the record, positions checked in order.
pub open spec fn spec_decode_ohlc(m: JsonModel) -> Result<OhlcModel, DecodeError> {
    match m {
        JsonModel::Array(slots) => {
            if slots.len() != 4 {
                Err(DecodeError::ArityMismatch)
            } else {
                match slots[0] {
                    JsonModel::UInt(channel_id) => match slots[1] {
                        JsonModel::Array(items) => {
                            if items.len() != 9 {
                                Err(DecodeError::ArityMismatch)
                            } else {
                                match spec_dec_at(items, 0) {
                                    Err(e) => Err(e),
                                    Ok(time) => match spec_dec_at(items, 1) {
                                        Err(e) => Err(e),
                                        Ok(etime) => match spec_dec_at(items, 2) {
                                            Err(e) => Err(e),
                                            Ok(open) => match spec_dec_at(items, 3) {
                                                Err(e) => Err(e),
                                                Ok(high) => match spec_dec_at(items, 4) {
                                                    Err(e) => Err(e),
                                                    Ok(low) => match spec_dec_at(items, 5) {
                                                        Err(e) => Err(e),
                                                        Ok(close) => match spec_dec_at(items, 6) {
                                                            Err(e) => Err(e),
                                                            Ok(vwap) => match spec_dec_at(
                                                                items,
                                                                7,
                                                            ) {
                                                                Err(e) => Err(e),
                                                                Ok(volume) => match spec_int_at(
                                                                    items,
                                                                    8,
                                                                ) {
                                                                    Err(e) => Err(e),
                                                                    Ok(count) => match slots[2] {
                                                                        JsonModel::Text(
                                                                            channel_name,
                                                                        ) => match slots[3] {
                                                                            JsonModel::Text(
                                                                                pair,
                                                                            ) => Ok(
                                                                                OhlcModel {
                                                                                    channel_id,
                                                                                    channel_name,
                                                                                    pair,
                                                                                    time,
                                                                                    etime,
                                                                                    open,
                                                                                    high,
                                                                                    low,
                                                                                    close,
                                                                                    vwap,
                                                                                    volume,
                                                                                    count,
                                                                                },
                                                                            ),
                                                                            _ => Err(
                                                                                DecodeError::MissingPair,
                                                                            ),
                                                                        },
                                                                        _ => Err(
                                                                            DecodeError::FieldTypeMismatch(
                                                                                FieldLoc::Index(2),
                                                                            ),
                                                                        ),
                                                                    },
                                                                },
                                                            },
                                                        },
                                                    },
                                                },
                                            },
                                        },
                                    },
                                }
                            }
                        },
                        _ => Err(DecodeError::FieldTypeMismatch(FieldLoc::Index(1))),
                    },
                    _ => Err(DecodeError::MissingChannelId),
                }
            }
        },
        _ => Err(DecodeError::UnrecognizedShape),
    }
}

/// Reads the decimal text at one payload position.
fn dec_at(items: &Vec<JsonValue>, i: usize) -> (r: Result<String, DecodeError>)
    requires
        i < items@.len(),
    ensures
        res_view(r) == spec_dec_at(elems_view(*items), i as int),
{
    match normalize_scalar(&items[i]) {
        Ok(s) => force_dec(&s, FieldLoc::Index(i)),
        Err(e) => Err(e),
    }
}

/// Reads the integer at one payload position.
fn int_at(items: &Vec<JsonValue>, i: usize) -> (r: Result<u64, DecodeError>)
    requires
        i < items@.len(),
    ensures
        res_view(r) == spec_int_at(elems_view(*items), i as int),
{
    match normalize_scalar(&items[i]) {
        Ok(s) => force_int(&s, FieldLoc::Index(i)),
        Err(e) => Err(e),
    }
}

impl Ohlc {
    /// Decodes one OHLC update from its positional 4-slot array,
    /// returning the first structural error where the shape is wrong.
    pub fn from_json(v: &JsonValue) -> (r: Result<Ohlc, DecodeError>)
        ensures
            res_view(r) == spec_decode_ohlc(v@),
    {
        let slots = match v {
            JsonValue::Array(items) => items,
            _ => {
                return Err(DecodeError::UnrecognizedShape);
            },
        };
        proof {
            assert(v@ == JsonModel::Array(elems_view(*slots)));
            assert(elems_view(*slots).len() == slots@.len());
        }
        if slots.len() != 4 {
            return Err(DecodeError::ArityMismatch);
        }
        proof {
            assert(elems_view(*slots)[0] == slots@[0]@);
            assert(elems_view(*slots)[1] == slots@[1]@);
            assert(elems_view(*slots)[2] == slots@[2]@);
            assert(elems_view(*slots)[3] == slots@[3]@);
        }
        let channel_id = match &slots[0] {
            JsonValue::UInt(n) => *n,
            _ => {
                return Err(DecodeError::MissingChannelId);
            },
        };
        let items = match &slots[1] {
            JsonValue::Array(xs) => xs,
            _ => {
                return Err(DecodeError::FieldTypeMismatch(FieldLoc::Index(1)));
            },
        };
        proof {
            assert(slots@[1]@ == JsonModel::Array(elems_view(*items)));
            assert(elems_view(*items).len() == items@.len());
        }
        if items.len() != 9 {
            return Err(DecodeError::ArityMismatch);
        }
        let time = match dec_at(items, 0) {
            Ok(s) => s,
            Err(e) => {
                return Err(e);
            },
        };
        let etime = match dec_at(items, 1) {
            Ok(s) => s,
            Err(e) => {
                return Err(e);
            },
        };
        let open = match dec_at(items, 2) {
            Ok(s) => s,
            Err(e) => {
                return Err(e);
            },
        };
        let high = match dec_at(items, 3) {
            Ok(s) => s,
            Err(e) => {
                return Err(e);
            },
        };
        let low = match dec_at(items, 4) {
            Ok(s) => s,
            Err(e) => {
                return Err(e);
            },
        };
        let close = match dec_at(items, 5) {
            Ok(s) => s,
            Err(e) => {
                return Err(e);
            },
        };
        let vwap = match dec_at(items, 6) {
            Ok(s) => s,
            Err(e) => {
                return Err(e);
            },
        };
        let volume = match dec_at(items, 7) {
            Ok(s) => s,
            Err(e) => {
                return Err(e);
            },
        };
        let count = match int_at(items, 8) {
            Ok(n) => n,
            Err(e) => {
                return Err(e);
            },
        };
        let channel_name = match &slots[2] {
            JsonValue::Text(s) => s.clone(),
            _ => {
                return Err(DecodeError::FieldTypeMismatch(FieldLoc::Index(2)));
            },
        };
        let pair = match &slots[3] {
            JsonValue::Text(s) => s.clone(),
            _ => {
                return Err(DecodeError::MissingPair);
            },
        };
        Ok(
            Ohlc {
                channel_id,
                channel_name,
                pair,
                time,
                etime,
                open,
                high,
                low,
                close,
                vwap,
                volume,
                count,
            },
        )
    }
}

/// The canonical JSON shape of an OHLC record: the 4-slot array the
/// protocol sends, with the 9-scalar payload in its documented order.
pub open spec fn spec_encode_ohlc(o: OhlcModel) -> JsonModel {
    JsonModel::Array(
        seq![
            JsonModel::UInt(o.channel_id),
            JsonModel::Array(
                seq![
                    JsonModel::Text(o.time),
                    JsonModel::Text(o.etime),
                    JsonModel::Text(o.open),
                    JsonModel::Text(o.high),
                    JsonModel::Text(o.low),
                    JsonModel::Text(o.close),
                    JsonModel::Text(o.vwap),
                    JsonModel::Text(o.volume),
                    JsonModel::UInt(o.count),
                ],
            ),
            JsonModel::Text(o.channel_name),
            JsonModel::Text(o.pair),
        ],
    )
}

impl Ohlc {
    /// Encodes the record back into the canonical payload shape it was
    /// decoded from.
    pub fn to_json(&self) -> (r: JsonValue)
        ensures
            r@ == spec_encode_ohlc(self@),
    {
        let inner: Vec<JsonValue> = vec![
            JsonValue::Text(self.time.clone()),
            JsonValue::Text(self.etime.clone()),
            JsonValue::Text(self.open.clone()),
            JsonValue::Text(self.high.clone()),
            JsonValue::Text(self.low.clone()),
            JsonValue::Text(self.close.clone()),
            JsonValue::Text(self.vwap.clone()),
            JsonValue::Text(self.volume.clone()),
            JsonValue::UInt(self.count),
        ];
        proof {
            assert(elems_view(inner) =~= spec_encode_ohlc(self@)->Array_0[1]->Array_0);
        }
        let payload = JsonValue::Array(inner);
        let outer: Vec<JsonValue> = vec![
            JsonValue::UInt(self.channel_id),
            payload,
            JsonValue::Text(self.channel_name.clone()),
            JsonValue::Text(self.pair.clone()),
        ];
        proof {
            assert(elems_view(outer) =~= spec_encode_ohlc(self@)->Array_0);
        }
        let r = JsonValue::Array(outer);
        r
    }
}

/// Encoding an OHLC record into its canonical payload shape and decoding
/// it again reproduces the record exactly: the round trip loses nothing,
/// in particular no decimal text.
pub proof fn lemma_ohlc_round_trip(o: OhlcModel)
    ensures
        spec_decode_ohlc(spec_encode_ohlc(o)) == Ok::<OhlcModel, DecodeError>(o),
{
}

/// Whenever OHLC decoding succeeds, every field of the record is the
/// verbatim content of its documented payload position: time, etime,
/// open, high, low, close, vwap and volume in order, then the trade
/// count, with the channel name and pair taken from the last two slots.
pub proof fn lemma_ohlc_field_order(m: JsonModel, o: OhlcModel)
    requires
        spec_decode_ohlc(m) == Ok::<OhlcModel, DecodeError>(o),
    ensures
        m is Array && m->Array_0.len() == 4,
        m->Array_0[0] == JsonModel::UInt(o.channel_id),
        m->Array_0[1] is Array && m->Array_0[1]->Array_0.len() == 9,
        m->Array_0[1]->Array_0[0] == JsonModel::Text(o.time),
        m->Array_0[1]->Array_0[1] == JsonModel::Text(o.etime),
        m->Array_0[1]->Array_0[2] == JsonModel::Text(o.open),
        m->Array_0[1]->Array_0[3] == JsonModel::Text(o.high),
        m->Array_0[1]->Array_0[4] == JsonModel::Text(o.low),
        m->Array_0[1]->Array_0[5] == JsonModel::Text(o.close),
        m->Array_0[1]->Array_0[6] == JsonModel::Text(o.vwap),
        m->Array_0[1]->Array_0[7] == JsonModel::Text(o.volume),
        m->Array_0[1]->Array_0[8] == JsonModel::UInt(o.count),
        m->Array_0[2] == JsonModel::Text(o.channel_name),
        m->Array_0[3] == JsonModel::Text(o.pair),
{
}

/// A valid OHLC array: 4 slots, an integer channel id, a 9-scalar
/// payload carrying eight decimal texts and then an integer count, and
/// the channel-name and pair strings.
pub open spec fn spec_ohlc_shape_ok(m: JsonModel) -> bool {
    &&& m is Array
    &&& m->Array_0.len() == 4
    &&& m->Array_0[0] is UInt
    &&& m->Array_0[1] is Array
    &&& m->Array_0[1]->Array_0.len() == 9
    &&& (forall|i: int| 0 <= i < 8 ==> (#[trigger] m->Array_0[1]->Array_0[i]) is Text)
    &&& m->Array_0[1]->Array_0[8] is UInt
    &&& m->Array_0[2] is Text
    &&& m->Array_0[3] is Text
}

/// Every valid OHLC array decodes to a record, and only valid ones do:
/// decoding succeeds exactly on the documented shape.
pub proof fn lemma_ohlc_decodes_iff_valid(m: JsonModel)
    ensures
        spec_decode_ohlc(m) is Ok <==> spec_ohlc_shape_ok(m),
{
    if spec_ohlc_shape_ok(m) {
        let items = m->Array_0[1]->Array_0;
        assert(items[0] is Text && items[1] is Text && items[2] is Text && items[3] is Text
            && items[4] is Text && items[5] is Text && items[6] is Text && items[7] is Text);
    }
    if spec_decode_ohlc(m) is Ok {
        let items = m->Array_0[1]->Array_0;
        assert forall|i: int| 0 <= i < 8 implies (#[trigger] items[i]) is Text by {
            if i == 0 {
                assert(spec_dec_at(items, 0) is Ok);
            } else if i == 1 {
                assert(spec_dec_at(items, 1) is Ok);
            } else if i == 2 {
                assert(spec_dec_at(items, 2) is Ok);
            } else if i == 3 {
                assert(spec_dec_at(items, 3) is Ok);
            } else if i == 4 {
                assert(spec_dec_at(items, 4) is Ok);
            } else if i == 5 {
                assert(spec_dec_at(items, 5) is Ok);
            } else if i == 6 {
                assert(spec_dec_at(items, 6) is Ok);
            } else {
                assert(spec_dec_at(items, 7) is Ok);
            }
        }
    }
}

/// A scalar of the wrong kind in an otherwise well-placed payload is
/// reported as a type mismatch at exactly its index: an integer at any of
/// the eight decimal positions, or decimal text at the trade-count
/// position, as happens when two adjacent slots of different kinds are
/// swapped.
pub proof fn lemma_ohlc_wrong_kind_detected(m: JsonModel, j: int)
    requires
        m is Array && m->Array_0.len() == 4,
        m->Array_0[0] is UInt,
        m->Array_0[1] is Array && m->Array_0[1]->Array_0.len() == 9,
        0 <= j < 9,
        forall|i: int| 0 <= i < j && i < 8 ==> (#[trigger] m->Array_0[1]->Array_0[i]) is Text,
        j < 8 ==> m->Array_0[1]->Array_0[j] is UInt,
        j == 8 ==> m->Array_0[1]->Array_0[8] is Text,
    ensures
        spec_decode_ohlc(m) == Err::<OhlcModel, DecodeError>(
            DecodeError::FieldTypeMismatch(FieldLoc::Index(j as usize)),
        ),
{
    let items = m->Array_0[1]->Array_0;
    if j == 0 {
        assert(spec_dec_at(items, 0) is Err);
    } else if j == 1 {
        assert(items[0] is Text);
    } else if j == 2 {
        assert(items[0] is Text && items[1] is Text);
    } else if j == 3 {
        assert(items[0] is Text && items[1] is Text && items[2] is Text);
    } else if j == 4 {
        assert(items[0] is Text && items[1] is Text && items[2] is Text && items[3] is Text);
    } else if j == 5 {
        assert(items[0] is Text && items[1] is Text && items[2] is Text && items[3] is Text
            && items[4] is Text);
    } else if j == 6 {
        assert(items[0] is Text && items[1] is Text && items[2] is Text && items[3] is Text
            && items[4] is Text && items[5] is Text);
    } else if j == 7 {
        assert(items[0] is Text && items[1] is Text && items[2] is Text && items[3] is Text
            && items[4] is Text && items[5] is Text && items[6] is Text);
    } else {
        assert(items[0] is Text && items[1] is Text && items[2] is Text && items[3] is Text
            && items[4] is Text && items[5] is Text && items[6] is Text && items[7] is Text);
    }
}

} // verus!
