use vstd::prelude::*;

use crate::error::{opt_view, DecodeError};
use crate::json::{json_of_text, parse_json, JsonModel, JsonValue};
use crate::ohlc::{spec_decode_ohlc, Ohlc, OhlcModel};
use crate::ticker::{spec_decode_ticker, TickerModel, TickerState};

verus! {

/// One decoded market-data message: the closed set of record kinds the
/// library understands.
#[derive(Debug, Clone, PartialEq, Eq, Hash)]
pub enum Resp {
    Ticker(TickerState),
    Ohlc(Ohlc),
}

/// The mathematical model of a `Resp`.
pub enum RespModel {
    Ticker(TickerModel),
    Ohlc(OhlcModel),
}

impl View for Resp {
    type V = RespModel;

    open spec fn view(&self) -> RespModel {
        match self {
            Resp::Ticker(t) => RespModel::Ticker(t@),
            Resp::Ohlc(o) => RespModel::Ohlc(o@),
        }
    }
}

/// What dispatch makes of one parsed JSON document: the ticker decoder is
/// tried first, then the OHLC decoder, and a document both refuse is
/// skipped — by shape alone, never by an explicit discriminant.
pub open spec fn spec_dispatch(m: JsonModel) -> Option<RespModel> {
    match spec_decode_ticker(m) {
        Ok(t) => Some(RespModel::Ticker(t)),
        Err(_) => match spec_decode_ohlc(m) {
            Ok(o) => Some(RespModel::Ohlc(o)),
            Err(_) => None,
        },
    }
}

/// What decoding raw text yields: nothing for text that is not valid
/// JSON, otherwise whatever dispatch makes of the document.
pub open spec fn spec_decode_message(s: Seq<char>) -> Option<RespModel> {
    match json_of_text(s) {
        None => None,
        Some(m) => spec_dispatch(m),
    }
}

impl Resp {
    /// Routes one parsed JSON document to the decoder whose shape it has;
    /// a document neither decoder accepts is skipped silently.
    pub fn from_json(v: &JsonValue) -> (r: Option<Resp>)
        ensures
            opt_view(r) == spec_dispatch(v@),
    {
        match TickerState::from_json(v) {
            Ok(t) => Some(Resp::Ticker(t)),
            Err(_) => match Ohlc::from_json(v) {
                Ok(o) => Some(Resp::Ohlc(o)),
                Err(_) => None,
            },
        }
    }
}

/// Parses raw message text into a JSON document, or reports that the text
/// is not JSON at all.
pub fn parse_message(text: &str) -> (r: Result<JsonValue, DecodeError>)
    ensures
        match r {
            Ok(v) => json_of_text(text@) == Some(v@),
            Err(e) => e == DecodeError::MalformedJson && json_of_text(text@) is None,
        },
{
    match parse_json(text) {
        Some(v) => Ok(v),
        None => Err(DecodeError::MalformedJson),
    }
}

/// Decodes one raw text frame into a typed record, skipping silently both
/// text that is not valid JSON and documents of unrecognized shape: the
/// stream carries heartbeats and status frames that are not data.
pub fn decode_message(text: &str) -> (r: Option<Resp>)
    ensures
        opt_view(r) == spec_decode_message(text@),
{
    match parse_json(text) {
        None => None,
        Some(v) => Resp::from_json(&v),
    }
}

/// Decoding holds no hidden state: what comes out is a function of the
/// text alone, so decoding the same text a second time yields the same
/// record, or the same skip.
pub proof fn lemma_decode_idempotent(s1: Seq<char>, s2: Seq<char>)
    requires
        s1 == s2,
    ensures
        spec_decode_message(s1) == spec_decode_message(s2),
{
}

} // verus!
