//! Decoding for a market-data exchange's push protocol, whose updates
//! arrive as fixed-length JSON arrays with position-dependent, mixed-type
//! slots. The library turns raw text into typed ticker and OHLC records,
//! keeping every decimal as its exact original text, rejects malformed
//! payloads with precise errors, and encodes outbound requests; the
//! decoders, the dispatcher and the request encoder are verified against
//! the contracts stated on them.

mod error;
mod json;
mod ohlc;
mod req;
mod resp;
mod scalar;
mod ticker;

pub use error::{res_view, DecodeError, FieldLoc};
pub use json::{json_of_text, lookup, spec_lookup, JsonModel, JsonValue};
pub use ohlc::{
    lemma_ohlc_decodes_iff_valid, lemma_ohlc_field_order, lemma_ohlc_round_trip,
    lemma_ohlc_wrong_kind_detected, spec_decode_ohlc, spec_encode_ohlc, spec_ohlc_shape_ok, Ohlc,
    OhlcModel,
};
pub use req::{
    spec_subscription_text, spec_ws_req_text, BookDepth, OhlcInterval, Subscription,
    SubscriptionModel, WsReq, WsReqModel,
};
pub use resp::{
    decode_message, lemma_decode_idempotent, parse_message, spec_decode_message, spec_dispatch,
    Resp, RespModel,
};
pub use scalar::{
    force_dec, force_int, normalize_scalar, spec_normalize_scalar, ScalarModel, ScalarValue,
};
pub use ticker::{
    lemma_ticker_decimal_fidelity, lemma_ticker_decodes_iff_valid, lemma_ticker_extra_key_ignored,
    lemma_ticker_missing_key, lemma_ticker_round_trip, spec_decode_ticker, spec_encode_ticker,
    spec_ticker_shape_ok, BidAskData, BidAskModel, TickerModel, TickerState, ValueMarker,
};
