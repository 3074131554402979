use vstd::prelude::*;

verus! {

/// Where a wrongly-typed slot was found: a position of a positional
/// payload, or a named key of the ticker payload object.
#[derive(Clone, Copy, Debug, PartialEq, Eq, Structural)]
pub enum FieldLoc {
    Index(usize),
    Key(char),
}

/// Everything that can go wrong while decoding one message. Decoding is
/// fail-fast: the first structural error aborts the whole record.
#[derive(Clone, Copy, Debug, PartialEq, Eq, Structural)]
pub enum DecodeError {
    /// The text is not valid JSON.
    MalformedJson,
    /// An array has the wrong element count at some nesting level.
    ArityMismatch,
    /// A scalar or sub-array has the wrong JSON type for its expected slot.
    FieldTypeMismatch(FieldLoc),
    /// An expected named key of the payload object is absent.
    MissingField(char),
    /// The first slot is not an unsigned integer channel id.
    MissingChannelId,
    /// The last slot is not a pair-name string.
    MissingPair,
    /// A bid/ask triple does not follow the order decimal, integer, decimal.
    BidAskShapeMismatch,
    /// A scalar position holds neither an unsigned integer nor a string.
    UnexpectedScalarShape,
    /// The message matches neither known record shape.
    UnrecognizedShape,
}

/// The model of a fallible decode result: the value through its view, the
/// error as it is.
pub open spec fn res_view<T: View>(r: Result<T, DecodeError>) -> Result<T::V, DecodeError> {
    match r {
        Ok(t) => Ok(t@),
        Err(e) => Err(e),
    }
}

/// The model of an optional decode result.
pub open spec fn opt_view<T: View>(r: Option<T>) -> Option<T::V> {
    match r {
        Some(t) => Some(t@),
        None => None,
    }
}

} // verus!
