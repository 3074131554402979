use vstd::prelude::*;

use crate::error::{res_view, DecodeError, FieldLoc};
use crate::json::{JsonModel, JsonValue};

verus! {

/// One JSON leaf of the protocol: an unsigned integer, or a decimal kept
/// verbatim as its original text so that no precision is ever lost.
#[derive(Debug, Clone, PartialEq, Eq)]
pub enum ScalarValue {
    Integer(u64),
    Decimal(String),
}

/// The mathematical model of a `ScalarValue`.
pub enum ScalarModel {
    Integer(u64),
    Decimal(Seq<char>),
}

impl View for ScalarValue {
    type V = ScalarModel;

    open spec fn view(&self) -> ScalarModel {
        match self {
            ScalarValue::Integer(n) => ScalarModel::Integer(*n),
            ScalarValue::Decimal(s) => ScalarModel::Decimal(s@),
        }
    }
}

/// What the scalar normalizer makes of one JSON value: an unsigned 64-bit
/// number becomes `Integer`, a string becomes `Decimal` with its text kept
/// byte for byte, and every other shape is refused.
pub open spec fn spec_normalize_scalar(m: JsonModel) -> Result<ScalarModel, DecodeError> {
    match m {
        JsonModel::UInt(n) => Ok(ScalarModel::Integer(n)),
        JsonModel::Text(s) => Ok(ScalarModel::Decimal(s)),
        _ => Err(DecodeError::UnexpectedScalarShape),
    }
}

/// Classifies one JSON scalar, keeping decimal text verbatim.
pub fn normalize_scalar(v: &JsonValue) -> (r: Result<ScalarValue, DecodeError>)
    ensures
        res_view(r) == spec_normalize_scalar(v@),
{
    match v {
        JsonValue::UInt(n) => Ok(ScalarValue::Integer(*n)),
        JsonValue::Text(s) => Ok(ScalarValue::Decimal(s.clone())),
        _ => Err(DecodeError::UnexpectedScalarShape),
    }
}

/// The decimal text of a scalar that must be a decimal; a scalar of any
/// other kind is a type mismatch at the given slot.
pub open spec fn spec_force_dec(s: ScalarModel, loc: FieldLoc) -> Result<Seq<char>, DecodeError> {
    match s {
        ScalarModel::Decimal(text) => Ok(text),
        ScalarModel::Integer(_) => Err(DecodeError::FieldTypeMismatch(loc)),
    }
}

/// The value of a scalar that must be an integer; a scalar of any other
/// kind is a type mismatch at the given slot.
pub open spec fn spec_force_int(s: ScalarModel, loc: FieldLoc) -> Result<u64, DecodeError> {
    match s {
        ScalarModel::Integer(n) => Ok(n),
        ScalarModel::Decimal(_) => Err(DecodeError::FieldTypeMismatch(loc)),
    }
}

/// Insists that a scalar is a decimal, handing its text out verbatim.
pub fn force_dec(x: &ScalarValue, loc: FieldLoc) -> (r: Result<String, DecodeError>)
    ensures
        res_view(r) == spec_force_dec(x@, loc),
{
    match x {
        ScalarValue::Decimal(s) => Ok(s.clone()),
        ScalarValue::Integer(_) => Err(DecodeError::FieldTypeMismatch(loc)),
    }
}

/// Insists that a scalar is an unsigned integer.
pub fn force_int(x: &ScalarValue, loc: FieldLoc) -> (r: Result<u64, DecodeError>)
    ensures
        res_view(r) == spec_force_int(x@, loc),
{
    match x {
        ScalarValue::Integer(n) => Ok(*n),
        ScalarValue::Decimal(_) => Err(DecodeError::FieldTypeMismatch(loc)),
    }
}

} // verus!
