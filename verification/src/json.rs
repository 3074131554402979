use vstd::prelude::*;

verus! {

broadcast use vstd::std_specs::vec::axiom_vec_index_decreases;

/// A JSON document, as the library sees it: numbers are either unsigned
/// 64-bit integers or something else (a fraction, an exponent, a negative
/// value), and object entries keep the order in which the parser handed
/// them over.
#[derive(Debug, PartialEq, Eq)]
pub enum JsonValue {
    Null,
    Bool(bool),
    UInt(u64),
    OtherNumber,
    Text(String),
    Array(Vec<JsonValue>),
    Object(Vec<(String, JsonValue)>),
}

/// The mathematical model of a `JsonValue`: strings become `Seq<char>`,
/// vectors become `Seq`.
pub enum JsonModel {
    Null,
    Bool(bool),
    UInt(u64),
    OtherNumber,
    Text(Seq<char>),
    Array(Seq<JsonModel>),
    Object(Seq<(Seq<char>, JsonModel)>),
}

/// The models of the elements of a JSON array, in order.
pub open spec fn elems_view(items: Vec<JsonValue>) -> Seq<JsonModel>
    decreases items,
{
    Seq::new(
        items.len() as nat,
        |i: int|
            if 0 <= i < items.len() {
                items[i]@
            } else {
                JsonModel::Null
            },
    )
}

/// The models of the entries of a JSON object, in the order the parser
/// handed them over.
pub open spec fn entries_view(entries: Vec<(String, JsonValue)>) -> Seq<(Seq<char>, JsonModel)>
    decreases entries,
{
    Seq::new(
        entries.len() as nat,
        |i: int|
            if 0 <= i < entries.len() {
                (entries[i].0@, entries[i].1@)
            } else {
                (Seq::empty(), JsonModel::Null)
            },
    )
}

impl View for JsonValue {
    type V = JsonModel;

    open spec fn view(&self) -> JsonModel
        decreases self,
    {
        match self {
            JsonValue::Null => JsonModel::Null,
            JsonValue::Bool(b) => JsonModel::Bool(*b),
            JsonValue::UInt(n) => JsonModel::UInt(*n),
            JsonValue::OtherNumber => JsonModel::OtherNumber,
            JsonValue::Text(s) => JsonModel::Text(s@),
            JsonValue::Array(items) => JsonModel::Array(elems_view(*items)),
            JsonValue::Object(entries) => JsonModel::Object(entries_view(*entries)),
        }
    }
}

/// The value under the first entry of the object that carries the given
/// key; `None` where no entry does. Every key the protocol names is a
/// single character.
pub open spec fn spec_lookup(entries: Seq<(Seq<char>, JsonModel)>, key: char) -> Option<
    JsonModel,
>
    decreases entries.len(),
{
    if entries.len() == 0 {
        None
    } else if entries[0].0 == seq![key] {
        Some(entries[0].1)
    } else {
        spec_lookup(entries.skip(1), key)
    }
}

/// Finds the value stored in a decoded JSON object under a one-character
/// key, taking the first entry where several carry the same key.
pub fn lookup<'a>(entries: &'a Vec<(String, JsonValue)>, key: char) -> (r: Option<&'a JsonValue>)
    ensures
        match r {
            Some(v) => spec_lookup(entries_view(*entries), key) == Some(v@),
            None => spec_lookup(entries_view(*entries), key) is None,
        },
{
    let ghost full = entries_view(*entries);
    proof {
        assert(full.skip(0) =~= full);
    }
    let mut i: usize = 0;
    while i < entries.len()
        invariant
            0 <= i <= entries.len(),
            full == entries_view(*entries),
            spec_lookup(full, key) == spec_lookup(full.skip(i as int), key),
        decreases entries.len() - i,
    {
        let name: &String = &entries[i].0;
        if name.unicode_len() == 1 && name.as_str().get_char(0) == key {
            proof {
                assert(name@ =~= seq![key]);
                assert(full.skip(i as int)[0] == full[i as int]);
            }
            return Some(&entries[i].1);
        }
        proof {
            assert(full.skip(i as int)[0] == full[i as int]);
            assert(full.skip(i as int).skip(1) =~= full.skip(i + 1));
        }
        i = i + 1;
    }
    proof {
        assert(full.skip(i as int).len() == 0);
    }
    None
}

/// What `serde_json` makes of a piece of text, in the library's model:
/// `None` where the text is not valid JSON. The result depends on the text
/// alone.
pub uninterp spec fn json_of_text(s: Seq<char>) -> Option<JsonModel>;

#[verifier::external_type_specification]
#[verifier::external_body]
pub struct ExSerdeValue(serde_json::Value);

/// Relies on `serde_json::from_str::<serde_json::Value>`: parses UTF-8 text
/// as JSON, returning an error if and only if the text is not a valid JSON
/// document; the result is a function of the text alone.
#[verifier::external_body]
pub(crate) fn parse_json(text: &str) -> (r: Option<JsonValue>)
    ensures
        match r {
            Some(v) => json_of_text(text@) == Some(v@),
            None => json_of_text(text@) is None,
        },
{
    serde_json::from_str::<serde_json::Value>(text).ok().map(json_from_value)
}

/// Converts `serde_json`'s tree into the library's own representation,
/// variant by variant; a number keeps its unsigned 64-bit value where
/// `serde_json::Number::as_u64` gives it one.
#[verifier::external_body]
fn json_from_value(v: serde_json::Value) -> JsonValue {
    match v {
        serde_json::Value::Null => JsonValue::Null,
        serde_json::Value::Bool(b) => JsonValue::Bool(b),
        serde_json::Value::Number(n) => match n.as_u64() {
            Some(u) => JsonValue::UInt(u),
            None => JsonValue::OtherNumber,
        },
        serde_json::Value::String(s) => JsonValue::Text(s),
        serde_json::Value::Array(a) => JsonValue::Array(a.into_iter().map(json_from_value).collect()),
        serde_json::Value::Object(m) => JsonValue::Object(m.into_iter().map(|e| (e.0, json_from_value(e.1))).collect()),
    }
}

} // verus!
