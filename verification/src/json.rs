//! The textual literal-pool notation: a JSON array of scalars.
//!
//! The outside parser turns the pool text into JSON values; everything the
//! machine then does with them — admitting null, booleans, 64-bit integers
//! and strings, rejecting the rest — is verified code over [`JsonVal`].

use vstd::prelude::*;

verus! {

/// One element of a parsed literal-pool array, reduced to the shape the
/// machine cares about: a number that does not fit `i64` keeps only that
/// fact, and an array or object keeps only that it is composite.
#[derive(Debug)]
pub enum JsonVal {
    Null,
    Bool(bool),
    Num(Option<i64>),
    Text(String),
    Composite,
}

/// The mathematical value of a [`JsonVal`].
pub ghost enum JsonV {
    Null,
    Bool(bool),
    Num(Option<i64>),
    Text(Seq<char>),
    Composite,
}

impl View for JsonVal {
    type V = JsonV;

    open spec fn view(&self) -> JsonV {
        match self {
            JsonVal::Null => JsonV::Null,
            JsonVal::Bool(b) => JsonV::Bool(*b),
            JsonVal::Num(Some(i)) => JsonV::Num(Some(*i)),
            JsonVal::Num(None) => JsonV::Num(None),
            JsonVal::Text(s) => JsonV::Text(s@),
            JsonVal::Composite => JsonV::Composite,
        }
    }
}

/// What parsing a byte string as a JSON array yields: `None` when the bytes
/// are not such an array, otherwise the scalar shape of each element in
/// order. The result is a function of the bytes alone.
pub uninterp spec fn json_array_of(bytes: Seq<u8>) -> Option<Seq<JsonV>>;

/// Relies on `serde_json::from_slice::<Vec<serde_json::Value>>`: the bytes
/// parse as a JSON array exactly when [`json_array_of`] is `Some`, and each
/// element comes back as its scalar shape, in order.
#[verifier::external_body]
pub fn parse_json_array(bytes: &Vec<u8>) -> (r: Option<Vec<JsonVal>>)
    ensures
        (r is Some) == (json_array_of(bytes@) is Some),
        r matches Some(v) ==> Some(v@.map_values(|e: JsonVal| e@)) == json_array_of(bytes@),
{
    match serde_json::from_slice::<Vec<serde_json::Value>>(bytes) {
        Err(_) => None,
        Ok(vals) => Some(vals.into_iter().map(|v| match v {
            serde_json::Value::Null => JsonVal::Null,
            serde_json::Value::Bool(b) => JsonVal::Bool(b),
            serde_json::Value::Number(n) => JsonVal::Num(n.as_i64()),
            serde_json::Value::String(s) => JsonVal::Text(s),
            _ => JsonVal::Composite,
        }).collect()),
    }
}

} // verus!
