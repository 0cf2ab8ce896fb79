//! The feed's JSON layer: the shape the record decoder reads, and the
//! trusted parse of a feed body into that shape.
//!
//! The decoder only ever asks of a feed element whether it is an object,
//! which keys it carries, and which of its values are strings; an element is
//! therefore modeled as an object of string-or-other fields or a non-object,
//! and the JSON grammar itself stays with serde_json.

use vstd::prelude::*;

verus! {

/// A JSON value as a field of a feed record: a string, or anything else.
#[derive(Debug)]
pub enum JsonScalar {
    Str(String),
    Other,
}

impl Clone for JsonScalar {
    fn clone(&self) -> (r: Self)
        ensures
            r == *self,
    {
        match self {
            JsonScalar::Str(s) => JsonScalar::Str(s.clone()),
            JsonScalar::Other => JsonScalar::Other,
        }
    }
}

/// One element of the feed array: an object of key/value pairs, or a
/// non-object value.
#[derive(Debug)]
pub enum FeedElem {
    Obj(Vec<(String, JsonScalar)>),
    NonObj,
}

/// The mathematical value of a `JsonScalar`.
pub enum ScalarVal {
    Str(Seq<char>),
    Other,
}

/// The mathematical value of a `FeedElem`.
pub enum ElemVal {
    Obj(Seq<(Seq<char>, ScalarVal)>),
    NonObj,
}

impl View for JsonScalar {
    type V = ScalarVal;

    open spec fn view(&self) -> ScalarVal {
        match self {
            JsonScalar::Str(s) => ScalarVal::Str(s@),
            JsonScalar::Other => ScalarVal::Other,
        }
    }
}

impl View for FeedElem {
    type V = ElemVal;

    open spec fn view(&self) -> ElemVal {
        match self {
            FeedElem::Obj(pairs) => ElemVal::Obj(
                pairs@.map_values(|p: (String, JsonScalar)| (p.0@, p.1@)),
            ),
            FeedElem::NonObj => ElemVal::NonObj,
        }
    }
}

/// The values of a vector of feed elements.
pub open spec fn elems_view(v: Seq<FeedElem>) -> Seq<ElemVal> {
    v.map_values(|e: FeedElem| e@)
}

#[verifier::external_type_specification]
#[verifier::external_body]
pub struct ExJsonError(serde_json::Error);

/// What a feed body parses to: the elements of the JSON array the body
/// holds, reduced to the shape the record decoder reads, or `None` when the
/// body is not a JSON array.
pub uninterp spec fn json_feed_of(body: Seq<char>) -> Option<Seq<ElemVal>>;

/// Relies on `serde_json::from_str::<Vec<Value>>`: a body that is a JSON
/// array parses to its elements in order; each element becomes an object of
/// string-or-other fields, or a non-object.
#[verifier::external_body]
pub(crate) fn parse_feed_elems(body: &str) -> (r: Result<Vec<FeedElem>, serde_json::Error>)
    ensures
        match r {
            Ok(v) => json_feed_of(body@) == Some(elems_view(v@)),
            Err(_) => json_feed_of(body@) is None,
        },
{
    let vals: Vec<serde_json::Value> = serde_json::from_str(body)?;
    Ok(vals
        .into_iter()
        .map(|v| match v {
            serde_json::Value::Object(m) => FeedElem::Obj(
                m.into_iter()
                    .map(|(k, w)| match w {
                        serde_json::Value::String(t) => (k, JsonScalar::Str(t)),
                        _ => (k, JsonScalar::Other),
                    })
                    .collect(),
            ),
            _ => FeedElem::NonObj,
        })
        .collect())
}

} // verus!
