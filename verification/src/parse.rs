//! Reading a document out of its textual form. The parsing itself is done
//! by serde_json; what it yields for a given text is named by
//! `parsed_document`, and everything that inspects the resulting document
//! is verified against that name.

use vstd::prelude::*;
use crate::json::Json;

verus! {

/// Declares serde_json's parsed-value type, so that the functions below can
/// carry it; nothing inside such a value is visible here.
#[verifier::external_type_specification]
#[verifier::external_body]
pub struct ExValue(serde_json::Value);

/// A text that could not be parsed as JSON, with the parser's description.
#[derive(Debug)]
pub struct ParseFault {
    pub detail: String,
}

/// The document a given text denotes: some document when the text is
/// well-formed JSON, nothing otherwise. Parsing depends on the text alone.
pub uninterp spec fn parsed_document(s: Seq<char>) -> Option<Json>;

/// Relies on serde_json's Value: each variant of the parsed tree is carried
/// over to the document model one for one, a number as its literal text.
#[verifier::external_body]
fn value_to_json(v: &serde_json::Value) -> Json {
    match v {
        serde_json::Value::Null => Json::Null,
        serde_json::Value::Bool(b) => Json::Bool(*b),
        serde_json::Value::Number(n) => Json::Num(n.to_string()),
        serde_json::Value::String(s) => Json::Text(s.clone()),
        serde_json::Value::Array(a) => Json::Arr(a.iter().map(value_to_json).collect()),
        serde_json::Value::Object(m) => Json::Obj(
            m.iter().map(|(k, w)| (k.clone(), value_to_json(w))).collect(),
        ),
    }
}

/// Relies on serde_json::from_str::<Value>: whether a text parses, and what
/// document it denotes, is a function of the text alone; on failure the
/// error's description is returned.
#[verifier::external_body]
pub fn parse_document(s: &str) -> (r: Result<Json, ParseFault>)
    ensures
        r matches Ok(d) ==> parsed_document(s@) == Some(d),
        r is Err <==> parsed_document(s@) is None,
{
    match serde_json::from_str::<serde_json::Value>(s) {
        Ok(v) => Ok(value_to_json(&v)),
        Err(e) => Err(ParseFault { detail: e.to_string() }),
    }
}

} // verus!
