//! Parsing of the build request: a JSON object carrying the component
//! identifier and the source code to build.

use vstd::prelude::*;
use vstd::string::*;

verus! {

/// A parsed build request: the caller-supplied component identifier and the
/// source text to compile.
#[derive(Debug)]
pub struct BuildRequest {
    pub component_id: String,
    pub code: String,
}

/// Whether `s` is a well-formed JSON document.  Decided by the JSON parser;
/// it depends on the text alone.
pub uninterp spec fn json_parses(s: Seq<char>) -> bool;

/// The parser's description of why `s` failed to parse.  It depends on the
/// text alone, and is meaningful only when `json_parses(s)` does not hold.
pub uninterp spec fn json_parse_error(s: Seq<char>) -> Seq<char>;

/// The string value under `key` at the top level of the JSON document `s`:
/// `Some` exactly when `s` parses to an object that carries `key` with a
/// string value.  Decided by the JSON parser; it depends on the text alone.
pub uninterp spec fn json_string_field(s: Seq<char>, key: Seq<char>) -> Option<Seq<char>>;

/// Relies on serde_json::from_str::<serde_json::Value>: it returns `Ok`
/// exactly on well-formed JSON input, and its error's rendering is a
/// function of the input text alone.
#[verifier::external_body]
fn json_check(s: &str) -> (r: Result<(), String>)
    ensures
        r is Ok <==> json_parses(s@),
        r matches Err(m) ==> m@ == json_parse_error(s@),
{
    match serde_json::from_str::<serde_json::Value>(s) {
        Ok(_) => Ok(()),
        Err(e) => Err(e.to_string()),
    }
}

/// Relies on serde_json::from_str::<serde_json::Value>, serde_json::Value::get
/// and serde_json::Value::as_str: the string value of a top-level field of a
/// JSON document, `None` where the document does not parse, is no object,
/// lacks the key, or holds a non-string there.  The result depends on the
/// text and the key alone.
#[verifier::external_body]
fn get_string_field(s: &str, key: &str) -> (r: Option<String>)
    ensures
        r is Some <==> json_string_field(s@, key@) is Some,
        r matches Some(v) ==> json_string_field(s@, key@) == Some(v@),
{
    match serde_json::from_str::<serde_json::Value>(s) {
        Ok(doc) => match doc.get(key) {
            Some(f) => match f.as_str() {
                Some(x) => Some(x.to_owned()),
                None => None,
            },
            None => None,
        },
        Err(_) => None,
    }
}

/// Parses a request body.  A body that is not well-formed JSON is rejected
/// with the parser's own description; a well-formed body is rejected exactly
/// when it does not carry the two expected string fields, and otherwise
/// yields exactly their values.
pub fn parse_request(body: &str) -> (r: Result<BuildRequest, String>)
    ensures
        !json_parses(body@) ==> (r matches Err(m) && m@ == json_parse_error(body@)),
        (json_parses(body@) && json_string_field(body@, "component_id"@) is None) ==> (r matches Err(
            m,
        ) && m@ == "missing or non-string field `component_id`"@),
        (json_parses(body@) && json_string_field(body@, "component_id"@) is Some
            && json_string_field(body@, "code"@) is None) ==> (r matches Err(m) && m@
            == "missing or non-string field `code`"@),
        (json_parses(body@) && json_string_field(body@, "component_id"@) is Some
            && json_string_field(body@, "code"@) is Some) ==> (r matches Ok(req) && Some(
            req.component_id@,
        ) == json_string_field(body@, "component_id"@) && Some(req.code@) == json_string_field(
            body@,
            "code"@,
        )),
{
    match json_check(body) {
        Err(m) => Err(m),
        Ok(_) => {
            match get_string_field(body, "component_id") {
                None => Err(String::from_str("missing or non-string field `component_id`")),
                Some(component_id) => {
                    match get_string_field(body, "code") {
                        None => Err(String::from_str("missing or non-string field `code`")),
                        Some(code) => Ok(BuildRequest { component_id, code }),
                    }
                },
            }
        },
    }
}

} // verus!
