//! Reading a query out of one input line.
//!
//! Each input line is a JSON document that must hold the query text as a
//! string field under a configured key. Reading a line is done by serde_json
//! behind one trusted item; the classification of the outcome — parse
//! failure, schema failure, or an extracted query — is verified here.

use vstd::prelude::*;
use crate::agent::AgentError;

verus! {

/// Whether serde_json accepts the line as a JSON document. The parser is
/// deterministic, so acceptance is a function of the text alone.
pub uninterp spec fn parses_as_document(line: Seq<char>) -> bool;

/// The string that the document on `line` holds under `key`: Some exactly
/// when the line parses, the field is present, and its value is a JSON
/// string. The lookup is deterministic, so this is a function of the line
/// and the key alone.
pub uninterp spec fn string_field_of(line: Seq<char>, key: Seq<char>) -> Option<Seq<char>>;

/// Relies on serde_json's reading of one line: from_str::<Value> to parse
/// it, then Value::get and Value::as_str on the parsed document. Each is
/// deterministic in the line and key alone; the parsed document itself is
/// opaque here, so the three calls stand together behind the two names
/// above: Err exactly on lines that do not parse, and on parsed lines the
/// field lookup's outcome, string for string.
#[verifier::external_body]
fn lookup_string_field(line: &str, key: &str) -> (r: Result<Option<String>, ()>)
    ensures
        r is Ok <==> parses_as_document(line@),
        r matches Ok(Some(q)) ==> string_field_of(line@, key@) == Some(q@),
        r matches Ok(f) && f is None ==> string_field_of(line@, key@) is None,
{
    match serde_json::from_str::<serde_json::Value>(line) {
        Err(_) => Err(()),
        Ok(doc) => match doc.get(key) {
            None => Ok(None),
            Some(v) => match v.as_str() {
                None => Ok(None),
                Some(s) => Ok(Some(s.to_string())),
            },
        },
    }
}

/// Extract the query text under `key` from one input line.
///
/// A line that serde_json rejects is a parse error; a well-formed document
/// whose `key` field is absent or not a string is a schema error; any other
/// line owes exactly the string the document holds under the key.
pub fn extract_query(line: &str, key: &str) -> (r: Result<String, AgentError>)
    ensures
        (r == Err::<String, AgentError>(AgentError::Parse)) <==> !parses_as_document(line@),
        parses_as_document(line@) ==> match string_field_of(line@, key@) {
            Some(q) => r matches Ok(s) && s@ == q,
            None => r == Err::<String, AgentError>(AgentError::Schema),
        },
{
    match lookup_string_field(line, key) {
        Err(()) => Err(AgentError::Parse),
        Ok(None) => Err(AgentError::Schema),
        Ok(Some(q)) => Ok(q),
    }
}

} // verus!
