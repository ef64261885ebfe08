//! The request decoder: the inbound body is expected to be a JSON object
//! with a string `message` field. Parsing is done by serde_json behind one
//! trusted wrapper; everything around the parse — field choice, error
//! wrapping, the message type — is verified.

use vstd::prelude::*;
use vstd::string::*;

use crate::errors::NotifyError;

verus! {

/// What serde_json makes of a raw body and a field name: `Err` carries the
/// parser's diagnostic for malformed JSON, `Ok(Some(..))` the value of the
/// named top-level string field, `Ok(None)` a parse that found no such
/// string field. The outcome depends on the two texts alone.
pub uninterp spec fn json_string_field(raw: Seq<char>, field: Seq<char>) -> Result<
    Option<Seq<char>>,
    Seq<char>,
>;

/// Relies on serde_json::from_str::<serde_json::Value>, serde_json's
/// Value::get and Value::as_str: parsing the body and reading one top-level
/// string field out of it. The parse outcome is a function of the raw text
/// and the field name alone.
#[verifier::external_body]
fn parse_string_field(raw: &str, field: &str) -> (r: Result<Option<String>, String>)
    ensures
        r is Ok <==> json_string_field(raw@, field@) is Ok,
        r is Ok ==> (r->Ok_0 is Some <==> json_string_field(raw@, field@)->Ok_0 is Some),
        r is Ok && r->Ok_0 is Some ==> r->Ok_0->0@ == json_string_field(raw@, field@)->Ok_0->0,
        r is Err ==> r->Err_0@ == json_string_field(raw@, field@)->Err_0,
{
    match serde_json::from_str::<serde_json::Value>(raw) {
        Ok(v) => match v.get(field).and_then(serde_json::Value::as_str) {
            Some(s) => Ok(Some(s.to_owned())),
            None => Ok(None),
        },
        Err(e) => Err(e.to_string()),
    }
}

/// The decoded notification: the wire payload's content is always exactly
/// this message, unmodified.
#[derive(Debug, Clone)]
pub struct WebhookMessage {
    pub content: String,
}

/// The diagnostic used when the body parses but holds no string `message`.
pub open spec fn missing_message_text() -> Seq<char> {
    "missing field `message`"@
}

/// Everything `decode` promises, as a relation between the raw body and the
/// result: the message is the body's `message` field when there is one, and
/// otherwise the error carries the parse diagnostic.
pub open spec fn decode_rel(raw: Seq<char>, r: Result<WebhookMessage, NotifyError>) -> bool {
    match json_string_field(raw, "message"@) {
        Ok(field) => match field {
            Some(m) => r is Ok && r->Ok_0.content@ == m,
            None => r is Err && r->Err_0 is Decode && r->Err_0->Decode_0@
                == missing_message_text(),
        },
        Err(d) => r is Err && r->Err_0 is Decode && r->Err_0->Decode_0@ == d,
    }
}

/// Parses the raw body into a `WebhookMessage`, or reports why it cannot.
pub fn decode(raw: &str) -> (r: Result<WebhookMessage, NotifyError>)
    ensures
        decode_rel(raw@, r),
{
    match parse_string_field(raw, "message") {
        Ok(Some(content)) => Ok(WebhookMessage { content }),
        Ok(None) => Err(NotifyError::Decode(String::from_str("missing field `message`"))),
        Err(d) => Err(NotifyError::Decode(d)),
    }
}

/// Decoding is a function of the body alone: two decodes of the same input
/// agree, on the message and on the error text alike.
pub proof fn lemma_decode_deterministic(
    raw: Seq<char>,
    a: Result<WebhookMessage, NotifyError>,
    b: Result<WebhookMessage, NotifyError>,
)
    requires
        decode_rel(raw, a),
        decode_rel(raw, b),
    ensures
        a is Ok <==> b is Ok,
        a is Ok ==> a->Ok_0.content@ == b->Ok_0.content@,
        a is Err ==> a->Err_0.text() == b->Err_0.text(),
{
}

} // verus!
