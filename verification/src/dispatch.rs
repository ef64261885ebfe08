//! The webhook dispatcher and the request handler's decisions. The outbound
//! HTTP call itself happens outside this crate: `plan_notify` decides, from
//! the body and the configuration, whether a request is to be sent and what
//! it looks like; `complete_notify` maps the outcome of the call to the text
//! the caller receives; `respond` flattens success and failure into the one
//! response body. Every response, success or failure, travels as plain text.

use vstd::prelude::*;
use vstd::string::*;

use crate::decode::decode;
use crate::decode::json_string_field;
use crate::errors::NotifyError;
use crate::errors::no_destination_text;
use crate::json::encode_payload;
use crate::json::payload_text;

verus! {

/// The configuration the dispatcher reads: an optional webhook URL. The
/// reserved SMTP delivery path has no configuration here because it is
/// never taken; dispatch without a URL fails deterministically instead.
#[derive(Debug, Clone)]
pub struct NotifierConfig {
    pub webhook_url: Option<String>,
}

/// The one outbound call the relay makes: a POST of `body` to `url` with
/// `Content-Type: application/json`.
#[derive(Debug, Clone)]
pub struct OutboundRequest {
    pub url: String,
    pub body: String,
}

/// How the outbound call ended, as the surrounding HTTP client saw it.
#[derive(Debug, Clone)]
pub enum SendOutcome {
    /// The webhook answered; its response body, read as text.
    Delivered(String),
    /// The call failed at the transport level, with the client's diagnostic.
    TransportFailed(String),
    /// The webhook answered, but its body could not be read as text.
    BodyUnreadable(String),
}

/// Everything `plan_notify` promises: a body without a `message` is refused
/// with the decode diagnostic and nothing is sent; a decoded message without
/// a configured URL is refused with the fixed destination error and nothing
/// is sent; otherwise exactly one request is planned, to the configured URL,
/// carrying the payload whose `content` is the decoded message.
pub open spec fn plan_rel(
    raw: Seq<char>,
    url: Option<Seq<char>>,
    p: Result<OutboundRequest, NotifyError>,
) -> bool {
    match json_string_field(raw, "message"@) {
        Ok(field) => match field {
            Some(m) => match url {
                Some(u) => p is Ok && p->Ok_0.url@ == u && p->Ok_0.body@ == payload_text(m),
                None => p is Err && p->Err_0 is NoDestinationConfigured,
            },
            None => p is Err && p->Err_0 is Decode && p->Err_0->Decode_0@
                == crate::decode::missing_message_text(),
        },
        Err(d) => p is Err && p->Err_0 is Decode && p->Err_0->Decode_0@ == d,
    }
}

impl NotifierConfig {
    /// The configured URL as text, if any.
    pub open spec fn url_text(&self) -> Option<Seq<char>> {
        match self.webhook_url {
            Some(u) => Some(u@),
            None => None,
        }
    }
}

/// Decodes the body and resolves the destination: either the one outbound
/// request to make, or the error that is the response.
pub fn plan_notify(raw: &str, config: &NotifierConfig) -> (p: Result<OutboundRequest, NotifyError>)
    ensures
        plan_rel(raw@, config.url_text(), p),
{
    let message = match decode(raw) {
        Ok(m) => m,
        Err(e) => {
            return Err(e);
        },
    };
    match &config.webhook_url {
        Some(url) => Ok(
            OutboundRequest { url: url.clone(), body: encode_payload(message.content.as_str()) },
        ),
        None => Err(NotifyError::NoDestinationConfigured),
    }
}

/// A body that does not decode is answered with the decode diagnostic, and
/// no outbound request is planned — whatever the configuration says.
pub proof fn lemma_undecodable_never_sends(
    raw: Seq<char>,
    url: Option<Seq<char>>,
    p: Result<OutboundRequest, NotifyError>,
)
    requires
        plan_rel(raw, url, p),
        !(json_string_field(raw, "message"@) is Ok && json_string_field(raw, "message"@)->Ok_0
            is Some),
    ensures
        p is Err,
        p->Err_0 is Decode,
        p->Err_0.text() == crate::errors::decode_error_text(p->Err_0->Decode_0@),
{
}

/// With no webhook URL configured, a decoded notification is answered with
/// exactly the fixed destination error, and no outbound request is planned.
pub proof fn lemma_no_destination_never_sends(raw: Seq<char>, p: Result<OutboundRequest, NotifyError>)
    requires
        plan_rel(raw, None, p),
        json_string_field(raw, "message"@) is Ok,
        json_string_field(raw, "message"@)->Ok_0 is Some,
    ensures
        p is Err,
        p->Err_0.text() == no_destination_text(),
{
}

/// The success text: the webhook's raw response body, quoted inside the
/// fixed acknowledgment sentence.
pub open spec fn success_text(resp: Seq<char>) -> Seq<char> {
    "Sent something successfully. Return of webhook: '"@ + resp + "'"@
}

/// Builds the success text around the webhook's response body.
pub fn success_response(resp: &str) -> (r: String)
    ensures
        r@ == success_text(resp@),
{
    String::from_str("Sent something successfully. Return of webhook: '").concat(resp).concat("'")
}

/// Maps the outcome of the outbound call to the handler's result: a
/// delivered response becomes the success text, a transport failure or an
/// unreadable response becomes the matching error.
pub fn complete_notify(outcome: SendOutcome) -> (r: Result<String, NotifyError>)
    ensures
        outcome is Delivered ==> r is Ok && r->Ok_0@ == success_text(outcome->Delivered_0@),
        outcome is TransportFailed ==> r is Err && r->Err_0 is Transport
            && r->Err_0->Transport_0@ == outcome->TransportFailed_0@,
        outcome is BodyUnreadable ==> r is Err && r->Err_0 is ResponseRead
            && r->Err_0->ResponseRead_0@ == outcome->BodyUnreadable_0@,
{
    match outcome {
        SendOutcome::Delivered(body) => Ok(success_response(body.as_str())),
        SendOutcome::TransportFailed(d) => Err(NotifyError::Transport(d)),
        SendOutcome::BodyUnreadable(d) => Err(NotifyError::ResponseRead(d)),
    }
}

/// Flattens the handler's result into the one response body the caller
/// sees: the success text as it is, an error rendered to its text.
pub fn respond(r: Result<String, NotifyError>) -> (body: String)
    ensures
        r is Ok ==> body@ == r->Ok_0@,
        r is Err ==> body@ == r->Err_0.text(),
{
    match r {
        Ok(s) => s,
        Err(e) => e.render(),
    }
}

/// The liveness probe's body.
pub fn index_body() -> (r: String)
    ensures
        r@ == "Hello, world!"@,
{
    String::from_str("Hello, world!")
}

} // verus!
