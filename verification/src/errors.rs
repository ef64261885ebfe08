//! The failure taxonomy of the relay, and the exact text each failure shows
//! to the caller. Errors stay structured inside the pipeline and are rendered
//! to text only at the HTTP boundary.

use vstd::prelude::*;
use vstd::string::*;

verus! {

/// The text of a decode failure: the parser's diagnostic behind a fixed prefix.
pub open spec fn decode_error_text(detail: Seq<char>) -> Seq<char> {
    "Could not parse request body: "@ + detail
}

/// The text returned whenever no webhook URL is configured.
pub open spec fn no_destination_text() -> Seq<char> {
    "No webhook URL configured and smtp not supported yet"@
}

/// The text of a failure to encode the outbound payload.
pub open spec fn serialization_error_text(detail: Seq<char>) -> Seq<char> {
    "Could not notify webhook (error parsing message to json): "@ + detail
}

/// The text of a transport-level failure reaching the webhook.
pub open spec fn transport_error_text(detail: Seq<char>) -> Seq<char> {
    "Could not notify webhook: "@ + detail
}

/// The text of a failure to read the webhook's response body.
pub open spec fn response_read_error_text(detail: Seq<char>) -> Seq<char> {
    "Could not notify webhook (text response): "@ + detail
}

/// Every decode failure's text starts with the fixed decode prefix,
/// whatever the diagnostic behind it.
pub proof fn lemma_decode_error_prefix(detail: Seq<char>)
    ensures
        decode_error_text(detail).take("Could not parse request body: "@.len() as int)
            == "Could not parse request body: "@,
{
    assert(decode_error_text(detail).take("Could not parse request body: "@.len() as int)
        =~= "Could not parse request body: "@);
}

/// Every transport failure's text starts with the fixed transport prefix,
/// whatever the client's diagnostic.
pub proof fn lemma_transport_error_prefix(detail: Seq<char>)
    ensures
        transport_error_text(detail).take("Could not notify webhook: "@.len() as int)
            == "Could not notify webhook: "@,
{
    assert(transport_error_text(detail).take("Could not notify webhook: "@.len() as int)
        =~= "Could not notify webhook: "@);
}

/// One variant per way the pipeline can fail. Every variant but
/// `NoDestinationConfigured` carries the underlying diagnostic as text.
#[derive(Debug, Clone)]
pub enum NotifyError {
    /// The inbound body was not a JSON object with a string `message` field.
    Decode(String),
    /// No webhook URL is configured, and no other delivery path exists.
    NoDestinationConfigured,
    /// The outbound payload could not be encoded. The verified framing is
    /// total, so the pipeline never produces this; the variant stays so the
    /// delivery taxonomy is complete.
    Serialization(String),
    /// The outbound call failed before a response arrived.
    Transport(String),
    /// The webhook answered, but its response body could not be read as text.
    ResponseRead(String),
}

impl NotifyError {
    /// The exact response text this error renders to.
    pub open spec fn text(&self) -> Seq<char> {
        match self {
            NotifyError::Decode(d) => decode_error_text(d@),
            NotifyError::NoDestinationConfigured => no_destination_text(),
            NotifyError::Serialization(d) => serialization_error_text(d@),
            NotifyError::Transport(d) => transport_error_text(d@),
            NotifyError::ResponseRead(d) => response_read_error_text(d@),
        }
    }

    /// Renders the error to the text the caller receives.
    pub fn render(&self) -> (r: String)
        ensures
            r@ == self.text(),
    {
        match self {
            NotifyError::Decode(d) => String::from_str("Could not parse request body: ").concat(
                d.as_str(),
            ),
            NotifyError::NoDestinationConfigured => String::from_str(
                "No webhook URL configured and smtp not supported yet",
            ),
            NotifyError::Serialization(d) => String::from_str(
                "Could not notify webhook (error parsing message to json): ",
            ).concat(d.as_str()),
            NotifyError::Transport(d) => String::from_str("Could not notify webhook: ").concat(
                d.as_str(),
            ),
            NotifyError::ResponseRead(d) => String::from_str(
                "Could not notify webhook (text response): ",
            ).concat(d.as_str()),
        }
    }
}

} // verus!
