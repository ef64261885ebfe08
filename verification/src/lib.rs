//! A small notification relay: it decodes an inbound request body into a
//! message, wraps that message in the webhook's JSON envelope, and maps the
//! outcome of the outbound delivery to the exact response text the caller
//! sees. The surrounding HTTP server and the outbound HTTP client live
//! outside this crate; everything here is plain logic over text.

pub mod errors;
pub mod json;
pub mod decode;
pub mod dispatch;

pub use errors::NotifyError;
