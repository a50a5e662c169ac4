//! The address of the trace endpoint.

use vstd::prelude::*;
use reqwest::Url;

verus! {

/// Address of the trace endpoint that the health probe asks.
pub const TRACE_ENDPOINT: &'static str = "https://cloudflare.com/cdn-cgi/trace";

/// The URL type of the `url` crate, which `reqwest` hands on under its own
/// name. Nothing inside a URL is visible to the proofs: it is made here and
/// carried to the HTTP client.
#[verifier::external_type_specification]
#[verifier::external_body]
pub struct ExUrl(Url);

/// Whether the URL parser accepts `input` as an absolute URL.
pub uninterp spec fn parses_as_url(input: Seq<char>) -> bool;

/// Calls `Url::parse` of the `url` crate. The parser reads nothing but
/// `input`, so whether it accepts a text depends on that text alone; that is
/// all this contract claims. Which texts it accepts, and what the URL holds,
/// is not stated.
#[verifier::external_body]
fn parse_url(input: &str) -> (url: Option<Url>)
    ensures
        url is Some <==> parses_as_url(input@),
{
    Url::parse(input).ok()
}

/// The trace endpoint as a URL for the HTTP client, or `None` where the URL
/// parser does not accept [`TRACE_ENDPOINT`].
pub fn trace_url() -> (url: Option<Url>)
    ensures
        url is Some <==> parses_as_url(TRACE_ENDPOINT@),
{
    parse_url(TRACE_ENDPOINT)
}

} // verus!
