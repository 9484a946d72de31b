//! The computational half of the single-shot reverse proxy: how the
//! upstream request line is derived from the inbound one, and how each
//! failure is classified and rendered. The forwarding itself — one inbound
//! HTTP request mapped to one upstream request and its response relayed
//! unchanged — is transport work outside the verified core.

use vstd::prelude::*;

verus! {

/// Why a forwarded request failed.
#[derive(Debug, Clone, PartialEq, Eq)]
pub enum ProxyError {
    /// The upstream request failed; the payload renders the transport's
    /// report.
    RequestError(String),
    /// The inbound body could not be gathered; the payload renders the
    /// reason.
    BodyConversionError(String),
}

impl ProxyError {
    /// The HTTP status the proxy answers with: 400 (bad request) when the
    /// inbound body could not be gathered, 502 (bad gateway) when the
    /// upstream request failed.
    pub fn status_code(&self) -> (code: u16)
        ensures
            (self matches ProxyError::BodyConversionError(_)) ==> code == 400,
            (self matches ProxyError::RequestError(_)) ==> code == 502,
    {
        match self {
            ProxyError::BodyConversionError(_) => 400,
            ProxyError::RequestError(_) => 502,
        }
    }

    /// The response body the proxy answers with.
    pub fn response_text(&self) -> (r: String)
        ensures
            (self matches ProxyError::BodyConversionError(e) ==> r@ == "Body error: "@ + e@),
            (self matches ProxyError::RequestError(e) ==> r@ == "Upstream error: "@ + e@),
    {
        match self {
            ProxyError::BodyConversionError(e) => {
                let mut s = "Body error: ".to_owned();
                s.append(e.as_str());
                s
            },
            ProxyError::RequestError(e) => {
                let mut s = "Upstream error: ".to_owned();
                s.append(e.as_str());
                s
            },
        }
    }
}

/// The upstream request line: the upstream base followed by the inbound
/// path-and-query, or by `/` alone when the inbound request carried none.
pub fn upstream_uri(base: &str, path_and_query: Option<&str>) -> (r: String)
    ensures
        match path_and_query {
            Some(p) => r@ == base@ + p@,
            None => r@ == base@ + "/"@,
        },
{
    let mut s = base.to_owned();
    match path_and_query {
        Some(p) => s.append(p),
        None => s.append("/"),
    }
    s
}

} // verus!
