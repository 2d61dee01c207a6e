//! The forwarding path: from an inbound path and header set to the one
//! upstream request, and from what the upstream did to the answer.

use crate::config::Config;
use crate::response::{Status, TextReply, TextReplyView};
use crate::text::{join_texts, trim_end_slashes, trim_trailing_slashes};
use axum::http::header::{HeaderMap, HeaderValue};
use vstd::prelude::*;

verus! {

/// The methods the proxy sends upstream. Only `GET` is routed.
#[derive(Debug, Clone, Copy, PartialEq, Eq, Structural)]
pub enum Method {
    Get,
}

/// The request that the proxy sends upstream for one inbound request.
#[derive(Debug)]
pub struct OutboundRequest {
    pub method: Method,
    pub url: String,
    pub headers: HeaderMap<HeaderValue>,
}

/// The URL that an inbound path is forwarded to: the backend URL, a `/`, and
/// the path without its trailing `/` characters.
pub open spec fn upstream_url(backend_url: Seq<char>, path: Seq<char>) -> Seq<char> {
    backend_url + seq!['/'] + trim_trailing_slashes(path)
}

/// Builds the URL that `path` is forwarded to.
pub fn build_upstream_url(backend_url: &str, path: &str) -> (url: String)
    ensures
        url@ == upstream_url(backend_url@, path@),
{
    proof {
        reveal_strlit("/");
    }
    let mut url = join_texts(backend_url, "/");
    url.append(trim_end_slashes(path));
    assert(url@ =~= upstream_url(backend_url@, path@));
    url
}

/// The upstream request for an inbound request: one `GET` to the URL of the
/// path, carrying the header set it was given, with nothing added, removed
/// or changed. The credential has been injected into that header set before
/// the request reaches this function.
pub fn forward(config: &Config, path: &str, headers: HeaderMap<HeaderValue>) -> (request:
    OutboundRequest)
    ensures
        request.method == Method::Get,
        request.url@ == upstream_url(config@.backend_url, path@),
        request.headers == headers,
{
    OutboundRequest {
        method: Method::Get,
        url: build_upstream_url(config.backend_url.as_str(), path),
        headers,
    }
}

/// What came of the one attempt to reach the upstream.
#[derive(Debug, Clone, PartialEq, Eq)]
pub enum UpstreamOutcome {
    /// The upstream answered. `body` is `None` when the body could not be
    /// read as text.
    Replied { status: u16, body: Option<String> },
    /// No answer was obtained: connection refused, DNS failure, timeout.
    Failed { cause: String },
}

/// An upstream outcome as a mathematical value.
pub enum UpstreamOutcomeView {
    Replied { status: u16, body: Option<Seq<char>> },
    Failed { cause: Seq<char> },
}

impl View for UpstreamOutcome {
    type V = UpstreamOutcomeView;

    open spec fn view(&self) -> UpstreamOutcomeView {
        match self {
            UpstreamOutcome::Replied { status, body } => UpstreamOutcomeView::Replied {
                status: *status,
                body: match body {
                    Some(text) => Some(text@),
                    None => None,
                },
            },
            UpstreamOutcome::Failed { cause } => UpstreamOutcomeView::Failed { cause: cause@ },
        }
    }
}

/// The answer for an upstream outcome. An upstream that answered gives 200
/// with its body, whatever status it answered with, and an empty body where
/// its body was unreadable. A transport failure gives 502 with the cause.
pub open spec fn relayed(outcome: UpstreamOutcomeView) -> TextReplyView {
    match outcome {
        UpstreamOutcomeView::Replied { status, body } => TextReplyView {
            status: Status::Success,
            body: match body {
                Some(text) => text,
                None => Seq::empty(),
            },
        },
        UpstreamOutcomeView::Failed { cause } => TextReplyView {
            status: Status::BadGateway,
            body: "Proxy error: "@ + cause,
        },
    }
}

/// Turns the outcome of the upstream call into the answer for the caller.
/// Every outcome gives an answer: a failure is never tried again.
pub fn relay(outcome: UpstreamOutcome) -> (reply: TextReply)
    ensures
        reply@ == relayed(outcome@),
{
    match outcome {
        UpstreamOutcome::Replied { status: _, body } => {
            let body = match body {
                Some(text) => text,
                None => String::new(),
            };
            TextReply { status: Status::Success, body }
        },
        UpstreamOutcome::Failed { cause } => TextReply {
            status: Status::BadGateway,
            body: join_texts("Proxy error: ", cause.as_str()),
        },
    }
}

} // verus!
