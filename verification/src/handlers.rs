//! The auxiliary endpoints: the liveness probe, the configuration echo and
//! the answer to a route that nothing matches.

use crate::config::{Config, ConfigView};
use crate::response::{ApiReply, ApiReplyView, ApiResponse, Status};
use crate::text::join_texts;
use vstd::prelude::*;

verus! {

/// The answer of the liveness probe: 202 at the transport layer, while the
/// record itself states 200.
pub open spec fn health_reply() -> ApiReplyView {
    ApiReplyView { status: Status::Accepted, data: "OK"@, code: 200 }
}

/// The answer of the configuration echo: the backend URL and nothing else
/// of the configuration.
pub open spec fn config_reply(config: ConfigView) -> ApiReplyView {
    ApiReplyView { status: Status::Accepted, data: "backend_url:"@ + config.backend_url, code: 200 }
}

/// The answer to a route that nothing matches.
pub open spec fn unmatched_reply() -> ApiReplyView {
    ApiReplyView { status: Status::NotFound, data: "Unidentified endpoint"@, code: 404 }
}

/// Answers the liveness probe. The answer depends on nothing: not on the
/// configuration, not on the upstream.
pub fn health() -> (reply: ApiReply)
    ensures
        reply@ == health_reply(),
{
    ApiReply {
        status: Status::Accepted,
        body: ApiResponse { data: String::from_str("OK"), code: 200 },
    }
}

/// Answers the configuration echo.
pub fn config_echo(config: &Config) -> (reply: ApiReply)
    ensures
        reply@ == config_reply(config@),
{
    ApiReply {
        status: Status::Accepted,
        body: ApiResponse {
            data: join_texts("backend_url:", config.backend_url.as_str()),
            code: 200,
        },
    }
}

/// Answers a route that nothing matches, for a router that has such a
/// fallback.
pub fn unmatched() -> (reply: ApiReply)
    ensures
        reply@ == unmatched_reply(),
{
    ApiReply {
        status: Status::NotFound,
        body: ApiResponse { data: String::from_str("Unidentified endpoint"), code: 404 },
    }
}

/// The configuration echo never shows the secret: its answer is settled by
/// the backend URL alone, so two configurations with the same backend URL
/// get the same answer whatever their secrets, ports and extra values are.
pub proof fn lemma_config_echo_ignores_secret(a: ConfigView, b: ConfigView)
    requires
        a.backend_url == b.backend_url,
    ensures
        config_reply(a) == config_reply(b),
{
}

} // verus!
