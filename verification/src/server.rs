//! Starting the gateway, and the proxy handler: what is sent upstream for a
//! request that every policy let pass, and what the client gets back.
//!
//! Sending and receiving are the caller's work. The handler says what to send
//! (`handler`, then `attach_body` once the request's body is read) and turns
//! what came back into the response (`relay_response`).

use crate::http::{
    bytes_of, has_prefix, remove_prefixed, without_prefix, Header, HeaderView, Request,
    RequestView, Response, ResponseView,
};
use crate::config::{validate_version, version_compatible, version_error, Config};
use crate::policy::registry::{
    admin_routes, buildable, built_from, chain_members, first_unbuildable, is_versioned,
    unbuildable, AnyFactory, PolicyRegistry,
};
use crate::policy::routes::PolicyRouter;
use crate::text::{equal, trim_end, trim_end_matches, trim_start, trim_start_matches};
use vstd::prelude::*;
use vstd::string::*;

verus! {

/// The upstream request without its body.
pub struct Outbound {
    pub method: String,
    pub url: String,
    pub headers: Vec<Header>,
}

pub struct OutboundView {
    pub method: Seq<char>,
    pub url: Seq<char>,
    pub headers: Seq<HeaderView>,
}

impl View for Outbound {
    type V = OutboundView;

    open spec fn view(&self) -> OutboundView {
        OutboundView { method: self.method@, url: self.url@, headers: self.headers.deep_view() }
    }
}

/// What is sent upstream. `body` is `None` for a method that carries none.
pub struct UpstreamRequest {
    pub method: String,
    pub url: String,
    pub headers: Vec<Header>,
    pub body: Option<Vec<u8>>,
}

pub struct UpstreamRequestView {
    pub method: Seq<char>,
    pub url: Seq<char>,
    pub headers: Seq<HeaderView>,
    pub body: Option<Seq<u8>>,
}

impl View for UpstreamRequest {
    type V = UpstreamRequestView;

    open spec fn view(&self) -> UpstreamRequestView {
        UpstreamRequestView {
            method: self.method@,
            url: self.url@,
            headers: self.headers.deep_view(),
            body: self.body.deep_view(),
        }
    }
}

/// What the handler asks of its caller.
pub enum HandlerStep {
    /// Answer the client with this response; nothing is sent upstream.
    Respond(Response),
    /// Read the request's body, then go on with `attach_body`.
    ReadBody(Outbound),
}

pub enum HandlerStepView {
    Respond(ResponseView),
    ReadBody(OutboundView),
}

impl View for HandlerStep {
    type V = HandlerStepView;

    open spec fn view(&self) -> HandlerStepView {
        match self {
            HandlerStep::Respond(response) => HandlerStepView::Respond(response@),
            HandlerStep::ReadBody(outbound) => HandlerStepView::ReadBody(outbound@),
        }
    }
}

/// How the exchange with the upstream ended.
pub enum UpstreamReply {
    /// The request could not be sent, or no response came; the text says why.
    Failed(String),
    /// A response came, but its body could not be read.
    BodyUnreadable,
    Complete { status: u16, headers: Vec<Header>, body: Vec<u8> },
}

pub enum UpstreamReplyView {
    Failed(Seq<char>),
    BodyUnreadable,
    Complete { status: u16, headers: Seq<HeaderView>, body: Seq<u8> },
}

impl View for UpstreamReply {
    type V = UpstreamReplyView;

    open spec fn view(&self) -> UpstreamReplyView {
        match self {
            UpstreamReply::Failed(reason) => UpstreamReplyView::Failed(reason@),
            UpstreamReply::BodyUnreadable => UpstreamReplyView::BodyUnreadable,
            UpstreamReply::Complete { status, headers, body } => UpstreamReplyView::Complete {
                status: *status,
                headers: headers.deep_view(),
                body: body@,
            },
        }
    }
}

/// The token that marks a request as coming from the gateway: the configured
/// one, or `secret` where none is configured.
pub open spec fn effective_token(configured: Option<Seq<char>>) -> Seq<char> {
    match configured {
        Some(token) => token,
        None => "secret"@,
    }
}

/// The token that marks a request as coming from the gateway.
pub fn resolve_token(configured: Option<String>) -> (token: String)
    ensures
        token@ == effective_token(configured.deep_view()),
{
    match configured {
        Some(token) => token,
        None => "secret".to_owned(),
    }
}

/// The upstream URL: the destination without the slashes at its end, then,
/// unless the path is empty once the slashes at its start are gone, a slash
/// and that path, and a question mark and the query where there is one.
pub open spec fn target_url(
    destination: Seq<char>,
    path: Seq<char>,
    query: Seq<char>,
) -> Seq<char> {
    let base = trim_end(destination, '/');
    let rest = trim_start(path, '/');
    if rest.len() == 0 {
        base
    } else if query.len() == 0 {
        base + "/"@ + rest
    } else {
        base + "/"@ + rest + "?"@ + query
    }
}

/// The upstream URL of a request.
pub fn build_url(destination: &str, path: &str, query: &str) -> (url: String)
    ensures
        url@ == target_url(destination@, path@, query@),
{
    let base = trim_end_matches(destination, '/');
    let rest = trim_start_matches(path, '/');
    if rest.as_str().is_empty() {
        base
    } else if query.is_empty() {
        base.concat("/").concat(rest.as_str())
    } else {
        base.concat("/").concat(rest.as_str()).concat("?").concat(query)
    }
}

/// The headers sent upstream: those of the request whose name does not begin
/// with `bouncer`, then `bouncer-token` with the gateway's token.
pub open spec fn outbound_headers(headers: Seq<HeaderView>, token: Seq<char>) -> Seq<HeaderView> {
    without_prefix(headers, "bouncer"@).push(
        HeaderView { name: "bouncer-token"@, value: vstd::utf8::encode_utf8(token) },
    )
}

/// The headers sent upstream.
pub fn forward_headers(headers: &Vec<Header>, bouncer_token: &str) -> (r: Vec<Header>)
    ensures
        r.deep_view() == outbound_headers(headers.deep_view(), bouncer_token@),
{
    let mut r = remove_prefixed(headers, "bouncer");
    let ghost before = r.deep_view();
    let header = Header { name: "bouncer-token".to_owned(), value: bytes_of(bouncer_token) };
    r.push(header);
    assert(r.deep_view() == before.push(header@));
    r
}

/// Every header that goes upstream under a name beginning with `bouncer` is
/// the gateway's own `bouncer-token`, with the gateway's token as its value:
/// none of them is the client's.
pub proof fn lemma_outbound_scrub(headers: Seq<HeaderView>, token: Seq<char>)
    ensures
        forall|i: int|
            0 <= i < outbound_headers(headers, token).len() && has_prefix(
                #[trigger] outbound_headers(headers, token)[i],
                "bouncer"@,
            ) ==> outbound_headers(headers, token)[i] == (HeaderView {
                name: "bouncer-token"@,
                value: vstd::utf8::encode_utf8(token),
            }),
        forall|i: int|
            0 <= i < headers.len() && !has_prefix(#[trigger] headers[i], "bouncer"@)
                ==> outbound_headers(headers, token).contains(headers[i]),
        has_prefix(outbound_headers(headers, token).last(), "bouncer"@),
{
    let kept = without_prefix(headers, "bouncer"@);
    let out = outbound_headers(headers, token);
    crate::http::lemma_without_prefix(headers, "bouncer"@);
    assert forall|i: int| 0 <= i < headers.len() && !has_prefix(#[trigger] headers[i], "bouncer"@)
        implies out.contains(headers[i]) by {
        let j = choose|j: int| 0 <= j < kept.len() && kept[j] == headers[i];
        assert(out[j] == headers[i]);
    }
    assert forall|i: int| 0 <= i < out.len() && has_prefix(#[trigger] out[i], "bouncer"@)
        implies out[i] == (HeaderView {
        name: "bouncer-token"@,
        value: vstd::utf8::encode_utf8(token),
    }) by {
        if i < kept.len() {
            assert(out[i] == kept[i]);
        }
    }
    reveal_strlit("bouncer");
    reveal_strlit("bouncer-token");
    let name = crate::text::lowercase("bouncer-token"@);
    assert("bouncer"@ =~= name.subrange(0, 7));
}

/// Whether a request with this method is forwarded with its body.
pub open spec fn carries_body(method: Seq<char>) -> bool {
    method == "POST"@ || method == "PUT"@ || method == "PATCH"@
}

/// Whether a request with this method is forwarded without a body.
pub open spec fn is_bodyless(method: Seq<char>) -> bool {
    method == "GET"@ || method == "DELETE"@ || method == "HEAD"@ || method == "OPTIONS"@
}

/// The handler's first step: without a destination the fixed greeting, with
/// one the upstream request that waits for its body.
pub open spec fn handler_step(
    request: RequestView,
    destination: Option<Seq<char>>,
    token: Seq<char>,
) -> HandlerStepView {
    match destination {
        None => HandlerStepView::Respond(
            ResponseView {
                status: 200,
                headers: Seq::empty(),
                body: vstd::utf8::encode_utf8("Hello from Bouncer!"@),
            },
        ),
        Some(destination) => HandlerStepView::ReadBody(
            OutboundView {
                method: request.method,
                url: target_url(destination, request.path, request.query),
                headers: outbound_headers(request.headers, token),
            },
        ),
    }
}

/// The first step of forwarding a request that every policy let pass.
pub fn handler(request: &Request, destination: &Option<String>, bouncer_token: &str) -> (step:
    HandlerStep)
    ensures
        step@ == handler_step(request@, destination.deep_view(), bouncer_token@),
{
    match destination {
        None => HandlerStep::Respond(Response::plain(200, "Hello from Bouncer!")),
        Some(destination) => HandlerStep::ReadBody(
            Outbound {
                method: request.method.clone(),
                url: build_url(
                    destination.as_str(),
                    request.path.as_str(),
                    request.query.as_str(),
                ),
                headers: forward_headers(&request.headers, bouncer_token),
            },
        ),
    }
}

/// The upstream request once the body is read (`None`: it could not be read).
/// An unreadable body is answered with status 500, a method that is none of
/// GET, POST, PUT, DELETE, PATCH, HEAD and OPTIONS with 501.
pub open spec fn with_body(outbound: OutboundView, body: Option<Seq<u8>>) -> Result<
    UpstreamRequestView,
    ResponseView,
> {
    match body {
        None => Err(
            ResponseView {
                status: 500,
                headers: Seq::empty(),
                body: vstd::utf8::encode_utf8("Failed to read request body"@),
            },
        ),
        Some(bytes) => if carries_body(outbound.method) {
            Ok(
                UpstreamRequestView {
                    method: outbound.method,
                    url: outbound.url,
                    headers: outbound.headers,
                    body: Some(bytes),
                },
            )
        } else if is_bodyless(outbound.method) {
            Ok(
                UpstreamRequestView {
                    method: outbound.method,
                    url: outbound.url,
                    headers: outbound.headers,
                    body: None,
                },
            )
        } else {
            Err(
                ResponseView {
                    status: 501,
                    headers: Seq::empty(),
                    body: vstd::utf8::encode_utf8(
                        "HTTP method "@ + outbound.method + " not supported"@,
                    ),
                },
            )
        },
    }
}

pub open spec fn upstream_result_view(r: Result<UpstreamRequest, Response>) -> Result<
    UpstreamRequestView,
    ResponseView,
> {
    match r {
        Ok(request) => Ok(request@),
        Err(response) => Err(response@),
    }
}

/// The upstream request once the caller has read the request's body.
pub fn attach_body(outbound: Outbound, body: Option<Vec<u8>>) -> (r: Result<
    UpstreamRequest,
    Response,
>)
    ensures
        upstream_result_view(r) == with_body(outbound@, body.deep_view()),
{
    let bytes = match body {
        None => {
            return Err(Response::plain(500, "Failed to read request body"));
        },
        Some(bytes) => bytes,
    };
    let method = outbound.method.as_str();
    if equal(method, "POST") || equal(method, "PUT") || equal(method, "PATCH") {
        Ok(
            UpstreamRequest {
                method: outbound.method,
                url: outbound.url,
                headers: outbound.headers,
                body: Some(bytes),
            },
        )
    } else if equal(method, "GET") || equal(method, "DELETE") || equal(method, "HEAD") || equal(
        method,
        "OPTIONS",
    ) {
        Ok(
            UpstreamRequest {
                method: outbound.method,
                url: outbound.url,
                headers: outbound.headers,
                body: None,
            },
        )
    } else {
        let text = "HTTP method ".to_owned().concat(method).concat(" not supported");
        Err(Response::plain(501, text.as_str()))
    }
}

/// The status relayed to the client: the upstream's, or 500 where that is no
/// status code (under 100 or over 999).
pub open spec fn relayed_status(status: u16) -> u16 {
    if 100 <= status < 1000 {
        status
    } else {
        500
    }
}

/// The response to the client for each way the exchange with the upstream
/// can end: its status, headers and body as they came; 502 with the reason
/// where it could not be reached; 500 where its body could not be read.
pub open spec fn relayed(reply: UpstreamReplyView) -> ResponseView {
    match reply {
        UpstreamReplyView::Failed(reason) => ResponseView {
            status: 502,
            headers: Seq::empty(),
            body: vstd::utf8::encode_utf8("Failed to forward request: "@ + reason),
        },
        UpstreamReplyView::BodyUnreadable => ResponseView {
            status: 500,
            headers: Seq::empty(),
            body: vstd::utf8::encode_utf8("Failed to read response body"@),
        },
        UpstreamReplyView::Complete { status, headers, body } => ResponseView {
            status: relayed_status(status),
            headers,
            body,
        },
    }
}

/// The response to the client once the exchange with the upstream has ended.
pub fn relay_response(reply: UpstreamReply) -> (response: Response)
    ensures
        response@ == relayed(reply@),
{
    match reply {
        UpstreamReply::Failed(reason) => {
            let text = "Failed to forward request: ".to_owned().concat(reason.as_str());
            Response::plain(502, text.as_str())
        },
        UpstreamReply::BodyUnreadable => Response::plain(500, "Failed to read response body"),
        UpstreamReply::Complete { status, headers, body } => {
            let status = if 100 <= status && status < 1000 {
                status
            } else {
                500
            };
            Response { status, headers, body }
        },
    }
}

/// Builds the chain and the admin routes of a configuration for the gateway
/// of version `current_version`. The version is looked at first: from a
/// configuration that was written for another version no policy is built.
pub fn prepare_chain<F: AnyFactory>(
    registry: &PolicyRegistry<F>,
    config: &Config,
    current_version: &str,
) -> (r: Result<(Vec<F::Built>, PolicyRouter), String>)
    ensures
        r is Ok <==> version_compatible(config.bouncer_version@, current_version@) && forall|
            i: int,
        |
            0 <= i < config.policies.len() ==> buildable(
                registry.entries(),
                #[trigger] config.policies.deep_view()[i],
                config.databases,
            ),
        r matches Ok((chain, router)) ==> exists|policies: Seq<F::Built>|
            {
                &&& #[trigger] built_from(
                    registry.entries(),
                    config.policies.deep_view(),
                    config.databases,
                    policies,
                )
                &&& chain@ == chain_members(policies)
                &&& router@ == admin_routes(policies)
            },
        r is Ok ==> forall|i: int|
            0 <= i < config.policies.len() ==> is_versioned(
                #[trigger] config.policies.deep_view()[i].provider,
            ),
        r matches Err(message) ==> if !version_compatible(
            config.bouncer_version@,
            current_version@,
        ) {
            message@ == version_error(config.bouncer_version@, current_version@)
        } else {
            let i = first_unbuildable(
                registry.entries(),
                config.policies.deep_view(),
                config.databases,
            );
            0 <= i < config.policies.len() && message@ == unbuildable(
                registry.entries(),
                config.policies.deep_view()[i],
                config.databases,
            )
        },
{
    match validate_version(config.bouncer_version.as_str(), current_version) {
        Err(message) => {
            return Err(message);
        },
        Ok(()) => {},
    }
    registry.build_policy_chain(&config.policies, &config.databases)
}

} // verus!
