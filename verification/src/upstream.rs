//! The upstream client: what is sent to the provider for an endpoint and a
//! payload, and how what came back is classified.

use vstd::prelude::*;
use vstd::string::StringExecFns;
use vstd::utf8::encode_utf8;
use crate::json::{json_parse, parse_document};
use crate::error::{GatewayError, GatewayErrorView};
use crate::request::{AutoCompleteRequest, AutoCompleteRequestView, SerpRequest, SerpRequestView};
use crate::text::prefixed;
use crate::transform::MalformedUpstreamBody;

verus! {

/// The standard base64 text, with padding, that the `base64` crate gives for
/// `bytes`.
pub uninterp spec fn base64_text(bytes: Seq<u8>) -> Seq<char>;

/// Whether the base64 text of `len` bytes has a length that fits the
/// machine's `usize`.
pub open spec fn base64_fits(len: nat) -> bool {
    len / 3 * 4 + 4 <= usize::MAX
}

/// `Engine::encode` of `base64`'s `STANDARD` engine: the text depends on the
/// bytes alone. The crate stops the program where the length of the text
/// overflows `usize`, so such inputs are left out.
#[verifier::external_body]
fn base64_encode(bytes: &[u8]) -> (encoded: String)
    requires
        base64_fits(bytes@.len()),
    ensures
        encoded@ == base64_text(bytes@),
{
    base64::Engine::encode(&base64::engine::general_purpose::STANDARD, bytes)
}

/// The pair that authenticates the gateway to the provider.
#[derive(Debug, PartialEq, Eq)]
pub struct Credentials {
    pub username: String,
    pub secret: String,
}

pub ghost struct CredentialsView {
    pub username: Seq<char>,
    pub secret: Seq<char>,
}

impl View for Credentials {
    type V = CredentialsView;

    open spec fn view(&self) -> CredentialsView {
        CredentialsView { username: self.username@, secret: self.secret@ }
    }
}

impl CredentialsView {
    /// User name and secret joined by a colon.
    pub open spec fn pair(self) -> Seq<char> {
        self.username + ":"@ + self.secret
    }

    /// Whether the pair is short enough for its header to be built on this
    /// machine.
    pub open spec fn encodable(self) -> bool {
        base64_fits(encode_utf8(self.pair()).len())
    }

    /// The value of the `Authorization` header: the scheme `Basic` and the
    /// base64 text of the pair's UTF-8 bytes.
    pub open spec fn authorization(self) -> Seq<char> {
        "Basic "@ + base64_text(encode_utf8(self.pair()))
    }
}

impl Credentials {
    fn pair(&self) -> (pair: String)
        ensures
            pair@ == self@.pair(),
    {
        let mut pair = self.username.clone();
        pair.append(":");
        pair.append(self.secret.as_str());
        pair
    }

    /// Whether the header of these credentials can be built on this machine.
    pub fn encodable(&self) -> (fits: bool)
        ensures
            fits == self@.encodable(),
    {
        let pair = self.pair();
        let len = pair.as_str().as_bytes().len();
        len / 3 <= (usize::MAX - 4) / 4
    }

    /// Builds the value of the `Authorization` header.
    pub fn authorization(&self) -> (header: String)
        requires
            self@.encodable(),
        ensures
            header@ == self@.authorization(),
    {
        let pair = self.pair();
        let encoded = base64_encode(pair.as_str().as_bytes());
        prefixed("Basic ", encoded.as_str())
    }
}

/// Where an endpoint of the provider is, and how to authenticate to it.
#[derive(Debug, PartialEq, Eq)]
pub struct EndpointConfig {
    pub url: String,
    pub credentials: Credentials,
}

pub ghost struct EndpointConfigView {
    pub url: Seq<char>,
    pub credentials: CredentialsView,
}

impl View for EndpointConfig {
    type V = EndpointConfigView;

    open spec fn view(&self) -> EndpointConfigView {
        EndpointConfigView { url: self.url@, credentials: self.credentials@ }
    }
}

/// What is sent to the provider as the body of a call: the inbound request,
/// as it was received.
#[derive(Debug, PartialEq, Eq)]
pub enum UpstreamPayload {
    AutoComplete(AutoCompleteRequest),
    Hotels(SerpRequest),
    Region(serde_json::Value),
}

pub ghost enum UpstreamPayloadView {
    AutoComplete(AutoCompleteRequestView),
    Hotels(SerpRequestView),
    Region(serde_json::Value),
}

impl View for UpstreamPayload {
    type V = UpstreamPayloadView;

    open spec fn view(&self) -> UpstreamPayloadView {
        match self {
            UpstreamPayload::AutoComplete(r) => UpstreamPayloadView::AutoComplete(r@),
            UpstreamPayload::Hotels(r) => UpstreamPayloadView::Hotels(r@),
            UpstreamPayload::Region(v) => UpstreamPayloadView::Region(*v),
        }
    }
}

/// One HTTP POST to the provider.
#[derive(Debug, PartialEq, Eq)]
pub struct UpstreamRequest {
    pub url: String,
    pub authorization: String,
    pub content_type: String,
    pub payload: UpstreamPayload,
}

pub ghost struct UpstreamRequestView {
    pub url: Seq<char>,
    pub authorization: Seq<char>,
    pub content_type: Seq<char>,
    pub payload: UpstreamPayloadView,
}

impl View for UpstreamRequest {
    type V = UpstreamRequestView;

    open spec fn view(&self) -> UpstreamRequestView {
        UpstreamRequestView {
            url: self.url@,
            authorization: self.authorization@,
            content_type: self.content_type@,
            payload: self.payload@,
        }
    }
}

/// The call that the gateway makes for a payload: to the endpoint's URL,
/// authenticated with its credentials, with a JSON content type and the
/// payload as it is.
pub open spec fn upstream_request(
    config: EndpointConfigView,
    payload: UpstreamPayloadView,
) -> UpstreamRequestView {
    UpstreamRequestView {
        url: config.url,
        authorization: config.credentials.authorization(),
        content_type: "application/json"@,
        payload,
    }
}

/// Builds the call for a payload.
pub fn build_request(config: &EndpointConfig, payload: UpstreamPayload) -> (request:
    UpstreamRequest)
    requires
        config@.credentials.encodable(),
    ensures
        request@ == upstream_request(config@, payload@),
{
    UpstreamRequest {
        url: config.url.clone(),
        authorization: config.credentials.authorization(),
        content_type: "application/json".to_owned(),
        payload,
    }
}

/// How a call to the provider ended.
#[derive(Debug, PartialEq, Eq)]
pub enum UpstreamOutcome {
    /// The call could not be completed; `cause` describes why.
    Unreachable { cause: String },
    /// The provider answered with an HTTP status and a body.
    Answered { status: u16, body: Vec<u8> },
}

pub ghost enum UpstreamOutcomeView {
    Unreachable { cause: Seq<char> },
    Answered { status: u16, body: Seq<u8> },
}

impl View for UpstreamOutcome {
    type V = UpstreamOutcomeView;

    open spec fn view(&self) -> UpstreamOutcomeView {
        match self {
            UpstreamOutcome::Unreachable { cause } => UpstreamOutcomeView::Unreachable {
                cause: cause@,
            },
            UpstreamOutcome::Answered { status, body } => UpstreamOutcomeView::Answered {
                status: *status,
                body: body@,
            },
        }
    }
}

/// Whether an HTTP status reports success.
pub open spec fn is_success(status: u16) -> bool {
    200 <= status <= 299
}

/// What a given result of parsing makes of a body that came with a success
/// status.
pub open spec fn parsed_body(parsed: Option<serde_json::Value>) -> Result<
    serde_json::Value,
    GatewayErrorView,
> {
    match parsed {
        Some(document) => Ok(document),
        None => Err(GatewayErrorView::MalformedBody(MalformedUpstreamBody::NotJson)),
    }
}

/// The classification of an outcome: a document for a success status with a
/// JSON body, and otherwise the failure.
pub open spec fn classify(outcome: UpstreamOutcomeView) -> Result<
    serde_json::Value,
    GatewayErrorView,
> {
    match outcome {
        UpstreamOutcomeView::Unreachable { cause } => Err(GatewayErrorView::Transport { cause }),
        UpstreamOutcomeView::Answered { status, body } => if is_success(status) {
            parsed_body(json_parse(body))
        } else {
            Err(GatewayErrorView::UpstreamStatus { code: status })
        },
    }
}

/// Whether a classification is the one that the rule gives.
pub open spec fn matches_classification(
    got: Result<serde_json::Value, GatewayError>,
    rule: Result<serde_json::Value, GatewayErrorView>,
) -> bool {
    match rule {
        Ok(document) => got is Ok && got->Ok_0 == document,
        Err(error) => got is Err && got->Err_0@ == error,
    }
}

/// Decides on a body that came with a success status, given what parsing it
/// gave: the document, or the failure that the body is not JSON.
pub fn accept_body(parsed: Result<serde_json::Value, serde_json::Error>) -> (result: Result<
    serde_json::Value,
    GatewayError,
>)
    ensures
        matches_classification(
            result,
            parsed_body(
                match parsed {
                    Ok(document) => Some(document),
                    Err(_) => None,
                },
            ),
        ),
{
    match parsed {
        Ok(document) => Ok(document),
        Err(_) => Err(GatewayError::MalformedBody(MalformedUpstreamBody::NotJson)),
    }
}

/// Classifies how a call ended. The body is read only where the status
/// reports success.
pub fn read_outcome(outcome: &UpstreamOutcome) -> (result: Result<serde_json::Value, GatewayError>)
    ensures
        matches_classification(result, classify(outcome@)),
{
    match outcome {
        UpstreamOutcome::Unreachable { cause } => Err(
            GatewayError::Transport { cause: cause.clone() },
        ),
        UpstreamOutcome::Answered { status, body } => {
            if 200 <= *status && *status <= 299 {
                accept_body(parse_document(body.as_slice()))
            } else {
                Err(GatewayError::UpstreamStatus { code: *status })
            }
        },
    }
}

} // verus!
