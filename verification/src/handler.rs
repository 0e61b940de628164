//! The three endpoints. Each is a step function: told that a request was
//! received it decides between replying at once and calling the provider,
//! and told how that call ended it decides the reply. The caller performs
//! the call in between.

use vstd::prelude::*;
use crate::error::{error_reply, failure_reply, GatewayError, GatewayErrorView};
use crate::json::member;
use crate::request::{
    auto_complete_verdict, query_length, validate_auto_complete, AutoCompleteRequest,
    AutoCompleteRequestView, SerpRequest, SerpRequestView, MIN_QUERY_LENGTH,
};
use crate::response::{
    envelope_reply, GatewayReply, GatewayReplyView, HotelQuoteView, ReplyBodyView, Status,
    HTTP_BAD_REQUEST, HTTP_INTERNAL_SERVER_ERROR, HTTP_OK,
};
use crate::text::decimal;
use crate::transform::{
    all_identified, auto_complete_reply, first_price, hotel_id, hotel_pricing_reply, hotels_of,
    region_listing_reply, transform_auto_complete, transform_hotels, transform_region,
};
use crate::upstream::{
    build_request, classify, is_success, read_outcome, upstream_request, EndpointConfig,
    EndpointConfigView, UpstreamOutcome, UpstreamOutcomeView, UpstreamPayload,
    UpstreamPayloadView, UpstreamRequest, UpstreamRequestView,
};

verus! {

/// What an endpoint is told.
#[derive(Debug, PartialEq, Eq)]
pub enum GatewayEvent {
    /// The request has been received and nothing has been done for it yet.
    Received,
    /// The call that the endpoint asked for has ended.
    Upstream(UpstreamOutcome),
}

pub ghost enum GatewayEventView {
    Received,
    Upstream(UpstreamOutcomeView),
}

impl View for GatewayEvent {
    type V = GatewayEventView;

    open spec fn view(&self) -> GatewayEventView {
        match self {
            GatewayEvent::Received => GatewayEventView::Received,
            GatewayEvent::Upstream(outcome) => GatewayEventView::Upstream(outcome@),
        }
    }
}

/// What an endpoint asks its caller to do next.
#[derive(Debug, PartialEq, Eq)]
pub enum GatewayAction {
    /// Send this request to the provider and come back with the outcome.
    Call(UpstreamRequest),
    /// Answer the client with this reply; the request is done.
    Reply(GatewayReply),
}

pub ghost enum GatewayActionView {
    Call(UpstreamRequestView),
    Reply(GatewayReplyView),
}

impl View for GatewayAction {
    type V = GatewayActionView;

    open spec fn view(&self) -> GatewayActionView {
        match self {
            GatewayAction::Call(request) => GatewayActionView::Call(request@),
            GatewayAction::Reply(reply) => GatewayActionView::Reply(reply@),
        }
    }
}

impl GatewayActionView {
    /// Whether the action, where it is a reply, is a well-formed one.
    pub open spec fn well_formed(self) -> bool {
        match self {
            GatewayActionView::Call(_) => true,
            GatewayActionView::Reply(reply) => reply.well_formed(),
        }
    }
}

/// The reply of the autocomplete endpoint to the outcome of its call.
pub open spec fn auto_complete_answer(outcome: UpstreamOutcomeView) -> GatewayReplyView {
    match classify(outcome) {
        Ok(body) => auto_complete_reply(body),
        Err(error) => failure_reply(error),
    }
}

/// The reply of the pricing endpoint to the outcome of its call.
pub open spec fn hotels_answer(
    request: SerpRequestView,
    outcome: UpstreamOutcomeView,
) -> GatewayReplyView {
    match classify(outcome) {
        Ok(body) => match hotel_pricing_reply(body, request.currency) {
            Ok(reply) => reply,
            Err(defect) => failure_reply(GatewayErrorView::MalformedBody(defect)),
        },
        Err(error) => failure_reply(error),
    }
}

/// The reply of the region endpoint to the outcome of its call.
pub open spec fn region_answer(outcome: UpstreamOutcomeView) -> GatewayReplyView {
    match classify(outcome) {
        Ok(body) => match region_listing_reply(body) {
            Ok(reply) => reply,
            Err(defect) => failure_reply(GatewayErrorView::MalformedBody(defect)),
        },
        Err(error) => failure_reply(error),
    }
}

/// The autocomplete endpoint. A query that fails validation is refused
/// whatever the event; otherwise the request is forwarded once, and the
/// outcome of that call is answered.
pub open spec fn auto_complete_step(
    config: EndpointConfigView,
    request: AutoCompleteRequestView,
    event: GatewayEventView,
) -> GatewayActionView {
    match auto_complete_verdict(request) {
        Err(refusal) => GatewayActionView::Reply(
            failure_reply(GatewayErrorView::Validation(refusal)),
        ),
        Ok(_) => match event {
            GatewayEventView::Received => GatewayActionView::Call(
                upstream_request(config, UpstreamPayloadView::AutoComplete(request)),
            ),
            GatewayEventView::Upstream(outcome) => GatewayActionView::Reply(
                auto_complete_answer(outcome),
            ),
        },
    }
}

/// The pricing endpoint: every request is forwarded once, and the outcome of
/// that call is answered.
pub open spec fn hotels_step(
    config: EndpointConfigView,
    request: SerpRequestView,
    event: GatewayEventView,
) -> GatewayActionView {
    match event {
        GatewayEventView::Received => GatewayActionView::Call(
            upstream_request(config, UpstreamPayloadView::Hotels(request)),
        ),
        GatewayEventView::Upstream(outcome) => GatewayActionView::Reply(
            hotels_answer(request, outcome),
        ),
    }
}

/// The region endpoint: every request is forwarded once, and the outcome of
/// that call is answered.
pub open spec fn region_step(
    config: EndpointConfigView,
    request: serde_json::Value,
    event: GatewayEventView,
) -> GatewayActionView {
    match event {
        GatewayEventView::Received => GatewayActionView::Call(
            upstream_request(config, UpstreamPayloadView::Region(request)),
        ),
        GatewayEventView::Upstream(outcome) => GatewayActionView::Reply(region_answer(outcome)),
    }
}

/// One step of the autocomplete endpoint.
pub fn get_auto_complete(
    config: &EndpointConfig,
    payload: &AutoCompleteRequest,
    event: &GatewayEvent,
) -> (action: GatewayAction)
    requires
        config@.credentials.encodable(),
    ensures
        action@ == auto_complete_step(config@, payload@, event@),
        action@.well_formed(),
{
    match validate_auto_complete(payload) {
        Err(refusal) => GatewayAction::Reply(error_reply(&GatewayError::Validation(refusal))),
        Ok(_) => match event {
            GatewayEvent::Received => GatewayAction::Call(
                build_request(
                    config,
                    UpstreamPayload::AutoComplete(
                        AutoCompleteRequest { query: payload.query.clone() },
                    ),
                ),
            ),
            GatewayEvent::Upstream(outcome) => GatewayAction::Reply(
                match read_outcome(outcome) {
                    Ok(body) => transform_auto_complete(&body),
                    Err(error) => error_reply(&error),
                },
            ),
        },
    }
}

/// One step of the pricing endpoint.
pub fn get_serp_hotels(config: &EndpointConfig, payload: &SerpRequest, event: &GatewayEvent) -> (action:
    GatewayAction)
    requires
        config@.credentials.encodable(),
    ensures
        action@ == hotels_step(config@, payload@, event@),
        action@.well_formed(),
{
    match event {
        GatewayEvent::Received => GatewayAction::Call(
            build_request(
                config,
                UpstreamPayload::Hotels(
                    SerpRequest {
                        currency: payload.currency.clone(),
                        provider_fields: payload.provider_fields.clone(),
                    },
                ),
            ),
        ),
        GatewayEvent::Upstream(outcome) => GatewayAction::Reply(
            match read_outcome(outcome) {
                Ok(body) => match transform_hotels(&body, payload.currency.as_str()) {
                    Ok(reply) => reply,
                    Err(defect) => error_reply(&GatewayError::MalformedBody(defect)),
                },
                Err(error) => error_reply(&error),
            },
        ),
    }
}

/// One step of the region endpoint.
pub fn get_serp_region(
    config: &EndpointConfig,
    payload: &serde_json::Value,
    event: &GatewayEvent,
) -> (action: GatewayAction)
    requires
        config@.credentials.encodable(),
    ensures
        action@ == region_step(config@, *payload, event@),
        action@.well_formed(),
{
    match event {
        GatewayEvent::Received => GatewayAction::Call(
            build_request(config, UpstreamPayload::Region(payload.clone())),
        ),
        GatewayEvent::Upstream(outcome) => GatewayAction::Reply(
            match read_outcome(outcome) {
                Ok(body) => match transform_region(&body) {
                    Ok(reply) => reply,
                    Err(defect) => error_reply(&GatewayError::MalformedBody(defect)),
                },
                Err(error) => error_reply(&error),
            },
        ),
    }
}

/// A query of fewer than four bytes is refused with status 400 and the
/// message "Query should be at least 4 letters", whatever the event: the
/// endpoint never asks for an upstream call.
pub proof fn law_short_query_refused(
    config: EndpointConfigView,
    request: AutoCompleteRequestView,
    event: GatewayEventView,
)
    requires
        query_length(request.query) < MIN_QUERY_LENGTH,
    ensures
        auto_complete_step(config, request, event) == GatewayActionView::Reply(
            envelope_reply(
                HTTP_BAD_REQUEST,
                Status::Error,
                "Query should be at least 4 letters"@,
            ),
        ),
        !(auto_complete_step(config, request, event) is Call),
{
}

/// A query of at least four bytes is forwarded by exactly one upstream call:
/// the step on reception asks for the call, with the request as it came,
/// and the step on its outcome replies and asks for no other. Where the call
/// gave a document, the reply is 200 with the document's `data` member
/// unchanged.
pub proof fn law_auto_complete_single_call(
    config: EndpointConfigView,
    request: AutoCompleteRequestView,
    outcome: UpstreamOutcomeView,
)
    requires
        query_length(request.query) >= MIN_QUERY_LENGTH,
    ensures
        auto_complete_step(config, request, GatewayEventView::Received)
            == GatewayActionView::Call(
            upstream_request(config, UpstreamPayloadView::AutoComplete(request)),
        ),
        auto_complete_step(config, request, GatewayEventView::Upstream(outcome)) is Reply,
        classify(outcome) matches Ok(body) ==> auto_complete_step(
            config,
            request,
            GatewayEventView::Upstream(outcome),
        ) == GatewayActionView::Reply(
            GatewayReplyView {
                http_status: HTTP_OK,
                body: ReplyBodyView::Suggestions(member(body, "data"@)),
            },
        ),
{
}

/// Whatever the endpoint, a provider status outside 200..=299 is answered
/// with status 500 and the message "HTTP error! Status: " followed by the
/// status in decimal.
pub proof fn law_upstream_status_reported(
    query: AutoCompleteRequestView,
    pricing: SerpRequestView,
    status: u16,
    body: Seq<u8>,
)
    requires
        !is_success(status),
    ensures
        ({
            let outcome = UpstreamOutcomeView::Answered { status, body };
            let reply = envelope_reply(
                HTTP_INTERNAL_SERVER_ERROR,
                Status::Error,
                "HTTP error! Status: "@ + decimal(status as nat),
            );
            &&& query_length(query.query) >= MIN_QUERY_LENGTH ==> auto_complete_answer(outcome)
                == reply
            &&& hotels_answer(pricing, outcome) == reply
            &&& region_answer(outcome) == reply
        }),
{
}

/// A call that could not be completed is answered, whatever the endpoint,
/// with status 500 and the message "Something went wrong: " followed by the
/// cause.
pub proof fn law_transport_failure_reported(pricing: SerpRequestView, cause: Seq<char>)
    ensures
        ({
            let outcome = UpstreamOutcomeView::Unreachable { cause };
            let reply = envelope_reply(
                HTTP_INTERNAL_SERVER_ERROR,
                Status::Error,
                "Something went wrong: "@ + cause,
            );
            &&& auto_complete_answer(outcome) == reply
            &&& hotels_answer(pricing, outcome) == reply
            &&& region_answer(outcome) == reply
        }),
{
}

/// Where the provider's body has an empty hotel list, the pricing endpoint
/// answers with status 200 that the time is unavailable.
pub proof fn law_empty_hotel_list(
    request: SerpRequestView,
    outcome: UpstreamOutcomeView,
    body: serde_json::Value,
)
    requires
        classify(outcome) == Ok::<serde_json::Value, GatewayErrorView>(body),
        hotels_of(body) == Some(Seq::<serde_json::Value>::empty()),
    ensures
        hotels_answer(request, outcome) == envelope_reply(
            HTTP_OK,
            Status::Unavailable,
            "Time unavailable."@,
        ),
{
}

/// Where the provider's body has no hotel list, the pricing endpoint answers
/// with status 200 that no hotels are available.
pub proof fn law_missing_hotel_list(
    request: SerpRequestView,
    outcome: UpstreamOutcomeView,
    body: serde_json::Value,
)
    requires
        classify(outcome) == Ok::<serde_json::Value, GatewayErrorView>(body),
        hotels_of(body) is None,
    ensures
        hotels_answer(request, outcome) == envelope_reply(
            HTTP_OK,
            Status::Unavailable,
            "No hotels available."@,
        ),
{
}

/// Where the first hotel of the provider's list has an identifier and a first
/// daily price in its first rate, the pricing endpoint quotes that hotel at
/// that price, in the currency of the request, whatever the rest of the body
/// holds.
pub proof fn law_first_hotel_quoted(
    request: SerpRequestView,
    outcome: UpstreamOutcomeView,
    body: serde_json::Value,
    hotels: Seq<serde_json::Value>,
    id: Seq<char>,
    price: serde_json::Value,
)
    requires
        classify(outcome) == Ok::<serde_json::Value, GatewayErrorView>(body),
        hotels_of(body) == Some(hotels),
        hotels.len() > 0,
        hotel_id(hotels[0]) == Some(id),
        first_price(hotels[0]) == Some(price),
    ensures
        hotels_answer(request, outcome) == (GatewayReplyView {
            http_status: HTTP_OK,
            body: ReplyBodyView::Hotel(
                HotelQuoteView { hotel_id: id, raw_price: price, currency: request.currency },
            ),
        }),
{
}

/// The region endpoint lists one identifier for each hotel of the provider's
/// list, in the order of that list.
pub proof fn law_region_keeps_order(
    outcome: UpstreamOutcomeView,
    body: serde_json::Value,
    hotels: Seq<serde_json::Value>,
)
    requires
        classify(outcome) == Ok::<serde_json::Value, GatewayErrorView>(body),
        hotels_of(body) == Some(hotels),
        all_identified(hotels),
    ensures
        region_answer(outcome).http_status == HTTP_OK,
        region_answer(outcome).body matches ReplyBodyView::Region(ids) && ids.len()
            == hotels.len() && forall|i: int|
            0 <= i < hotels.len() ==> hotel_id(hotels[i]) == Some(#[trigger] ids[i]),
{
}

/// Every reply of every endpoint is a success payload with status 200, an
/// `unavailable` envelope with status 200, or an `error` envelope with status
/// 400 or 500.
pub proof fn law_replies_well_formed(
    config: EndpointConfigView,
    query: AutoCompleteRequestView,
    pricing: SerpRequestView,
    region: serde_json::Value,
    event: GatewayEventView,
)
    ensures
        auto_complete_step(config, query, event).well_formed(),
        hotels_step(config, pricing, event).well_formed(),
        region_step(config, region, event).well_formed(),
{
}

} // verus!
