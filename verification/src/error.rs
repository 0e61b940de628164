//! The failures of a request and the reply that each of them becomes.

use vstd::prelude::*;
use crate::request::ValidationError;
use crate::response::{
    envelope_reply, GatewayReply, GatewayReplyView, Status, HTTP_BAD_REQUEST,
    HTTP_INTERNAL_SERVER_ERROR,
};
use crate::text::{decimal, decimal_string, prefixed};
use crate::transform::MalformedUpstreamBody;

verus! {

/// Everything that can keep a request from being served.
#[derive(Debug, PartialEq, Eq)]
pub enum GatewayError {
    /// The request failed validation; nothing was sent upstream.
    Validation(ValidationError),
    /// The call to the provider could not be completed.
    Transport { cause: String },
    /// The provider answered with a status outside 200..=299.
    UpstreamStatus { code: u16 },
    /// The provider answered with success and a body that cannot be used.
    MalformedBody(MalformedUpstreamBody),
}

pub ghost enum GatewayErrorView {
    Validation(ValidationError),
    Transport { cause: Seq<char> },
    UpstreamStatus { code: u16 },
    MalformedBody(MalformedUpstreamBody),
}

impl View for GatewayError {
    type V = GatewayErrorView;

    open spec fn view(&self) -> GatewayErrorView {
        match self {
            GatewayError::Validation(e) => GatewayErrorView::Validation(*e),
            GatewayError::Transport { cause } => GatewayErrorView::Transport { cause: cause@ },
            GatewayError::UpstreamStatus { code } => GatewayErrorView::UpstreamStatus {
                code: *code,
            },
            GatewayError::MalformedBody(d) => GatewayErrorView::MalformedBody(*d),
        }
    }
}

impl GatewayErrorView {
    /// The HTTP status of the reply to a failed request: 400 where the client
    /// sent what validation refuses, 500 for everything else.
    pub open spec fn http_status(self) -> u16 {
        match self {
            GatewayErrorView::Validation(_) => HTTP_BAD_REQUEST,
            _ => HTTP_INTERNAL_SERVER_ERROR,
        }
    }

    /// The message of the reply to a failed request.
    pub open spec fn message(self) -> Seq<char> {
        match self {
            GatewayErrorView::Validation(e) => e.reason_spec(),
            GatewayErrorView::Transport { cause } => "Something went wrong: "@ + cause,
            GatewayErrorView::UpstreamStatus { code } => "HTTP error! Status: "@ + decimal(
                code as nat,
            ),
            GatewayErrorView::MalformedBody(d) => "Malformed upstream body: "@
                + d.description_spec(),
        }
    }
}

/// The reply to a failed request: an `error` envelope with the failure's
/// status and message.
pub open spec fn failure_reply(error: GatewayErrorView) -> GatewayReplyView {
    envelope_reply(error.http_status(), Status::Error, error.message())
}

/// Turns a failure into the reply that the client gets.
pub fn error_reply(error: &GatewayError) -> (reply: GatewayReply)
    ensures
        reply@ == failure_reply(error@),
        reply@.well_formed(),
{
    match error {
        GatewayError::Validation(e) => GatewayReply::envelope(
            HTTP_BAD_REQUEST,
            Status::Error,
            e.reason().to_owned(),
        ),
        GatewayError::Transport { cause } => GatewayReply::envelope(
            HTTP_INTERNAL_SERVER_ERROR,
            Status::Error,
            prefixed("Something went wrong: ", cause.as_str()),
        ),
        GatewayError::UpstreamStatus { code } => {
            let numeral = decimal_string(*code);
            GatewayReply::envelope(
                HTTP_INTERNAL_SERVER_ERROR,
                Status::Error,
                prefixed("HTTP error! Status: ", numeral.as_str()),
            )
        },
        GatewayError::MalformedBody(d) => GatewayReply::envelope(
            HTTP_INTERNAL_SERVER_ERROR,
            Status::Error,
            prefixed("Malformed upstream body: ", d.description()),
        ),
    }
}

} // verus!
