//! What the gateway answers to its clients.

use vstd::prelude::*;

verus! {

/// HTTP status of a reply that carries a result, available or not.
pub const HTTP_OK: u16 = 200;

/// HTTP status of a reply to a request that failed validation.
pub const HTTP_BAD_REQUEST: u16 = 400;

/// HTTP status of a reply to a request that the gateway could not serve.
pub const HTTP_INTERNAL_SERVER_ERROR: u16 = 500;

/// The `status` member of a reply body.
#[derive(Clone, Copy, Debug, PartialEq, Eq, Structural)]
pub enum Status {
    /// The request was served.
    Okay,
    /// The request failed.
    Error,
    /// The request was served and there is nothing to offer.
    Unavailable,
}

impl Status {
    /// The word that stands for the status on the wire.
    pub open spec fn label_spec(self) -> Seq<char> {
        match self {
            Status::Okay => "ok"@,
            Status::Error => "error"@,
            Status::Unavailable => "unavailable"@,
        }
    }

    /// The word that stands for the status on the wire.
    pub fn label(&self) -> (s: &'static str)
        ensures
            s@ == self.label_spec(),
    {
        match self {
            Status::Okay => "ok",
            Status::Error => "error",
            Status::Unavailable => "unavailable",
        }
    }
}

/// The uniform envelope: a status and a message in words.
#[derive(Debug, PartialEq, Eq)]
pub struct SerpResponse {
    pub status: Status,
    pub message: String,
}

pub ghost struct SerpResponseView {
    pub status: Status,
    pub message: Seq<char>,
}

impl View for SerpResponse {
    type V = SerpResponseView;

    open spec fn view(&self) -> SerpResponseView {
        SerpResponseView { status: self.status, message: self.message@ }
    }
}

/// The offer found for a pricing request. The price is the provider's own
/// JSON number, before any markup.
#[derive(Debug, PartialEq, Eq)]
pub struct HotelQuote {
    pub hotel_id: String,
    pub raw_price: serde_json::Value,
    pub currency: String,
}

pub ghost struct HotelQuoteView {
    pub hotel_id: Seq<char>,
    pub raw_price: serde_json::Value,
    pub currency: Seq<char>,
}

impl View for HotelQuote {
    type V = HotelQuoteView;

    open spec fn view(&self) -> HotelQuoteView {
        HotelQuoteView {
            hotel_id: self.hotel_id@,
            raw_price: self.raw_price,
            currency: self.currency@,
        }
    }
}

/// The body of a reply, one variant per shape on the wire.
#[derive(Debug, PartialEq, Eq)]
pub enum ReplyBody {
    /// `{status, message}` with a message in words.
    Envelope(SerpResponse),
    /// `{data}`: the provider's suggestions as they came; `None` where it
    /// sent none, which is written `null`.
    Suggestions(Option<serde_json::Value>),
    /// `{status: "ok", message: {hotelID, minPrice, currency}}`.
    Hotel(HotelQuote),
    /// `{status: "ok", message: [..]}` with hotel identifiers.
    Region(Vec<String>),
}

pub ghost enum ReplyBodyView {
    Envelope(SerpResponseView),
    Suggestions(Option<serde_json::Value>),
    Hotel(HotelQuoteView),
    Region(Seq<Seq<char>>),
}

impl View for ReplyBody {
    type V = ReplyBodyView;

    open spec fn view(&self) -> ReplyBodyView {
        match self {
            ReplyBody::Envelope(e) => ReplyBodyView::Envelope(e@),
            ReplyBody::Suggestions(d) => ReplyBodyView::Suggestions(*d),
            ReplyBody::Hotel(q) => ReplyBodyView::Hotel(q@),
            ReplyBody::Region(ids) => ReplyBodyView::Region(ids.deep_view()),
        }
    }
}

impl ReplyBodyView {
    /// The status that the body shows to the client.
    pub open spec fn status(self) -> Status {
        match self {
            ReplyBodyView::Envelope(e) => e.status,
            _ => Status::Okay,
        }
    }
}

/// A complete reply: HTTP status and body.
#[derive(Debug, PartialEq, Eq)]
pub struct GatewayReply {
    pub http_status: u16,
    pub body: ReplyBody,
}

pub ghost struct GatewayReplyView {
    pub http_status: u16,
    pub body: ReplyBodyView,
}

impl View for GatewayReply {
    type V = GatewayReplyView;

    open spec fn view(&self) -> GatewayReplyView {
        GatewayReplyView { http_status: self.http_status, body: self.body@ }
    }
}

impl GatewayReplyView {
    /// A reply is a success payload, an `unavailable` envelope or an `error`
    /// envelope, and its HTTP status agrees with which of them it is.
    pub open spec fn well_formed(self) -> bool {
        match self.body {
            ReplyBodyView::Envelope(e) => match e.status {
                Status::Error => self.http_status == HTTP_BAD_REQUEST || self.http_status
                    == HTTP_INTERNAL_SERVER_ERROR,
                Status::Unavailable => self.http_status == HTTP_OK,
                Status::Okay => false,
            },
            _ => self.http_status == HTTP_OK,
        }
    }
}

/// The envelope with the given status and message.
pub open spec fn envelope_reply(http_status: u16, status: Status, message: Seq<char>) -> GatewayReplyView {
    GatewayReplyView {
        http_status,
        body: ReplyBodyView::Envelope(SerpResponseView { status, message }),
    }
}

impl GatewayReply {
    /// Builds an envelope reply.
    pub fn envelope(http_status: u16, status: Status, message: String) -> (reply: GatewayReply)
        ensures
            reply@ == envelope_reply(http_status, status, message@),
    {
        GatewayReply { http_status, body: ReplyBody::Envelope(SerpResponse { status, message }) }
    }
}

} // verus!
