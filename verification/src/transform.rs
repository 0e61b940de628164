//! Reshaping of the provider's JSON body, one transform per endpoint. Each
//! works on the body of a call that succeeded and either produces the reply
//! or names what the body lacks.

use vstd::prelude::*;
use crate::json::{elements, get_member, is_numeric, member, text};
use crate::response::{
    envelope_reply, GatewayReply, GatewayReplyView, HotelQuote, HotelQuoteView, ReplyBody,
    ReplyBodyView, Status, HTTP_OK,
};

verus! {

/// What a provider body that cannot be reshaped is missing.
#[derive(Clone, Copy, Debug, PartialEq, Eq, Structural)]
pub enum MalformedUpstreamBody {
    /// The body is not a JSON document.
    NotJson,
    /// A listing was asked for and `data.hotels` is missing or not an array.
    HotelsMissing,
    /// The first rate of the hotel has no first daily price that is a number.
    PriceMissing,
    /// A hotel has no `id` that is a string.
    HotelIdMissing,
}

impl MalformedUpstreamBody {
    /// What the body lacks, in words.
    pub open spec fn description_spec(self) -> Seq<char> {
        match self {
            MalformedUpstreamBody::NotJson => "not a JSON document"@,
            MalformedUpstreamBody::HotelsMissing => "hotel list missing"@,
            MalformedUpstreamBody::PriceMissing => "hotel price missing"@,
            MalformedUpstreamBody::HotelIdMissing => "hotel id missing"@,
        }
    }

    /// What the body lacks, in words.
    pub fn description(&self) -> (s: &'static str)
        ensures
            s@ == self.description_spec(),
    {
        match self {
            MalformedUpstreamBody::NotJson => "not a JSON document",
            MalformedUpstreamBody::HotelsMissing => "hotel list missing",
            MalformedUpstreamBody::PriceMissing => "hotel price missing",
            MalformedUpstreamBody::HotelIdMissing => "hotel id missing",
        }
    }
}

/// The array under `data.hotels`, where the body has one.
pub open spec fn hotels_of(body: serde_json::Value) -> Option<Seq<serde_json::Value>> {
    match member(body, "data"@) {
        Some(data) => match member(data, "hotels"@) {
            Some(hotels) => elements(hotels),
            None => None,
        },
        None => None,
    }
}

/// The first element of an array; `None` for an empty array and for anything
/// else.
pub open spec fn first_element(v: serde_json::Value) -> Option<serde_json::Value> {
    match elements(v) {
        Some(items) => if items.len() > 0 {
            Some(items[0])
        } else {
            None
        },
        None => None,
    }
}

/// The first daily price of the first rate of a hotel, where it is there and
/// is a number.
pub open spec fn first_price(hotel: serde_json::Value) -> Option<serde_json::Value> {
    match member(hotel, "rates"@) {
        Some(rates) => match first_element(rates) {
            Some(rate) => match member(rate, "daily_prices"@) {
                Some(prices) => match first_element(prices) {
                    Some(price) => if is_numeric(price) {
                        Some(price)
                    } else {
                        None
                    },
                    None => None,
                },
                None => None,
            },
            None => None,
        },
        None => None,
    }
}

/// The identifier of a hotel, where it has one that is a string.
pub open spec fn hotel_id(hotel: serde_json::Value) -> Option<Seq<char>> {
    match member(hotel, "id"@) {
        Some(id) => text(id),
        None => None,
    }
}

/// Whether every hotel of the list has an identifier.
pub open spec fn all_identified(hotels: Seq<serde_json::Value>) -> bool {
    forall|i: int| 0 <= i < hotels.len() ==> (#[trigger] hotel_id(hotels[i])) is Some
}

/// The identifiers of the hotels, in the order of the list.
pub open spec fn identifiers(hotels: Seq<serde_json::Value>) -> Seq<Seq<char>> {
    Seq::new(hotels.len(), |i: int| hotel_id(hotels[i]).unwrap())
}

/// The reply of the autocomplete endpoint to a provider body: the body's
/// `data` member as it is, or nothing where the body has none.
pub open spec fn auto_complete_reply(body: serde_json::Value) -> GatewayReplyView {
    GatewayReplyView {
        http_status: HTTP_OK,
        body: ReplyBodyView::Suggestions(member(body, "data"@)),
    }
}

/// The reply of the pricing endpoint to a provider body, for a request in
/// `currency`.
///
/// Without a hotel list nothing is on offer; with an empty one the time is
/// not to be had. Otherwise the first hotel of the list is quoted at the
/// first daily price of its first rate, in the requested currency; a first
/// hotel without such a price, or without an identifier, makes the body
/// malformed.
pub open spec fn hotel_pricing_reply(body: serde_json::Value, currency: Seq<char>) -> Result<
    GatewayReplyView,
    MalformedUpstreamBody,
> {
    match hotels_of(body) {
        None => Ok(envelope_reply(HTTP_OK, Status::Unavailable, "No hotels available."@)),
        Some(hotels) => if hotels.len() == 0 {
            Ok(envelope_reply(HTTP_OK, Status::Unavailable, "Time unavailable."@))
        } else {
            match first_price(hotels[0]) {
                None => Err(MalformedUpstreamBody::PriceMissing),
                Some(price) => match hotel_id(hotels[0]) {
                    None => Err(MalformedUpstreamBody::HotelIdMissing),
                    Some(id) => Ok(
                        GatewayReplyView {
                            http_status: HTTP_OK,
                            body: ReplyBodyView::Hotel(
                                HotelQuoteView { hotel_id: id, raw_price: price, currency },
                            ),
                        },
                    ),
                },
            }
        },
    }
}

/// The reply of the region endpoint to a provider body: the identifiers of
/// all hotels of the list, in its order. A body without a list, or with a
/// hotel that has no identifier, is malformed.
pub open spec fn region_listing_reply(body: serde_json::Value) -> Result<
    GatewayReplyView,
    MalformedUpstreamBody,
> {
    match hotels_of(body) {
        None => Err(MalformedUpstreamBody::HotelsMissing),
        Some(hotels) => if all_identified(hotels) {
            Ok(
                GatewayReplyView {
                    http_status: HTTP_OK,
                    body: ReplyBodyView::Region(identifiers(hotels)),
                },
            )
        } else {
            Err(MalformedUpstreamBody::HotelIdMissing)
        },
    }
}

/// Whether an outcome of a transform is the one that the rule gives.
pub open spec fn matches_outcome(
    got: Result<GatewayReply, MalformedUpstreamBody>,
    rule: Result<GatewayReplyView, MalformedUpstreamBody>,
) -> bool {
    match rule {
        Ok(reply) => got is Ok && got->Ok_0@ == reply,
        Err(defect) => got is Err && got->Err_0 == defect,
    }
}

fn hotels_in(body: &serde_json::Value) -> (found: Option<&Vec<serde_json::Value>>)
    ensures
        match found {
            Some(hotels) => hotels_of(*body) == Some(hotels@),
            None => hotels_of(*body) is None,
        },
{
    match get_member(body, "data") {
        Some(data) => match get_member(data, "hotels") {
            Some(hotels) => hotels.as_array(),
            None => None,
        },
        None => None,
    }
}

fn first_in(v: &serde_json::Value) -> (found: Option<&serde_json::Value>)
    ensures
        match found {
            Some(item) => first_element(*v) == Some(*item),
            None => first_element(*v) is None,
        },
{
    match v.as_array() {
        Some(items) => if items.len() > 0 {
            Some(&items[0])
        } else {
            None
        },
        None => None,
    }
}

fn first_price_in(hotel: &serde_json::Value) -> (found: Option<&serde_json::Value>)
    ensures
        match found {
            Some(price) => first_price(*hotel) == Some(*price),
            None => first_price(*hotel) is None,
        },
{
    let rates = match get_member(hotel, "rates") {
        Some(rates) => rates,
        None => { return None; },
    };
    let rate = match first_in(rates) {
        Some(rate) => rate,
        None => { return None; },
    };
    let prices = match get_member(rate, "daily_prices") {
        Some(prices) => prices,
        None => { return None; },
    };
    match first_in(prices) {
        Some(price) => if price.is_number() {
            Some(price)
        } else {
            None
        },
        None => None,
    }
}

fn hotel_id_in(hotel: &serde_json::Value) -> (found: Option<&str>)
    ensures
        match found {
            Some(id) => hotel_id(*hotel) == Some(id@),
            None => hotel_id(*hotel) is None,
        },
{
    match get_member(hotel, "id") {
        Some(id) => id.as_str(),
        None => None,
    }
}

/// Reshapes a provider body for the autocomplete endpoint.
pub fn transform_auto_complete(body: &serde_json::Value) -> (reply: GatewayReply)
    ensures
        reply@ == auto_complete_reply(*body),
{
    let data = match get_member(body, "data") {
        Some(data) => Some(data.clone()),
        None => None,
    };
    GatewayReply { http_status: HTTP_OK, body: ReplyBody::Suggestions(data) }
}

/// Reshapes a provider body for the pricing endpoint.
pub fn transform_hotels(body: &serde_json::Value, currency: &str) -> (outcome: Result<
    GatewayReply,
    MalformedUpstreamBody,
>)
    ensures
        matches_outcome(outcome, hotel_pricing_reply(*body, currency@)),
{
    let hotels = match hotels_in(body) {
        Some(hotels) => hotels,
        None => {
            return Ok(
                GatewayReply::envelope(
                    HTTP_OK,
                    Status::Unavailable,
                    "No hotels available.".to_owned(),
                ),
            );
        },
    };
    if hotels.len() == 0 {
        return Ok(
            GatewayReply::envelope(HTTP_OK, Status::Unavailable, "Time unavailable.".to_owned()),
        );
    }
    let hotel = &hotels[0];
    let price = match first_price_in(hotel) {
        Some(price) => price,
        None => { return Err(MalformedUpstreamBody::PriceMissing); },
    };
    let id = match hotel_id_in(hotel) {
        Some(id) => id,
        None => { return Err(MalformedUpstreamBody::HotelIdMissing); },
    };
    Ok(
        GatewayReply {
            http_status: HTTP_OK,
            body: ReplyBody::Hotel(
                HotelQuote {
                    hotel_id: id.to_owned(),
                    raw_price: price.clone(),
                    currency: currency.to_owned(),
                },
            ),
        },
    )
}

/// Reshapes a provider body for the region endpoint.
pub fn transform_region(body: &serde_json::Value) -> (outcome: Result<
    GatewayReply,
    MalformedUpstreamBody,
>)
    ensures
        matches_outcome(outcome, region_listing_reply(*body)),
{
    let hotels = match hotels_in(body) {
        Some(hotels) => hotels,
        None => { return Err(MalformedUpstreamBody::HotelsMissing); },
    };
    let mut ids: Vec<String> = Vec::new();
    let mut i: usize = 0;
    while i < hotels.len()
        invariant
            hotels_of(*body) == Some(hotels@),
            i <= hotels.len(),
            ids@.len() == i,
            forall|j: int| 0 <= j < i ==> (#[trigger] hotel_id(hotels@[j])) == Some(ids@[j]@),
        decreases hotels.len() - i,
    {
        match hotel_id_in(&hotels[i]) {
            Some(id) => {
                ids.push(id.to_owned());
            },
            None => {
                assert(hotel_id(hotels@[i as int]) is None);
                return Err(MalformedUpstreamBody::HotelIdMissing);
            },
        }
        i += 1;
    }
    assert(ids.deep_view() =~= identifiers(hotels@));
    Ok(GatewayReply { http_status: HTTP_OK, body: ReplyBody::Region(ids) })
}

} // verus!
