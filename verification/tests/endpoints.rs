use serp_gateway::handler::{
    get_auto_complete, get_serp_hotels, get_serp_region, GatewayAction, GatewayEvent,
};
use serp_gateway::request::{AutoCompleteRequest, SerpRequest};
use serp_gateway::response::{GatewayReply, HotelQuote, ReplyBody, SerpResponse, Status};
use serp_gateway::upstream::{
    Credentials, EndpointConfig, UpstreamOutcome, UpstreamPayload, UpstreamRequest,
};

fn config() -> EndpointConfig {
    EndpointConfig {
        url: "https://provider.test/search".to_string(),
        credentials: Credentials { username: "user".to_string(), secret: "secret".to_string() },
    }
}

fn json(text: &str) -> serde_json::Value {
    serde_json::from_str(text).unwrap()
}

fn query(text: &str) -> AutoCompleteRequest {
    AutoCompleteRequest { query: text.to_string() }
}

fn pricing(currency: &str) -> SerpRequest {
    SerpRequest { currency: currency.to_string(), provider_fields: json("{\"checkin\":\"2024-05-01\"}") }
}

fn answered(status: u16, body: &str) -> GatewayEvent {
    GatewayEvent::Upstream(UpstreamOutcome::Answered { status, body: body.as_bytes().to_vec() })
}

fn unreachable_provider(cause: &str) -> GatewayEvent {
    GatewayEvent::Upstream(UpstreamOutcome::Unreachable { cause: cause.to_string() })
}

fn envelope(http_status: u16, status: Status, message: &str) -> GatewayAction {
    GatewayAction::Reply(GatewayReply {
        http_status,
        body: ReplyBody::Envelope(SerpResponse { status, message: message.to_string() }),
    })
}

#[test]
fn short_query_is_refused_on_reception() {
    for text in ["", "a", "ab", "abc"] {
        let action = get_auto_complete(&config(), &query(text), &GatewayEvent::Received);
        assert_eq!(action, envelope(400, Status::Error, "Query should be at least 4 letters"));
    }
}

#[test]
fn short_query_is_refused_whatever_the_event() {
    let events = [
        answered(200, "{\"data\":[1]}"),
        answered(503, ""),
        unreachable_provider("connection refused"),
    ];
    for event in events.iter() {
        let action = get_auto_complete(&config(), &query("abc"), event);
        assert_eq!(action, envelope(400, Status::Error, "Query should be at least 4 letters"));
    }
}

#[test]
fn query_length_counts_bytes() {
    // Two characters, three bytes: refused.
    let refused = get_auto_complete(&config(), &query("h\u{e9}"), &GatewayEvent::Received);
    assert_eq!(refused, envelope(400, Status::Error, "Query should be at least 4 letters"));
    // Three characters, five bytes: forwarded.
    let forwarded = get_auto_complete(&config(), &query("h\u{e9}\u{e9}"), &GatewayEvent::Received);
    assert!(matches!(forwarded, GatewayAction::Call(_)));
}

#[test]
fn long_query_is_forwarded_once() {
    let action = get_auto_complete(&config(), &query("pari"), &GatewayEvent::Received);
    assert_eq!(
        action,
        GatewayAction::Call(UpstreamRequest {
            url: "https://provider.test/search".to_string(),
            authorization: "Basic dXNlcjpzZWNyZXQ=".to_string(),
            content_type: "application/json".to_string(),
            payload: UpstreamPayload::AutoComplete(query("pari")),
        })
    );
    let next = get_auto_complete(&config(), &query("pari"), &answered(200, "{\"data\":1}"));
    assert!(matches!(next, GatewayAction::Reply(_)));
}

#[test]
fn auto_complete_passes_data_through() {
    let body = "{\"data\":{\"hotels\":[{\"id\":\"paris_inn\",\"name\":\"Paris Inn\"}],\"regions\":[]},\"status\":\"ok\"}";
    let action = get_auto_complete(&config(), &query("paris"), &answered(200, body));
    let expected = json("{\"hotels\":[{\"id\":\"paris_inn\",\"name\":\"Paris Inn\"}],\"regions\":[]}");
    assert_eq!(
        action,
        GatewayAction::Reply(GatewayReply {
            http_status: 200,
            body: ReplyBody::Suggestions(Some(expected)),
        })
    );
}

#[test]
fn auto_complete_without_data_has_none() {
    for body in ["{\"status\":\"ok\"}", "[1,2]", "7"] {
        let action = get_auto_complete(&config(), &query("paris"), &answered(200, body));
        assert_eq!(
            action,
            GatewayAction::Reply(GatewayReply {
                http_status: 200,
                body: ReplyBody::Suggestions(None),
            })
        );
    }
}

#[test]
fn auto_complete_keeps_explicit_null() {
    let action = get_auto_complete(&config(), &query("paris"), &answered(200, "{\"data\":null}"));
    assert_eq!(
        action,
        GatewayAction::Reply(GatewayReply {
            http_status: 200,
            body: ReplyBody::Suggestions(Some(serde_json::Value::Null)),
        })
    );
}

#[test]
fn hotels_request_is_forwarded_as_received() {
    let action = get_serp_hotels(&config(), &pricing("USD"), &GatewayEvent::Received);
    assert_eq!(
        action,
        GatewayAction::Call(UpstreamRequest {
            url: "https://provider.test/search".to_string(),
            authorization: "Basic dXNlcjpzZWNyZXQ=".to_string(),
            content_type: "application/json".to_string(),
            payload: UpstreamPayload::Hotels(pricing("USD")),
        })
    );
}

#[test]
fn empty_hotel_list_is_time_unavailable() {
    let action = get_serp_hotels(&config(), &pricing("USD"), &answered(200, "{\"data\":{\"hotels\":[]}}"));
    assert_eq!(action, envelope(200, Status::Unavailable, "Time unavailable."));
}

#[test]
fn missing_hotel_list_is_no_hotels_available() {
    for body in ["{\"data\":{}}", "{}", "{\"data\":null}", "{\"data\":{\"hotels\":null}}", "{\"data\":{\"hotels\":{\"id\":\"H1\"}}}", "[]"] {
        let action = get_serp_hotels(&config(), &pricing("USD"), &answered(200, body));
        assert_eq!(action, envelope(200, Status::Unavailable, "No hotels available."));
    }
}

#[test]
fn first_hotel_is_quoted_in_request_currency() {
    let body = "{\"data\":{\"hotels\":[{\"id\":\"H1\",\"rates\":[{\"daily_prices\":[50.0]}]}]}}";
    let action = get_serp_hotels(&config(), &pricing("USD"), &answered(200, body));
    match action {
        GatewayAction::Reply(GatewayReply { http_status, body: ReplyBody::Hotel(quote) }) => {
            assert_eq!(http_status, 200);
            assert_eq!(quote.hotel_id, "H1");
            assert_eq!(quote.raw_price.as_f64(), Some(50.0));
            assert_eq!(quote.currency, "USD");
        }
        other => panic!("unexpected action: {:?}", other),
    }
}

#[test]
fn quote_takes_first_hotel_first_rate_first_price() {
    let body = "{\"data\":{\"hotels\":[\
        {\"id\":\"H2\",\"currency\":\"EUR\",\"rates\":[{\"daily_prices\":[\"80.5\",\"90\"]},{\"daily_prices\":[10]}]},\
        {\"id\":\"H1\",\"rates\":[{\"daily_prices\":[1]}]}]}}";
    let action = get_serp_hotels(&config(), &pricing("GBP"), &answered(200, body));
    assert_eq!(action, envelope(500, Status::Error, "Malformed upstream body: hotel price missing"));

    let body = "{\"data\":{\"hotels\":[\
        {\"id\":\"H2\",\"currency\":\"EUR\",\"rates\":[{\"daily_prices\":[80,90]},{\"daily_prices\":[10]}]},\
        {\"id\":\"H1\",\"rates\":[{\"daily_prices\":[1]}]}]}}";
    let action = get_serp_hotels(&config(), &pricing("GBP"), &answered(200, body));
    assert_eq!(
        action,
        GatewayAction::Reply(GatewayReply {
            http_status: 200,
            body: ReplyBody::Hotel(HotelQuote {
                hotel_id: "H2".to_string(),
                raw_price: json("80"),
                currency: "GBP".to_string(),
            }),
        })
    );
}

#[test]
fn hotel_without_price_is_malformed() {
    let bodies = [
        "{\"data\":{\"hotels\":[{\"id\":\"H1\"}]}}",
        "{\"data\":{\"hotels\":[{\"id\":\"H1\",\"rates\":[]}]}}",
        "{\"data\":{\"hotels\":[{\"id\":\"H1\",\"rates\":[{}]}]}}",
        "{\"data\":{\"hotels\":[{\"id\":\"H1\",\"rates\":[{\"daily_prices\":[]}]}]}}",
        "{\"data\":{\"hotels\":[{\"id\":\"H1\",\"rates\":[{\"daily_prices\":[null]}]}]}}",
        "{\"data\":{\"hotels\":[{\"id\":\"H1\",\"rates\":{\"daily_prices\":[5]}}]}}",
        "{\"data\":{\"hotels\":[7]}}",
    ];
    for body in bodies {
        let action = get_serp_hotels(&config(), &pricing("USD"), &answered(200, body));
        assert_eq!(action, envelope(500, Status::Error, "Malformed upstream body: hotel price missing"));
    }
}

#[test]
fn hotel_without_id_is_malformed() {
    let bodies = [
        "{\"data\":{\"hotels\":[{\"rates\":[{\"daily_prices\":[50.0]}]}]}}",
        "{\"data\":{\"hotels\":[{\"id\":17,\"rates\":[{\"daily_prices\":[50.0]}]}]}}",
    ];
    for body in bodies {
        let action = get_serp_hotels(&config(), &pricing("USD"), &answered(200, body));
        assert_eq!(action, envelope(500, Status::Error, "Malformed upstream body: hotel id missing"));
    }
}

#[test]
fn region_request_is_forwarded_as_received() {
    let payload = json("{\"region_id\":965847972,\"guests\":[{\"adults\":2}]}");
    let action = get_serp_region(&config(), &payload, &GatewayEvent::Received);
    assert_eq!(
        action,
        GatewayAction::Call(UpstreamRequest {
            url: "https://provider.test/search".to_string(),
            authorization: "Basic dXNlcjpzZWNyZXQ=".to_string(),
            content_type: "application/json".to_string(),
            payload: UpstreamPayload::Region(json("{\"region_id\":965847972,\"guests\":[{\"adults\":2}]}")),
        })
    );
}

#[test]
fn region_lists_ids_in_upstream_order() {
    let payload = json("{\"region_id\":1}");
    let action = get_serp_region(&config(), &payload, &answered(200, "{\"data\":{\"hotels\":[{\"id\":\"A\"},{\"id\":\"B\"}]}}"));
    assert_eq!(
        action,
        GatewayAction::Reply(GatewayReply {
            http_status: 200,
            body: ReplyBody::Region(vec!["A".to_string(), "B".to_string()]),
        })
    );
    let action = get_serp_region(&config(), &payload, &answered(200, "{\"data\":{\"hotels\":[{\"id\":\"z\"},{\"id\":\"a\"},{\"id\":\"z\"}]}}"));
    assert_eq!(
        action,
        GatewayAction::Reply(GatewayReply {
            http_status: 200,
            body: ReplyBody::Region(vec!["z".to_string(), "a".to_string(), "z".to_string()]),
        })
    );
}

#[test]
fn region_with_empty_list_is_empty() {
    let payload = json("{}");
    let action = get_serp_region(&config(), &payload, &answered(200, "{\"data\":{\"hotels\":[]}}"));
    assert_eq!(
        action,
        GatewayAction::Reply(GatewayReply { http_status: 200, body: ReplyBody::Region(vec![]) })
    );
}

#[test]
fn region_without_list_is_malformed() {
    let payload = json("{}");
    for body in ["{\"data\":{}}", "{}", "{\"data\":{\"hotels\":\"none\"}}"] {
        let action = get_serp_region(&config(), &payload, &answered(200, body));
        assert_eq!(action, envelope(500, Status::Error, "Malformed upstream body: hotel list missing"));
    }
}

#[test]
fn region_with_unidentified_hotel_is_malformed() {
    let payload = json("{}");
    let action = get_serp_region(&config(), &payload, &answered(200, "{\"data\":{\"hotels\":[{\"id\":\"A\"},{\"name\":\"B\"}]}}"));
    assert_eq!(action, envelope(500, Status::Error, "Malformed upstream body: hotel id missing"));
}

#[test]
fn upstream_503_is_reported_by_every_endpoint() {
    let event = answered(503, "Service Unavailable");
    let expected = envelope(500, Status::Error, "HTTP error! Status: 503");
    assert_eq!(get_auto_complete(&config(), &query("paris"), &event), expected);
    assert_eq!(get_serp_hotels(&config(), &pricing("USD"), &event), expected);
    assert_eq!(get_serp_region(&config(), &json("{}"), &event), expected);
}

#[test]
fn success_is_status_200_to_299() {
    let body = "{\"data\":{\"hotels\":[]}}";
    for status in [200u16, 201, 204, 299] {
        let action = get_serp_hotels(&config(), &pricing("USD"), &answered(status, body));
        assert_eq!(action, envelope(200, Status::Unavailable, "Time unavailable."));
    }
    assert_eq!(
        get_serp_hotels(&config(), &pricing("USD"), &answered(199, body)),
        envelope(500, Status::Error, "HTTP error! Status: 199")
    );
    assert_eq!(
        get_serp_hotels(&config(), &pricing("USD"), &answered(300, body)),
        envelope(500, Status::Error, "HTTP error! Status: 300")
    );
    assert_eq!(
        get_serp_hotels(&config(), &pricing("USD"), &answered(404, body)),
        envelope(500, Status::Error, "HTTP error! Status: 404")
    );
}

#[test]
fn transport_failure_is_reported_by_every_endpoint() {
    let event = unreachable_provider("dns error: no such host");
    let expected = envelope(500, Status::Error, "Something went wrong: dns error: no such host");
    assert_eq!(get_auto_complete(&config(), &query("paris"), &event), expected);
    assert_eq!(get_serp_hotels(&config(), &pricing("USD"), &event), expected);
    assert_eq!(get_serp_region(&config(), &json("{}"), &event), expected);
}

#[test]
fn unparsable_body_is_malformed() {
    let expected = envelope(500, Status::Error, "Malformed upstream body: not a JSON document");
    for body in ["", "<html>", "{\"data\":", "{\"data\":1} trailing"] {
        let event = answered(200, body);
        assert_eq!(get_auto_complete(&config(), &query("paris"), &event), expected);
        assert_eq!(get_serp_hotels(&config(), &pricing("USD"), &event), expected);
        assert_eq!(get_serp_region(&config(), &json("{}"), &event), expected);
    }
}
