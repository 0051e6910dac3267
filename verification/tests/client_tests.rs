use async_rust_tui::client::{fetch_journeys, fetch_places, user_agent, FakeClient, HTTPClient};
use async_rust_tui::decode::{decode_journeys_response, decode_places_response};
use async_rust_tui::error::SncfAPIError;
use async_rust_tui::url::{api_base_url, journeys_url, percent_encode, places_url};

#[test]
fn test_user_agent_format() {
    let expected = format!(
        "{}/{} (rust; tokio; +https://github.com/uggla/async_rust_tui)",
        "async_rust_tui", "0.1.0"
    );
    assert_eq!(user_agent("async_rust_tui", "0.1.0"), expected);
}

#[test]
fn percent_encoding_leaves_unreserved_bytes() {
    assert_eq!(percent_encode("Grenoble"), "Grenoble");
    assert_eq!(percent_encode("AZaz09-._~"), "AZaz09-._~");
}

#[test]
fn percent_encoding_escapes_the_rest() {
    assert_eq!(percent_encode("stop_area:SNCF:87747006"), "stop_area%3ASNCF%3A87747006");
    assert_eq!(percent_encode("a b"), "a%20b");
    assert_eq!(percent_encode("é"), "%C3%A9");
}

#[test]
fn urls_have_the_fixed_endpoint_shapes() {
    assert_eq!(api_base_url(), "https://api.sncf.com/v1");
    assert_eq!(
        places_url("Grenoble"),
        "https://api.sncf.com/v1/coverage/sncf/places?q=Grenoble"
    );
    assert_eq!(
        journeys_url("stop_area:SNCF:87747006", "stop_area:SNCF:87747337"),
        "https://api.sncf.com/v1/coverage/sncf/journeys?from=stop_area%3ASNCF%3A87747006&to=stop_area%3ASNCF%3A87747337&first_section_mode[]=walking&last_section_mode[]=walking&min_nb_transfers=0&direct_path=none&min_nb_journeys=25&is_journey_schedules=True"
    );
}

#[test]
fn test_fake_client_places() {
    let client = FakeClient::new();
    let url = "https://api.sncf.com/v1/coverage/sncf/places?q=Grenoble";

    let result = client.get(url, "user", None);

    assert!(result.is_ok());
    let response = decode_places_response(&result.unwrap()).unwrap();
    assert_eq!(response.len(), 9);
    let expected_names = [
        "Grenoble (38000-38100)",
        "Grenoble (Grenoble)",
        "Grenoble Universités - Gières (Gières)",
        "Grenoble - Champollion (Grenoble)",
        "Grenoble Europole (Grenoble)",
        "Grenoble - Eugène Chavant (Grenoble)",
        "Grenoble Cité Internationale (Grenoble)",
        "Grenoble Victor Hugo (Grenoble)",
        "Grenoble - gare Routière (Grenoble)",
    ];
    for (place, expected_name) in response.iter().zip(expected_names.iter()) {
        assert_eq!(&place.name, expected_name);
    }
}

#[test]
fn test_fake_client_api_base() {
    let client = FakeClient::new();
    let url = "https://api.sncf.com/v1";

    let result = client.get(url, "user", None);

    assert!(result.is_ok());
    let response: serde_json::Value = serde_json::from_str(&result.unwrap()).unwrap();
    let links = response["links"].as_array().unwrap();
    assert_eq!(links.len(), 4);
    assert_eq!(links[0]["href"], "https://api.sncf.com/v1/coverage/");
    assert!(!links[0]["templated"].as_bool().unwrap());
    assert_eq!(links[0]["rel"], "coverage");
    assert_eq!(links[0]["type"], "coverage");
    assert_eq!(links[0]["title"], "Coverage of navitia");
}

#[test]
fn test_fetch_journeys_client_parsing() {
    let client = FakeClient::new();
    let url = "https://api.sncf.com/v1/coverage/sncf/journeys?from=stop_area%3ASNCF%3A87747006&to=stop_area%3ASNCF%3A87747337&first_section_mode[]=walking&last_section_mode[]=walking&min_nb_transfers=0&direct_path=none&min_nb_journeys=25&is_journey_schedules=True";

    let result = client.get(url, "user", None);

    assert!(result.is_ok());
    let response = decode_journeys_response(&result.unwrap()).unwrap();
    assert_eq!(response.len(), 2);

    let first = &response[0];
    assert_eq!(first.nb_transfers, Some(1));
    assert_eq!(first.departure_date_time, "20260103T062100");
    assert_eq!(first.arrival_date_time, "20260103T064900");

    let second = &response[1];
    assert_eq!(second.nb_transfers, Some(0));
    assert_eq!(second.departure_date_time, "20260103T075400");
    assert_eq!(second.arrival_date_time, "20260103T080300");
}

#[test]
fn test_fetch_journeys_client_sending_invalid_date() {
    let client = FakeClient::new();
    // The url has the stop_area stop_area:SNCF:87747338, which returns an
    // invalid date.
    let url = "https://api.sncf.com/v1/coverage/sncf/journeys?from=stop_area%3ASNCF%3A87747006&to=stop_area%3ASNCF%3A87747338&first_section_mode[]=walking&last_section_mode[]=walking&min_nb_transfers=0&direct_path=none&min_nb_journeys=25&is_journey_schedules=True";

    let result = client.get(url, "user", None);

    // The client only hands the body over; date parsing happens when the
    // journeys are built, so nothing fails here.
    assert!(result.is_ok());
    let response = decode_journeys_response(&result.unwrap()).unwrap();
    assert_eq!(response.len(), 2);

    let first = &response[0];
    assert_eq!(first.nb_transfers, Some(1));
    assert_eq!(first.departure_date_time, "I'm invalid");
    assert_eq!(first.arrival_date_time, "20260103T064900");

    let second = &response[1];
    assert_eq!(second.nb_transfers, Some(0));
    assert_eq!(second.departure_date_time, "20260103T075400");
    assert_eq!(second.arrival_date_time, "20260103T080300");
}

#[test]
fn fetch_places_keeps_the_stop_areas_in_order() {
    let client = FakeClient::new();

    let places = fetch_places(&client, "user", None, "Grenoble").unwrap();

    // The fixture has 9 candidates: 1 administrative region and 8 stop
    // areas; only the stop areas come back, in provider order.
    assert_eq!(places.len(), 8);
    let expected_names = [
        "Grenoble (Grenoble)",
        "Grenoble Universités - Gières (Gières)",
        "Grenoble - Champollion (Grenoble)",
        "Grenoble Europole (Grenoble)",
        "Grenoble - Eugène Chavant (Grenoble)",
        "Grenoble Cité Internationale (Grenoble)",
        "Grenoble Victor Hugo (Grenoble)",
        "Grenoble - gare Routière (Grenoble)",
    ];
    for (place, expected_name) in places.iter().zip(expected_names.iter()) {
        assert_eq!(&place.name, expected_name);
        assert_eq!(place.embedded_type.as_deref(), Some("stop_area"));
    }
    assert_eq!(places[0].id, "stop_area:SNCF:87747006");
}

#[test]
fn fetch_journeys_builds_both_items_in_order() {
    let client = FakeClient::new();

    let journeys = fetch_journeys(
        &client,
        "user",
        None,
        "stop_area:SNCF:87747006",
        "stop_area:SNCF:87747337",
    )
    .unwrap();

    assert_eq!(journeys.len(), 2);
    assert_eq!(journeys[0].transfer_count, 1);
    assert_eq!(journeys[0].duration_seconds, 1680);
    assert_eq!(journeys[0].date_label, "2026-01-03");
    assert_eq!(journeys[1].transfer_count, 0);
    assert_eq!(journeys[1].duration_seconds, 540);
}

#[test]
fn fetch_journeys_fails_whole_call_on_one_invalid_date() {
    let client = FakeClient::new();

    let err = fetch_journeys(
        &client,
        "user",
        None,
        "stop_area:SNCF:87747006",
        "stop_area:SNCF:87747338",
    )
    .unwrap_err();

    match &err {
        SncfAPIError::DateParseError(raw) => assert_eq!(raw, "I'm invalid"),
        other => panic!("expected a date parse error, got {:?}", other),
    }
    assert_eq!(err.message(), "Date cannot be parsed: I'm invalid");
}

#[test]
fn a_missing_transfer_count_defaults_to_zero() {
    let body = "{\"journeys\":[{\"departure_date_time\":\"20260103T062100\",\"arrival_date_time\":\"20260103T064900\"}]}";
    let raws = decode_journeys_response(body).unwrap();
    assert_eq!(raws.len(), 1);
    assert_eq!(raws[0].nb_transfers, None);
    let journeys = async_rust_tui::decode::journeys_from_raws(&raws).unwrap();
    assert_eq!(journeys[0].transfer_count, 0);
}

#[test]
fn a_missing_journeys_list_decodes_as_empty() {
    let client = FakeClient::new();
    // An unknown URL is served an empty object by the fixture client.
    let journeys = fetch_journeys(&client, "user", None, "nowhere", "nowhere").unwrap();
    assert_eq!(journeys.len(), 0);
}

#[test]
fn a_malformed_body_is_a_decode_error() {
    assert!(matches!(
        decode_places_response("this is not json"),
        Err(SncfAPIError::DecodeError)
    ));
    assert!(matches!(
        decode_places_response("{}"),
        Err(SncfAPIError::DecodeError)
    ));
    assert!(matches!(
        decode_journeys_response("{\"journeys\": 3}"),
        Err(SncfAPIError::DecodeError)
    ));
    assert_eq!(
        decode_places_response("{}").unwrap_err().message(),
        "Cannot decode response body"
    );
}
