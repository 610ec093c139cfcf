use weather_cli::error::{api_error_message, status_string, WeatherError, API_KEY_VARIABLE};

#[test]
fn unknown_city_message_quotes_the_city() {
    let error = WeatherError::NotFound { city: String::from("Atlantis") };
    assert_eq!(error.message(), "City 'Atlantis' not found");
}

#[test]
fn unknown_city_message_keeps_the_city_verbatim() {
    let error = WeatherError::NotFound { city: String::from(" S\u{e3}o Paulo's ") };
    assert_eq!(error.message(), "City ' S\u{e3}o Paulo's ' not found");
    let empty = WeatherError::NotFound { city: String::new() };
    assert_eq!(empty.message(), "City '' not found");
}

#[test]
fn api_error_message_carries_status_and_reason() {
    assert_eq!(
        WeatherError::Api { status: 500 }.message(),
        "API error: HTTP 500 Internal Server Error"
    );
    assert_eq!(WeatherError::Api { status: 401 }.message(), "API error: HTTP 401 Unauthorized");
    assert_eq!(
        WeatherError::Api { status: 429 }.message(),
        "API error: HTTP 429 Too Many Requests"
    );
}

#[test]
fn unregistered_status_has_a_placeholder_reason() {
    assert_eq!(
        WeatherError::Api { status: 599 }.message(),
        "API error: HTTP 599 <unknown status code>"
    );
    assert_eq!(status_string(999), "999 <unknown status code>");
    assert_eq!(status_string(100), "100 Continue");
}

#[test]
fn a_number_that_is_no_status_is_shown_bare() {
    assert_eq!(status_string(99), "99");
    assert_eq!(status_string(0), "0");
    assert_eq!(status_string(1000), "1000");
    assert_eq!(status_string(u16::MAX), "65535");
    assert_eq!(WeatherError::Api { status: 42 }.message(), "API error: HTTP 42");
}

#[test]
fn status_string_is_what_the_http_library_prints() {
    for status in 100..1000_u16 {
        let code = reqwest::StatusCode::from_u16(status).unwrap();
        assert_eq!(status_string(status), code.to_string());
    }
}

#[test]
fn api_error_message_prefixes_the_status() {
    assert_eq!(
        api_error_message("503 Service Unavailable"),
        "API error: HTTP 503 Service Unavailable"
    );
    assert_eq!(api_error_message(""), "API error: HTTP ");
}

#[test]
fn network_and_decode_messages_are_their_causes() {
    let network = WeatherError::Network { cause: String::from("operation timed out") };
    assert_eq!(network.message(), "operation timed out");
    let decode = WeatherError::Decode { cause: String::from("missing field `main`") };
    assert_eq!(decode.message(), "missing field `main`");
}

#[test]
fn config_message_names_the_variable() {
    assert_eq!(API_KEY_VARIABLE, "OPEN_WEATHER_MAP_API");
    assert_eq!(
        WeatherError::Config.message(),
        "OPEN_WEATHER_MAP_API environment variable not set. Please add it to your .env file."
    );
}
