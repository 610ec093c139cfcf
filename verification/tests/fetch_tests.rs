use weather_cli::error::WeatherError;
use weather_cli::fetch::{
    on_body, on_send_failure, on_status, weather_request, BodyError, Param, ENDPOINT,
    NOT_FOUND, TIMEOUT_SECONDS,
};
use weather_cli::report::{Clouds, Coord, Main, Sys, Weather, WeatherData, Wind};

fn pair(name: &str, value: &str) -> Param {
    Param { name: String::from(name), value: String::from(value) }
}

fn small_report() -> WeatherData {
    WeatherData {
        coord: Coord { lon: -125_700, lat: 51_508_500 },
        weather: vec![Weather {
            id: 800,
            main: String::from("Clear"),
            description: String::from("clear sky"),
            icon: String::from("01d"),
        }],
        base: String::from("stations"),
        main: Main {
            temp: 2_000,
            feels_like: 1_950,
            temp_min: 1_800,
            temp_max: 2_200,
            pressure: 1_015,
            humidity: 40,
            sea_level: None,
            grnd_level: None,
        },
        visibility: 10_000,
        wind: Wind { speed: 150, deg: 90, gust: None },
        clouds: Clouds { all: 0 },
        dt: 1_700_000_000,
        sys: Sys { country: String::from("GB"), sunrise: 1_699_945_200, sunset: 1_699_978_600 },
        timezone: 0,
        id: 2_643_743,
        name: String::from("London"),
        cod: 200,
    }
}

#[test]
fn request_asks_for_metric_units_at_the_fixed_endpoint() {
    let request = weather_request("London", "abc123");
    assert_eq!(request.url, "https://api.openweathermap.org/data/2.5/weather");
    assert_eq!(request.url, ENDPOINT);
    assert_eq!(
        request.query,
        vec![pair("q", "London"), pair("appid", "abc123"), pair("units", "metric")]
    );
    assert_eq!(request.timeout_seconds, 10);
    assert_eq!(TIMEOUT_SECONDS, 10);
}

#[test]
fn request_passes_city_and_key_verbatim() {
    let request = weather_request(" New York ", "");
    assert_eq!(
        request.query,
        vec![pair("q", " New York "), pair("appid", ""), pair("units", "metric")]
    );
    let empty = weather_request("", "k");
    assert_eq!(empty.query, vec![pair("q", ""), pair("appid", "k"), pair("units", "metric")]);
}

#[test]
fn success_asks_for_the_body() {
    assert_eq!(on_status("London", 200), Ok(()));
    assert_eq!(on_status("London", 204), Ok(()));
    assert_eq!(on_status("London", 299), Ok(()));
}

#[test]
fn status_404_is_an_unknown_city() {
    assert_eq!(NOT_FOUND, 404);
    assert_eq!(
        on_status("Atlantis", 404),
        Err(WeatherError::NotFound { city: String::from("Atlantis") })
    );
    assert_eq!(
        on_status(" atlantis?", 404),
        Err(WeatherError::NotFound { city: String::from(" atlantis?") })
    );
    assert_eq!(on_status("", 404), Err(WeatherError::NotFound { city: String::new() }));
}

#[test]
fn other_statuses_are_api_errors_with_the_status() {
    assert_eq!(on_status("London", 500), Err(WeatherError::Api { status: 500 }));
    assert_eq!(on_status("London", 401), Err(WeatherError::Api { status: 401 }));
    assert_eq!(on_status("London", 199), Err(WeatherError::Api { status: 199 }));
    assert_eq!(on_status("London", 300), Err(WeatherError::Api { status: 300 }));
    assert_eq!(on_status("London", 403), Err(WeatherError::Api { status: 403 }));
    assert_eq!(on_status("London", 405), Err(WeatherError::Api { status: 405 }));
}

#[test]
fn every_status_is_classified() {
    for status in 0..=u16::MAX {
        let next = on_status("x", status);
        if (200..300).contains(&status) {
            assert_eq!(next, Ok(()));
        } else if status == 404 {
            assert_eq!(next, Err(WeatherError::NotFound { city: String::from("x") }));
        } else {
            assert_eq!(next, Err(WeatherError::Api { status }));
        }
    }
}

#[test]
fn a_failed_request_is_a_network_error_with_its_cause() {
    assert_eq!(
        on_send_failure(String::from("operation timed out")),
        WeatherError::Network { cause: String::from("operation timed out") }
    );
}

#[test]
fn a_body_that_does_not_decode_is_a_decode_error_with_its_cause() {
    let failure = BodyError::Decode { cause: String::from("missing field `main` at line 1") };
    assert_eq!(
        on_body(Err(failure)),
        Err(WeatherError::Decode { cause: String::from("missing field `main` at line 1") })
    );
}

#[test]
fn a_body_that_cannot_be_read_is_a_network_error_with_its_cause() {
    let failure = BodyError::Read { cause: String::from("connection reset") };
    assert_eq!(
        on_body(Err(failure)),
        Err(WeatherError::Network { cause: String::from("connection reset") })
    );
}

#[test]
fn a_decoded_body_is_the_report() {
    assert_eq!(on_body(Ok(small_report())), Ok(small_report()));
}
