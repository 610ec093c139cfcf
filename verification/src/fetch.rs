//! Fetching a report: what to ask the weather service, and what each answer
//! means.
//!
//! The library does not talk to the network. A front end sends the request
//! that [`weather_request`] describes. Where no answer comes it asks
//! [`on_send_failure`] for the error; where one comes it hands the status to
//! [`on_status`], reads and decodes the body where it is told to, and tells
//! [`on_body`] how that went.

use crate::error::{error_text, WeatherError, WeatherErrorView};
use crate::report::WeatherData;
use vstd::prelude::*;
use vstd::string::*;

verus! {

/// The address of the weather service.
pub const ENDPOINT: &'static str = "https://api.openweathermap.org/data/2.5/weather";

/// Seconds after which a request is given up.
pub const TIMEOUT_SECONDS: u64 = 10;

/// The status that means that the city is unknown.
pub const NOT_FOUND: u16 = 404;

/// One parameter of a query string.
#[derive(Clone, Debug, PartialEq, Eq)]
pub struct Param {
    pub name: String,
    pub value: String,
}

impl View for Param {
    type V = (Seq<char>, Seq<char>);

    open spec fn view(&self) -> (Seq<char>, Seq<char>) {
        (self.name@, self.value@)
    }
}

/// A GET request.
#[derive(Clone, Debug, PartialEq, Eq)]
pub struct Request {
    pub url: String,
    pub query: Vec<Param>,
    pub timeout_seconds: u64,
}

/// The model of a request.
pub struct RequestView {
    pub url: Seq<char>,
    pub query: Seq<(Seq<char>, Seq<char>)>,
    pub timeout_seconds: u64,
}

impl View for Request {
    type V = RequestView;

    open spec fn view(&self) -> RequestView {
        RequestView {
            url: self.url@,
            query: self.query@.map_values(|p: Param| p@),
            timeout_seconds: self.timeout_seconds,
        }
    }
}

/// The request for the current weather of a city: the city as given, the
/// key, and metric units whatever unit the report will be shown in.
pub open spec fn request_for(city: Seq<char>, api_key: Seq<char>) -> RequestView {
    RequestView {
        url: ENDPOINT@,
        query: seq![("q"@, city), ("appid"@, api_key), ("units"@, "metric"@)],
        timeout_seconds: TIMEOUT_SECONDS,
    }
}

/// Builds the request for the current weather of a city.
pub fn weather_request(city: &str, api_key: &str) -> (request: Request)
    ensures
        request@ == request_for(city@, api_key@),
{
    let mut query: Vec<Param> = Vec::new();
    query.push(Param { name: String::from_str("q"), value: String::from_str(city) });
    query.push(Param { name: String::from_str("appid"), value: String::from_str(api_key) });
    query.push(Param { name: String::from_str("units"), value: String::from_str("metric") });
    let request =
        Request { url: String::from_str(ENDPOINT), query, timeout_seconds: TIMEOUT_SECONDS };
    assert(request@.query =~= request_for(city@, api_key@).query);
    request
}

/// The error of a request that got no answer: the service could not be
/// reached, or did not answer in time.
pub fn on_send_failure(cause: String) -> (error: WeatherError)
    ensures
        error@ == (WeatherErrorView::Network { cause: cause@ }),
{
    WeatherError::Network { cause }
}

/// The statuses that mean success: 200 to 299.
pub open spec fn is_success(status: u16) -> bool {
    200 <= status < 300
}

/// What the status of an answer means. `Ok` means that the answer has a body
/// to decode; 404 means that the city is unknown; any other status is an
/// error of the service.
pub open spec fn status_meaning(city: Seq<char>, status: u16) -> Result<(), WeatherErrorView> {
    if is_success(status) {
        Ok(())
    } else if status == NOT_FOUND {
        Err(WeatherErrorView::NotFound { city })
    } else {
        Err(WeatherErrorView::Api { status })
    }
}

/// The model of a classified status.
pub open spec fn view_step(next: Result<(), WeatherError>) -> Result<(), WeatherErrorView> {
    match next {
        Ok(()) => Ok(()),
        Err(error) => Err(error@),
    }
}

/// Classifies the status of an answer. `Ok` means that the body is to be
/// read and decoded.
pub fn on_status(city: &str, status: u16) -> (next: Result<(), WeatherError>)
    ensures
        view_step(next) == status_meaning(city@, status),
{
    if 200 <= status && status < 300 {
        Ok(())
    } else if status == NOT_FOUND {
        Err(WeatherError::NotFound { city: String::from_str(city) })
    } else {
        Err(WeatherError::Api { status })
    }
}

/// Why no report came out of the body of an answer.
#[derive(Clone, Debug, PartialEq, Eq)]
pub enum BodyError {
    /// The body could not be read to its end.
    Read { cause: String },
    /// The body was read and is no weather report.
    Decode { cause: String },
}

/// The model of a failure on the body.
pub enum BodyErrorView {
    Read { cause: Seq<char> },
    Decode { cause: Seq<char> },
}

impl View for BodyError {
    type V = BodyErrorView;

    open spec fn view(&self) -> BodyErrorView {
        match self {
            BodyError::Read { cause } => BodyErrorView::Read { cause: cause@ },
            BodyError::Decode { cause } => BodyErrorView::Decode { cause: cause@ },
        }
    }
}

/// What a failure on the body means: a body that could not be read is a
/// network error, a body that is no report is a decode error, each with its
/// cause.
pub open spec fn body_error_meaning(failure: BodyErrorView) -> WeatherErrorView {
    match failure {
        BodyErrorView::Read { cause } => WeatherErrorView::Network { cause },
        BodyErrorView::Decode { cause } => WeatherErrorView::Decode { cause },
    }
}

/// Classifies what came of the body: the report where it decoded, and the
/// error that the failure means where it did not.
pub fn on_body(body: Result<WeatherData, BodyError>) -> (fetched: Result<
    WeatherData,
    WeatherError,
>)
    ensures
        match body {
            Ok(report) => fetched == Ok::<WeatherData, WeatherError>(report),
            Err(failure) => fetched matches Err(error) && error@ == body_error_meaning(failure@),
        },
{
    match body {
        Ok(report) => Ok(report),
        Err(BodyError::Read { cause }) => Err(WeatherError::Network { cause }),
        Err(BodyError::Decode { cause }) => Err(WeatherError::Decode { cause }),
    }
}

/// An answer with status 404 is reported as an unknown city, under the name
/// of the city exactly as it was asked for, and the message quotes that name.
pub proof fn lemma_not_found_names_city(city: Seq<char>)
    ensures
        status_meaning(city, NOT_FOUND) == Err::<(), WeatherErrorView>(
            WeatherErrorView::NotFound { city },
        ),
        error_text(WeatherErrorView::NotFound { city }) == "City '"@ + city + "' not found"@,
{
}

/// An answer with a status that is neither a success nor 404 is reported as
/// an error of the service that carries the status.
pub proof fn lemma_other_status_is_api_error(city: Seq<char>, status: u16)
    requires
        !is_success(status),
        status != NOT_FOUND,
    ensures
        status_meaning(city, status) == Err::<(), WeatherErrorView>(
            WeatherErrorView::Api { status },
        ),
{
}

/// A body that is no weather report is reported as a decode error, and the
/// message of that error is the cause of the failure.
pub proof fn lemma_undecodable_body_is_decode_error(cause: Seq<char>)
    ensures
        body_error_meaning(BodyErrorView::Decode { cause }) == (WeatherErrorView::Decode {
            cause,
        }),
        error_text(body_error_meaning(BodyErrorView::Decode { cause })) == cause,
{
}

} // verus!
