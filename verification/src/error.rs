//! The ways in which a query for a city's weather fails, and their messages.

use crate::decimal::{integer_string, integer_text};
use vstd::prelude::*;
use vstd::string::*;

verus! {

/// Why a query for a city's weather failed.
#[derive(Clone, Debug, PartialEq, Eq)]
pub enum WeatherError {
    /// The API key is not configured.
    Config,
    /// The service could not be reached, or did not answer in time.
    Network { cause: String },
    /// The service does not know the city.
    NotFound { city: String },
    /// The service answered with another status than success.
    Api { status: u16 },
    /// The body of the answer is no weather report.
    Decode { cause: String },
}

/// The model of an error.
pub enum WeatherErrorView {
    Config,
    Network { cause: Seq<char> },
    NotFound { city: Seq<char> },
    Api { status: u16 },
    Decode { cause: Seq<char> },
}

impl View for WeatherError {
    type V = WeatherErrorView;

    open spec fn view(&self) -> WeatherErrorView {
        match self {
            WeatherError::Config => WeatherErrorView::Config,
            WeatherError::Network { cause } => WeatherErrorView::Network { cause: cause@ },
            WeatherError::NotFound { city } => WeatherErrorView::NotFound { city: city@ },
            WeatherError::Api { status } => WeatherErrorView::Api { status: *status },
            WeatherError::Decode { cause } => WeatherErrorView::Decode { cause: cause@ },
        }
    }
}

/// The name of the variable that holds the API key.
pub const API_KEY_VARIABLE: &'static str = "OPEN_WEATHER_MAP_API";

/// The numbers that are HTTP statuses: three digits, the first not zero.
pub open spec fn is_http_status(status: u16) -> bool {
    100 <= status < 1000
}

/// The reason phrase that goes with an HTTP status when one is printed, as
/// `reqwest::StatusCode` knows it: the registered phrase of a registered
/// status, and a placeholder for any other.
pub uninterp spec fn reason_phrase(status: u16) -> Seq<char>;

/// Calls `reqwest::StatusCode::from_u16` and prints the status with its
/// `Display`. Trusted: a number from 100 to 999 is accepted and printed as the
/// number in decimal, a space and the reason phrase of the number; any other
/// number is refused.
#[verifier::external_body]
fn print_status(status: u16) -> (printed: Option<String>)
    ensures
        printed is Some <==> is_http_status(status),
        printed matches Some(text) ==> text@ == integer_text(status as int) + " "@
            + reason_phrase(status),
{
    match reqwest::StatusCode::from_u16(status) {
        Ok(code) => Some(code.to_string()),
        Err(_) => None,
    }
}

/// A status as it appears in a message: an HTTP status with its reason
/// phrase, any other number bare.
pub open spec fn status_text(status: u16) -> Seq<char> {
    if is_http_status(status) {
        integer_text(status as int) + " "@ + reason_phrase(status)
    } else {
        integer_text(status as int)
    }
}

/// The message of an error.
pub open spec fn error_text(error: WeatherErrorView) -> Seq<char> {
    match error {
        WeatherErrorView::Config => API_KEY_VARIABLE@
            + " environment variable not set. Please add it to your .env file."@,
        WeatherErrorView::Network { cause } => cause,
        WeatherErrorView::NotFound { city } => "City '"@ + city + "' not found"@,
        WeatherErrorView::Api { status } => api_error_text(status_text(status)),
        WeatherErrorView::Decode { cause } => cause,
    }
}

/// The message of an answer with another status than success, given the
/// status as it is to appear.
pub open spec fn api_error_text(shown_status: Seq<char>) -> Seq<char> {
    "API error: HTTP "@ + shown_status
}

/// Renders a status for a message.
pub fn status_string(status: u16) -> (text: String)
    ensures
        text@ == status_text(status),
{
    match print_status(status) {
        Some(text) => text,
        None => integer_string(status as i64),
    }
}

/// Builds the message of an answer with another status than success from
/// the status as it is to appear.
pub fn api_error_message(shown_status: &str) -> (text: String)
    ensures
        text@ == api_error_text(shown_status@),
{
    let mut text = String::from_str("API error: HTTP ");
    text.append(shown_status);
    text
}

impl WeatherError {
    /// The message of the error, as shown to the user.
    pub fn message(&self) -> (text: String)
        ensures
            text@ == error_text(self@),
    {
        match self {
            WeatherError::Config => {
                let mut text = String::from_str(API_KEY_VARIABLE);
                text.append(" environment variable not set. Please add it to your .env file.");
                text
            },
            WeatherError::Network { cause } => cause.clone(),
            WeatherError::NotFound { city } => {
                let mut text = String::from_str("City '");
                text.append(city.as_str());
                text.append("' not found");
                text
            },
            WeatherError::Api { status } => api_error_message(status_string(*status).as_str()),
            WeatherError::Decode { cause } => cause.clone(),
        }
    }
}

} // verus!
