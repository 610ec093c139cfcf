//! The session: what happens on entry, what a line of input means, and what
//! a query shows.
//!
//! The library decides; a front end reads the lines, runs the queries and
//! prints what it is handed.

use crate::error::{error_text, WeatherError, WeatherErrorView};
use crate::presenter::{display_weather, report_lines};
use crate::report::{WeatherData, WeatherDataView};
use crate::style::{lines_view, plain, styled, Line, SpanView, Style};
use crate::text::{lowercase, lowercase_text, same_text, trim, trimmed_text};
use vstd::prelude::*;
use vstd::string::*;

verus! {

/// The states of a session.
#[derive(Clone, Copy, Debug, PartialEq, Eq, Structural)]
pub enum DriverState {
    /// The session prompts for a city and reads a line.
    AwaitingInput,
    /// The session is over.
    Done,
}

/// What a session does next.
#[derive(Clone, Debug, PartialEq, Eq)]
pub enum Action {
    /// Fetch and show the weather of a city.
    Query { city: String },
    /// Show the banner; the first prompt follows.
    Greet,
    /// Say goodbye.
    Farewell,
}

/// The model of an action.
pub enum ActionView {
    Query { city: Seq<char> },
    Greet,
    Farewell,
}

impl View for Action {
    type V = ActionView;

    open spec fn view(&self) -> ActionView {
        match self {
            Action::Query { city } => ActionView::Query { city: city@ },
            Action::Greet => ActionView::Greet,
            Action::Farewell => ActionView::Farewell,
        }
    }
}

/// Where a line of output goes.
#[derive(Clone, Copy, Debug, PartialEq, Eq, Structural)]
pub enum Stream {
    /// Standard output: reports, banner, prompt, goodbye.
    Stdout,
    /// Standard error: error messages.
    Stderr,
}

/// A line of output and the stream it goes to.
#[derive(Clone, Debug, PartialEq, Eq)]
pub struct Output {
    pub stream: Stream,
    pub line: Line,
}

impl View for Output {
    type V = (Stream, Seq<SpanView>);

    open spec fn view(&self) -> (Stream, Seq<SpanView>) {
        (self.stream, self.line@)
    }
}

/// The models of a sequence of outputs.
pub open spec fn outputs_view(outputs: Seq<Output>) -> Seq<(Stream, Seq<SpanView>)> {
    outputs.map_values(|output: Output| output@)
}

/// Lines as outputs to one stream.
pub open spec fn on_stream(stream: Stream, lines: Seq<Seq<SpanView>>) -> Seq<
    (Stream, Seq<SpanView>),
> {
    lines.map_values(|line: Seq<SpanView>| (stream, line))
}

/// What happens on entry: with a city, one query and the end; without one,
/// the banner and the first prompt.
pub open spec fn entry(city: Option<Seq<char>>) -> (DriverState, ActionView) {
    match city {
        Some(city) => (DriverState::Done, ActionView::Query { city }),
        None => (DriverState::AwaitingInput, ActionView::Greet),
    }
}

/// The words that end a session, in lowercase.
pub open spec fn is_exit_word(lowered: Seq<char>) -> bool {
    lowered == "q"@ || lowered == "exit"@
}

/// What a trimmed line means, given its lowercase form: an exit word ends the
/// session, and anything else, the empty line too, is the name of a city.
pub open spec fn meaning(trimmed: Seq<char>, lowered: Seq<char>) -> (DriverState, ActionView) {
    if is_exit_word(lowered) {
        (DriverState::Done, ActionView::Farewell)
    } else {
        (DriverState::AwaitingInput, ActionView::Query { city: trimmed })
    }
}

/// What a line of input means while the session awaits input: the line is
/// trimmed, and compared in lowercase with the exit words.
pub open spec fn line_meaning(line: Seq<char>) -> (DriverState, ActionView) {
    meaning(trimmed_text(line), lowercase_text(trimmed_text(line)))
}

/// What the lookup of the API key means: the key where one is set, and the
/// configuration error, which ends the program, where none is.
pub fn require_api_key(found: Option<String>) -> (key: Result<String, WeatherError>)
    ensures
        match found {
            Some(value) => key == Ok::<String, WeatherError>(value),
            None => key matches Err(error) && error@ == WeatherErrorView::Config,
        },
{
    match found {
        Some(value) => Ok(value),
        None => Err(WeatherError::Config),
    }
}

/// The model of the city given on entry, if one was given.
pub open spec fn view_city(city: Option<String>) -> Option<Seq<char>> {
    match city {
        Some(name) => Some(name@),
        None => None,
    }
}

/// Starts a session.
pub fn enter(city: Option<String>) -> (next: (DriverState, Action))
    ensures
        (next.0, next.1@) == entry(view_city(city)),
{
    match city {
        Some(city) => (DriverState::Done, Action::Query { city }),
        None => (DriverState::AwaitingInput, Action::Greet),
    }
}

/// Decides what a trimmed line means, given its lowercase form.
pub fn decide(trimmed: &str, lowered: &str) -> (next: (DriverState, Action))
    ensures
        (next.0, next.1@) == meaning(trimmed@, lowered@),
{
    if same_text(lowered, "q") || same_text(lowered, "exit") {
        (DriverState::Done, Action::Farewell)
    } else {
        (DriverState::AwaitingInput, Action::Query { city: String::from_str(trimmed) })
    }
}

/// Decides what a line of input means while the session awaits input.
pub fn on_line(line: &str) -> (next: (DriverState, Action))
    ensures
        (next.0, next.1@) == line_meaning(line@),
{
    let trimmed = trim(line);
    let lowered = lowercase(trimmed);
    decide(trimmed, lowered.as_str())
}

/// A session ends on a line exactly when the line, trimmed and in lowercase,
/// is an exit word; on any other line it goes on with a query for the trimmed
/// line.
pub proof fn lemma_session_ends_on_exit_word_only(line: Seq<char>)
    ensures
        line_meaning(line).0 == DriverState::Done <==> is_exit_word(
            lowercase_text(trimmed_text(line)),
        ),
        !is_exit_word(lowercase_text(trimmed_text(line))) ==> line_meaning(line) == (
            DriverState::AwaitingInput,
            ActionView::Query { city: trimmed_text(line) },
        ),
{
}

/// The banner of an interactive session.
pub open spec fn banner_lines() -> Seq<Seq<SpanView>> {
    seq![
        seq![styled("\u{1f324}\u{fe0f}  Weather CLI v1.0"@, Style::Bold)],
        seq![styled("Enter 'q' or 'exit' to quit"@, Style::Italic)],
    ]
}

/// The prompt for a city.
pub open spec fn prompt_line() -> Seq<SpanView> {
    seq![styled("Enter city name:"@, Style::BrightCyan), plain(" "@)]
}

/// The goodbye.
pub open spec fn farewell_line() -> Seq<SpanView> {
    seq![plain("\u{1f44b} Goodbye!"@)]
}

/// The message of a query that failed.
pub open spec fn failure_text(city: Seq<char>, error: WeatherErrorView) -> Seq<char> {
    "Failed to get weather data for '"@ + city + "': "@ + error_text(error)
}

/// An error as it is shown: the word `Error:` in red, then the message.
pub open spec fn error_line(message: Seq<char>) -> Seq<SpanView> {
    seq![styled("Error:"@, Style::BrightRed), plain(" "@ + message)]
}

/// The error shown when the API key is not configured: all of it in red.
pub open spec fn config_error_line() -> Seq<SpanView> {
    seq![styled("Error: "@ + error_text(WeatherErrorView::Config), Style::BrightRed)]
}

/// The exit code of a program whose session ended, whether or not its
/// queries failed.
pub const EXIT_OK: i32 = 0;

/// The exit code of a program that could not start for want of an API key.
pub const EXIT_NO_API_KEY: i32 = 1;

/// The banner of an interactive session.
pub fn banner() -> (lines: Vec<Line>)
    ensures
        lines_view(lines@) == banner_lines(),
{
    let mut title = Line::new();
    title.push(String::from_str("\u{1f324}\u{fe0f}  Weather CLI v1.0"), Style::Bold);
    let mut hint = Line::new();
    hint.push(String::from_str("Enter 'q' or 'exit' to quit"), Style::Italic);
    let mut lines: Vec<Line> = Vec::new();
    lines.push(title);
    lines.push(hint);
    assert(lines_view(lines@) =~= banner_lines());
    lines
}

/// The prompt for a city.
pub fn prompt() -> (line: Line)
    ensures
        line@ == prompt_line(),
{
    let mut line = Line::new();
    line.push(String::from_str("Enter city name:"), Style::BrightCyan);
    line.push(String::from_str(" "), Style::Plain);
    assert(line@ =~= prompt_line());
    line
}

/// The goodbye.
pub fn farewell() -> (line: Line)
    ensures
        line@ == farewell_line(),
{
    let mut line = Line::new();
    line.push(String::from_str("\u{1f44b} Goodbye!"), Style::Plain);
    assert(line@ =~= farewell_line());
    line
}

/// An error as it is shown.
pub fn error_report(message: &str) -> (line: Line)
    ensures
        line@ == error_line(message@),
{
    let mut text = String::from_str(" ");
    text.append(message);
    let mut line = Line::new();
    line.push(String::from_str("Error:"), Style::BrightRed);
    line.push(text, Style::Plain);
    assert(line@ =~= error_line(message@));
    line
}

/// The error shown when the API key is not configured.
pub fn config_error_report() -> (line: Line)
    ensures
        line@ == config_error_line(),
{
    let mut text = String::from_str("Error: ");
    text.append(WeatherError::Config.message().as_str());
    let mut line = Line::new();
    line.push(text, Style::BrightRed);
    assert(line@ =~= config_error_line());
    line
}

/// The model of the result of fetching a city's weather.
pub open spec fn view_fetched(fetched: Result<WeatherData, WeatherError>) -> Result<
    WeatherDataView,
    WeatherErrorView,
> {
    match fetched {
        Ok(report) => Ok(report@),
        Err(error) => Err(error@),
    }
}

/// What a query shows: the report where the weather was fetched, the message
/// of the failure where it was not.
pub open spec fn query_outcome(
    city: Seq<char>,
    fetched: Result<WeatherDataView, WeatherErrorView>,
    use_fahrenheit: bool,
) -> Result<Seq<Seq<SpanView>>, Seq<char>> {
    match fetched {
        Ok(report) => Ok(report_lines(report, use_fahrenheit)),
        Err(error) => Err(failure_text(city, error)),
    }
}

/// The model of what a query shows.
pub open spec fn view_shown(shown: Result<Vec<Line>, String>) -> Result<
    Seq<Seq<SpanView>>,
    Seq<char>,
> {
    match shown {
        Ok(lines) => Ok(lines_view(lines@)),
        Err(message) => Err(message@),
    }
}

/// Turns the result of fetching a city's weather into what is shown: the
/// lines of the report, or the message of the failure.
pub fn get_and_display_weather(
    city: &str,
    fetched: Result<WeatherData, WeatherError>,
    use_fahrenheit: bool,
) -> (shown: Result<Vec<Line>, String>)
    requires
        fetched matches Ok(report) ==> report@.displayable(),
    ensures
        view_shown(shown) == query_outcome(city@, view_fetched(fetched), use_fahrenheit),
{
    match fetched {
        Ok(report) => Ok(display_weather(&report, use_fahrenheit)),
        Err(error) => {
            let mut message = String::from_str("Failed to get weather data for '");
            message.append(city);
            message.append("': ");
            message.append(error.message().as_str());
            Err(message)
        },
    }
}

/// What follows a query in a given state: a blank line while the session
/// goes on, nothing when it is over.
pub open spec fn separator(state: DriverState) -> Seq<(Stream, Seq<SpanView>)> {
    match state {
        DriverState::AwaitingInput => seq![(Stream::Stdout, Seq::<SpanView>::empty())],
        DriverState::Done => Seq::empty(),
    }
}

/// Everything that a query puts out: the report on standard output, or the
/// error on standard error; then the separator of the state.
pub open spec fn query_outputs(
    city: Seq<char>,
    fetched: Result<WeatherDataView, WeatherErrorView>,
    use_fahrenheit: bool,
    state: DriverState,
) -> Seq<(Stream, Seq<SpanView>)> {
    match query_outcome(city, fetched, use_fahrenheit) {
        Ok(lines) => on_stream(Stream::Stdout, lines) + separator(state),
        Err(message) => seq![(Stream::Stderr, error_line(message))] + separator(state),
    }
}

/// A query that failed puts out one line, on standard error: the word
/// `Error:` and the message, which names the city as it was asked for. It
/// does not end a session that awaits input: a blank line follows, as after a
/// report.
pub proof fn lemma_failed_query_is_reported(
    city: Seq<char>,
    error: WeatherErrorView,
    use_fahrenheit: bool,
)
    ensures
        query_outputs(city, Err(error), use_fahrenheit, DriverState::Done) == seq![
            (Stream::Stderr, error_line(failure_text(city, error))),
        ],
        query_outputs(city, Err(error), use_fahrenheit, DriverState::AwaitingInput) == seq![
            (Stream::Stderr, error_line(failure_text(city, error))),
            (Stream::Stdout, Seq::<SpanView>::empty()),
        ],
{
}

/// Hands lines over as outputs to one stream.
pub fn to_stream(stream: Stream, lines: Vec<Line>) -> (outputs: Vec<Output>)
    ensures
        outputs_view(outputs@) == on_stream(stream, lines_view(lines@)),
{
    let mut outputs: Vec<Output> = Vec::new();
    let mut rest = lines;
    let ghost all = lines_view(rest@);
    let mut i: usize = 0;
    let n: usize = rest.len();
    while i < n
        invariant
            i <= n,
            n == rest.len(),
            outputs.len() == i,
            all.len() == n,
            forall|k: int| 0 <= k < i ==> (#[trigger] outputs@[k])@ == (stream, all[k]),
            forall|k: int| i <= k < n ==> (#[trigger] rest@[k])@ == all[k],
        decreases n - i,
    {
        let mut line = Line::new();
        std::mem::swap(&mut line, &mut rest[i]);
        outputs.push(Output { stream, line });
        i += 1;
    }
    assert(outputs_view(outputs@) =~= on_stream(stream, all));
    outputs
}

/// Shows a query: the report or the error, each on its stream, then a blank
/// line while the session goes on.
pub fn show_query(
    city: &str,
    fetched: Result<WeatherData, WeatherError>,
    use_fahrenheit: bool,
    state: DriverState,
) -> (outputs: Vec<Output>)
    requires
        fetched matches Ok(report) ==> report@.displayable(),
    ensures
        outputs_view(outputs@) == query_outputs(
            city@,
            view_fetched(fetched),
            use_fahrenheit,
            state,
        ),
{
    let mut outputs = match get_and_display_weather(city, fetched, use_fahrenheit) {
        Ok(lines) => to_stream(Stream::Stdout, lines),
        Err(message) => {
            let mut outputs: Vec<Output> = Vec::new();
            outputs.push(Output { stream: Stream::Stderr, line: error_report(message.as_str()) });
            assert(outputs_view(outputs@) =~= seq![(Stream::Stderr, error_line(message@))]);
            outputs
        },
    };
    match state {
        DriverState::AwaitingInput => {
            let ghost before = outputs_view(outputs@);
            outputs.push(Output { stream: Stream::Stdout, line: Line::new() });
            assert(outputs_view(outputs@) =~= before + separator(state));
        },
        DriverState::Done => {
            assert(outputs_view(outputs@) =~= outputs_view(outputs@) + separator(state));
        },
    }
    outputs
}

} // verus!
